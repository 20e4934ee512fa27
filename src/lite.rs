use crate::traits::{Decoder, Encoder};
use vstd::prelude::*;

verus! {

/// The intermediate value of `serde-lite`, carried through opaquely.
#[verifier::external_type_specification]
#[verifier::external_body]
pub struct ExIntermediate(::serde_lite::Intermediate);

/// The conversion error of `serde-lite`, carried through opaquely.
#[verifier::external_type_specification]
#[verifier::external_body]
pub struct ExLiteError(::serde_lite::Error);

/// The verified steps of an adapter that converts a value to `serde-lite`'s intermediate value
/// and hands that to the wrapped codec `C`, which encodes and decodes intermediate values.
///
/// The conversion itself goes through `serde-lite`'s traits and is made by the caller; a codec
/// that implements `Encoder` and `Decoder` on top of these steps is built outside this crate.
/// Encoding is the conversion of the value, then `encode_converted`, which passes a failed
/// conversion on without calling `C` and otherwise encodes with `C`. Decoding is
/// `decode_intermediate`, which decodes with `C`, then the conversion back, whose outcome
/// `finish_decode` turns into the adapter's result.
pub struct SerdeLite<C>(C);

/// Failure of encoding through [`SerdeLite`]: the conversion failed, or the wrapped encoder did.
#[derive(Debug)]
pub enum SerdeLiteEncodeError<E> {
    SerdeLite(::serde_lite::Error),
    Encoder(E),
}

/// Failure of decoding through [`SerdeLite`]: the wrapped decoder failed, or the conversion did.
#[derive(Debug)]
pub enum SerdeLiteDecodeError<E> {
    SerdeLite(::serde_lite::Error),
    Decoder(E),
}

impl<E> From<E> for SerdeLiteEncodeError<E> {
    /// The wrapped encoder's error, carried unchanged.
    fn from(e: E) -> (r: Self) {
        SerdeLiteEncodeError::Encoder(e)
    }
}

impl<E> vstd::std_specs::convert::FromSpecImpl<E> for SerdeLiteEncodeError<E> {
    open spec fn obeys_from_spec() -> bool {
        true
    }

    open spec fn from_spec(e: E) -> Self {
        SerdeLiteEncodeError::Encoder(e)
    }
}

impl<E> From<E> for SerdeLiteDecodeError<E> {
    /// The wrapped decoder's error, carried unchanged.
    fn from(e: E) -> (r: Self) {
        SerdeLiteDecodeError::Decoder(e)
    }
}

impl<E> vstd::std_specs::convert::FromSpecImpl<E> for SerdeLiteDecodeError<E> {
    open spec fn obeys_from_spec() -> bool {
        true
    }

    open spec fn from_spec(e: E) -> Self {
        SerdeLiteDecodeError::Decoder(e)
    }
}

/// The adapter's outcome for an outcome of the wrapped encoder: its error is kept as it is.
pub open spec fn lift_encode<T, E>(o: Result<T, E>) -> Result<T, SerdeLiteEncodeError<E>> {
    match o {
        Ok(v) => Ok(v),
        Err(e) => Err(SerdeLiteEncodeError::Encoder(e)),
    }
}

/// The adapter's outcome for an outcome of the wrapped decoder: its error is kept as it is.
pub open spec fn lift_decode<T, E>(o: Result<T, E>) -> Result<T, SerdeLiteDecodeError<E>> {
    match o {
        Ok(v) => Ok(v),
        Err(e) => Err(SerdeLiteDecodeError::Decoder(e)),
    }
}

impl<C> SerdeLite<C> where C: Encoder<::serde_lite::Intermediate> {
    /// Whether `r` may come from `encode_converted(converted)`.
    pub open spec fn encodes_converted(
        converted: Result<::serde_lite::Intermediate, ::serde_lite::Error>,
        r: Result<C::Encoded, SerdeLiteEncodeError<C::Error>>,
    ) -> bool {
        match converted {
            Err(e) => r == Err::<C::Encoded, _>(SerdeLiteEncodeError::<C::Error>::SerdeLite(e)),
            Ok(i) => exists|o: Result<C::Encoded, C::Error>| C::encodes(i, o) && r == lift_encode(o),
        }
    }

    /// Finishes encoding once the value has been converted: a failed conversion is reported
    /// as it is, without calling the wrapped encoder; an intermediate value is encoded by it.
    pub fn encode_converted(
        converted: Result<::serde_lite::Intermediate, ::serde_lite::Error>,
    ) -> (r: Result<C::Encoded, SerdeLiteEncodeError<C::Error>>)
        ensures
            Self::encodes_converted(converted, r),
    {
        match converted {
            Err(e) => Err(SerdeLiteEncodeError::SerdeLite(e)),
            Ok(i) => match C::encode(&i) {
                Ok(v) => Ok(v),
                Err(e) => Err(SerdeLiteEncodeError::Encoder(e)),
            },
        }
    }
}

impl<C> SerdeLite<C> where C: Decoder<::serde_lite::Intermediate> {
    /// Whether `r` may come from `decode_intermediate(val)`.
    pub open spec fn decodes_intermediate(
        val: &C::Encoded,
        r: Result<::serde_lite::Intermediate, SerdeLiteDecodeError<C::Error>>,
    ) -> bool {
        exists|o: Result<::serde_lite::Intermediate, C::Error>| C::decodes(val@, o) && r == lift_decode(o)
    }

    /// Decodes `val` with the wrapped decoder into an intermediate value; its error is kept.
    pub fn decode_intermediate(val: &C::Encoded) -> (r: Result<
        ::serde_lite::Intermediate,
        SerdeLiteDecodeError<C::Error>,
    >)
        ensures
            Self::decodes_intermediate(val, r),
    {
        let o = C::decode(val);
        let ghost g = o;
        let r = match o {
            Ok(i) => Ok(i),
            Err(e) => Err(SerdeLiteDecodeError::Decoder(e)),
        };
        assert(r == lift_decode(g));
        r
    }

    /// Finishes decoding once the intermediate value has been converted to the target type.
    pub fn finish_decode<T>(converted: Result<T, ::serde_lite::Error>) -> (r: Result<
        T,
        SerdeLiteDecodeError<C::Error>,
    >)
        ensures
            r == match converted {
                Ok(v) => Ok(v),
                Err(e) => Err(SerdeLiteDecodeError::<C::Error>::SerdeLite(e)),
            },
    {
        match converted {
            Ok(v) => Ok(v),
            Err(e) => Err(SerdeLiteDecodeError::SerdeLite(e)),
        }
    }
}

} // verus!
