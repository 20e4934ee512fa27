use crate::traits::{Decoder, Encoder};
use vstd::prelude::*;

verus! {

/// Reported by `decode_str` on a binary codec.
pub const DECODE_FROM_STR: &'static str = "You're trying to decode from a string. This codec is binary.";

/// Reported by `decode_bin` on a string codec.
pub const DECODE_FROM_BYTES: &'static str =
    "You're trying to decode from a byte slice. This codec is a string codec.";

/// Reported by `encode_str` on a binary codec.
pub const ENCODE_INTO_STR: &'static str = "You're trying to encode into a string. This codec is binary.";

/// Reported by `encode_bin` on a string codec.
pub const ENCODE_INTO_BYTES: &'static str =
    "You're trying to encode into a byte vec. This codec is a string codec.";

/// Failure of a hybrid operation: the operation does not fit the codec's kind, or the codec
/// itself failed.
#[derive(Debug)]
pub enum HybridCoderError<E> {
    NotImplemented(&'static str),
    Coder(E),
}

impl<E> From<E> for HybridCoderError<E> {
    /// A codec's own error, carried unchanged.
    fn from(e: E) -> (r: Self) {
        HybridCoderError::Coder(e)
    }
}

impl<E> vstd::std_specs::convert::FromSpecImpl<E> for HybridCoderError<E> {
    open spec fn obeys_from_spec() -> bool {
        true
    }

    open spec fn from_spec(e: E) -> Self {
        HybridCoderError::Coder(e)
    }
}

/// Lifts a codec's own outcome into a hybrid outcome, keeping the codec's error as it is.
pub open spec fn lift<T, E>(r: Result<T, E>) -> Result<T, HybridCoderError<E>> {
    match r {
        Ok(v) => Ok(v),
        Err(e) => Err(HybridCoderError::Coder(e)),
    }
}

/// Whether `r` is the failure of an operation that does not fit the codec's kind.
pub open spec fn is_not_implemented<T, E>(r: Result<T, HybridCoderError<E>>) -> bool {
    match r {
        Err(HybridCoderError::NotImplemented(_)) => true,
        _ => false,
    }
}

fn lift_result<T, E>(r: Result<T, E>) -> (h: Result<T, HybridCoderError<E>>)
    ensures
        h == lift(r),
{
    match r {
        Ok(v) => Ok(v),
        Err(e) => Err(HybridCoderError::Coder(e)),
    }
}

/// Decoding from either a string or a byte slice, for any decoder. `E` is the decoder's
/// encoded form, which selects the implementation.
pub trait HybridDecoder<T, E: ?Sized> {
    type Error;

    /// Whether the decoder reads bytes (else it reads strings).
    spec fn binary() -> bool;

    /// Whether `r` may come from `decode_str(val)`.
    spec fn decodes_str(val: &str, r: Result<T, HybridCoderError<Self::Error>>) -> bool;

    /// Whether `r` may come from `decode_bin(val)`.
    spec fn decodes_bin(val: &[u8], r: Result<T, HybridCoderError<Self::Error>>) -> bool;

    fn is_binary_decoder() -> (b: bool)
        ensures
            b == Self::binary(),
    ;

    fn decode_str(val: &str) -> (r: Result<T, HybridCoderError<Self::Error>>)
        ensures
            Self::decodes_str(val, r),
            Self::binary() ==> r == Err::<T, _>(HybridCoderError::<Self::Error>::NotImplemented(DECODE_FROM_STR)),
    ;

    fn decode_bin(val: &[u8]) -> (r: Result<T, HybridCoderError<Self::Error>>)
        ensures
            Self::decodes_bin(val, r),
            !Self::binary() ==> r == Err::<T, _>(HybridCoderError::<Self::Error>::NotImplemented(DECODE_FROM_BYTES)),
    ;
}

impl<T, D> HybridDecoder<T, [u8]> for D where D: Decoder<T, Encoded = [u8]> {
    type Error = D::Error;

    open spec fn binary() -> bool {
        true
    }

    open spec fn decodes_str(val: &str, r: Result<T, HybridCoderError<D::Error>>) -> bool {
        r == Err::<T, _>(HybridCoderError::<D::Error>::NotImplemented(DECODE_FROM_STR))
    }

    open spec fn decodes_bin(val: &[u8], r: Result<T, HybridCoderError<D::Error>>) -> bool {
        exists|o: Result<T, D::Error>| D::decodes(val@, o) && r == lift(o)
    }

    fn is_binary_decoder() -> (b: bool) {
        true
    }

    fn decode_str(_val: &str) -> (r: Result<T, HybridCoderError<D::Error>>) {
        Err(HybridCoderError::NotImplemented(DECODE_FROM_STR))
    }

    fn decode_bin(val: &[u8]) -> (r: Result<T, HybridCoderError<D::Error>>) {
        let o = D::decode(val);
        lift_result(o)
    }
}

impl<T, D> HybridDecoder<T, str> for D where D: Decoder<T, Encoded = str> {
    type Error = D::Error;

    open spec fn binary() -> bool {
        false
    }

    open spec fn decodes_str(val: &str, r: Result<T, HybridCoderError<D::Error>>) -> bool {
        exists|o: Result<T, D::Error>| D::decodes(val@, o) && r == lift(o)
    }

    open spec fn decodes_bin(val: &[u8], r: Result<T, HybridCoderError<D::Error>>) -> bool {
        r == Err::<T, _>(HybridCoderError::<D::Error>::NotImplemented(DECODE_FROM_BYTES))
    }

    fn is_binary_decoder() -> (b: bool) {
        false
    }

    fn decode_str(val: &str) -> (r: Result<T, HybridCoderError<D::Error>>) {
        let o = D::decode(val);
        lift_result(o)
    }

    fn decode_bin(_val: &[u8]) -> (r: Result<T, HybridCoderError<D::Error>>) {
        Err(HybridCoderError::NotImplemented(DECODE_FROM_BYTES))
    }
}

/// Encoding into either a string or a byte vector, for any encoder. `E` is the encoder's
/// encoded form, which selects the implementation.
pub trait HybridEncoder<T, E> {
    type Error;

    /// Whether the encoder writes bytes (else it writes strings).
    spec fn binary() -> bool;

    /// Whether `r` may come from `encode_str(val)`.
    spec fn encodes_str(val: T, r: Result<String, HybridCoderError<Self::Error>>) -> bool;

    /// Whether `r` may come from `encode_bin(val)`.
    spec fn encodes_bin(val: T, r: Result<Vec<u8>, HybridCoderError<Self::Error>>) -> bool;

    fn is_binary_encoder() -> (b: bool)
        ensures
            b == Self::binary(),
    ;

    fn encode_str(val: &T) -> (r: Result<String, HybridCoderError<Self::Error>>)
        ensures
            Self::encodes_str(*val, r),
            Self::binary() ==> r == Err::<String, _>(HybridCoderError::<Self::Error>::NotImplemented(ENCODE_INTO_STR)),
    ;

    fn encode_bin(val: &T) -> (r: Result<Vec<u8>, HybridCoderError<Self::Error>>)
        ensures
            Self::encodes_bin(*val, r),
            !Self::binary() ==> r == Err::<Vec<u8>, _>(HybridCoderError::<Self::Error>::NotImplemented(ENCODE_INTO_BYTES)),
    ;
}

impl<T, C> HybridEncoder<T, Vec<u8>> for C where C: Encoder<T, Encoded = Vec<u8>> {
    type Error = C::Error;

    open spec fn binary() -> bool {
        true
    }

    open spec fn encodes_str(val: T, r: Result<String, HybridCoderError<C::Error>>) -> bool {
        r == Err::<String, _>(HybridCoderError::<C::Error>::NotImplemented(ENCODE_INTO_STR))
    }

    open spec fn encodes_bin(val: T, r: Result<Vec<u8>, HybridCoderError<C::Error>>) -> bool {
        exists|o: Result<Vec<u8>, C::Error>| C::encodes(val, o) && r == lift(o)
    }

    fn is_binary_encoder() -> (b: bool) {
        true
    }

    fn encode_str(_val: &T) -> (r: Result<String, HybridCoderError<C::Error>>) {
        Err(HybridCoderError::NotImplemented(ENCODE_INTO_STR))
    }

    fn encode_bin(val: &T) -> (r: Result<Vec<u8>, HybridCoderError<C::Error>>) {
        let o = C::encode(val);
        lift_result(o)
    }
}

impl<T, C> HybridEncoder<T, String> for C where C: Encoder<T, Encoded = String> {
    type Error = C::Error;

    open spec fn binary() -> bool {
        false
    }

    open spec fn encodes_str(val: T, r: Result<String, HybridCoderError<C::Error>>) -> bool {
        exists|o: Result<String, C::Error>| C::encodes(val, o) && r == lift(o)
    }

    open spec fn encodes_bin(val: T, r: Result<Vec<u8>, HybridCoderError<C::Error>>) -> bool {
        r == Err::<Vec<u8>, _>(HybridCoderError::<C::Error>::NotImplemented(ENCODE_INTO_BYTES))
    }

    fn is_binary_encoder() -> (b: bool) {
        false
    }

    fn encode_str(val: &T) -> (r: Result<String, HybridCoderError<C::Error>>) {
        let o = C::encode(val);
        lift_result(o)
    }

    fn encode_bin(_val: &T) -> (r: Result<Vec<u8>, HybridCoderError<C::Error>>) {
        Err(HybridCoderError::NotImplemented(ENCODE_INTO_BYTES))
    }
}

} // verus!
