//! Properties that hold of every codec and adapter of this crate, proved over their contracts.

use crate::hybrid::{
    is_not_implemented, lift, HybridCoderError, HybridDecoder, HybridEncoder, DECODE_FROM_BYTES, DECODE_FROM_STR,
    ENCODE_INTO_BYTES, ENCODE_INTO_STR,
};
use crate::lite::{lift_decode, lift_encode, SerdeLite, SerdeLiteDecodeError, SerdeLiteEncodeError};
use crate::option::{is_absent, marked, marks, wrap_inner, OptionCodec, OptionCodecError};
use crate::traits::{Decoder, Encoder};
use vstd::prelude::*;

verus! {

/// A decoder of bytes is binary: `decode_bin` has exactly the outcomes of `decode`, with the
/// decoder's error carried unchanged, and `decode_str` always fails as not implemented.
pub proof fn binary_decoder_dispatch<T, D>(val: &[u8], text: &str, o: Result<T, D::Error>, r: Result<T, HybridCoderError<D::Error>>)
    where
        D: Decoder<T, Encoded = [u8]>,
    ensures
        <D as HybridDecoder<T, [u8]>>::binary(),
        <D as HybridDecoder<T, [u8]>>::decodes_bin(val, lift(o)) <==> D::decodes(val@, o),
        <D as HybridDecoder<T, [u8]>>::decodes_bin(val, r) ==> !is_not_implemented(r),
        <D as HybridDecoder<T, [u8]>>::decodes_str(text, r) <==> r == Err::<T, _>(HybridCoderError::<D::Error>::NotImplemented(DECODE_FROM_STR)),
{
}

/// A decoder of strings is not binary: `decode_str` has exactly the outcomes of `decode`,
/// with the decoder's error carried unchanged, and `decode_bin` always fails as not
/// implemented.
pub proof fn string_decoder_dispatch<T, D>(text: &str, val: &[u8], o: Result<T, D::Error>, r: Result<T, HybridCoderError<D::Error>>)
    where
        D: Decoder<T, Encoded = str>,
    ensures
        !<D as HybridDecoder<T, str>>::binary(),
        <D as HybridDecoder<T, str>>::decodes_str(text, lift(o)) <==> D::decodes(text@, o),
        <D as HybridDecoder<T, str>>::decodes_str(text, r) ==> !is_not_implemented(r),
        <D as HybridDecoder<T, str>>::decodes_bin(val, r) <==> r == Err::<T, _>(HybridCoderError::<D::Error>::NotImplemented(DECODE_FROM_BYTES)),
{
}

/// An encoder into bytes is binary: `encode_bin` has exactly the outcomes of `encode`, with
/// the encoder's error carried unchanged, and `encode_str` always fails as not implemented.
pub proof fn binary_encoder_dispatch<T, C>(
    val: T,
    o: Result<Vec<u8>, C::Error>,
    rb: Result<Vec<u8>, HybridCoderError<C::Error>>,
    rs: Result<String, HybridCoderError<C::Error>>,
)
    where
        C: Encoder<T, Encoded = Vec<u8>>,
    ensures
        <C as HybridEncoder<T, Vec<u8>>>::binary(),
        <C as HybridEncoder<T, Vec<u8>>>::encodes_bin(val, lift(o)) <==> C::encodes(val, o),
        <C as HybridEncoder<T, Vec<u8>>>::encodes_bin(val, rb) ==> !is_not_implemented(rb),
        <C as HybridEncoder<T, Vec<u8>>>::encodes_str(val, rs) <==> rs == Err::<String, _>(HybridCoderError::<C::Error>::NotImplemented(ENCODE_INTO_STR)),
{
}

/// An encoder into strings is not binary: `encode_str` has exactly the outcomes of `encode`,
/// with the encoder's error carried unchanged, and `encode_bin` always fails as not
/// implemented.
pub proof fn string_encoder_dispatch<T, C>(
    val: T,
    o: Result<String, C::Error>,
    rs: Result<String, HybridCoderError<C::Error>>,
    rb: Result<Vec<u8>, HybridCoderError<C::Error>>,
)
    where
        C: Encoder<T, Encoded = String>,
    ensures
        !<C as HybridEncoder<T, String>>::binary(),
        <C as HybridEncoder<T, String>>::encodes_str(val, lift(o)) <==> C::encodes(val, o),
        <C as HybridEncoder<T, String>>::encodes_str(val, rs) ==> !is_not_implemented(rs),
        <C as HybridEncoder<T, String>>::encodes_bin(val, rb) <==> rb == Err::<Vec<u8>, _>(HybridCoderError::<C::Error>::NotImplemented(ENCODE_INTO_BYTES)),
{
}


/// The optional-value adapter writes `None` as the empty string and nothing else; it writes
/// `Some(v)` as the marker followed by the inner encoding of `v`, or fails with the inner
/// encoder's error unchanged, and never as the encoding of `None`.
pub proof fn option_encode_pass_through<T, C>(v: T, s: String, t: String, e: C::Error)
    where
        C: Encoder<T, Encoded = String>,
    ensures
        OptionCodec::<C>::encodes(None, Ok(t)) <==> is_absent(t@),
        !OptionCodec::<C>::encodes(None, Err(e)),
        C::encodes(v, Ok(s)) && t@ == marked(s@) ==> OptionCodec::<C>::encodes(Some(v), Ok(t)),
        OptionCodec::<C>::encodes(Some(v), Err(e)) <==> C::encodes(v, Err(e)),
        OptionCodec::<C>::encodes(Some(v), Ok(t)) ==> !is_absent(t@) && t@[0] == '~',
{
    if C::encodes(v, Err(e)) {
        assert(marks(Err::<String, C::Error>(e), Err::<String, C::Error>(e)));
    }
    if C::encodes(v, Ok(s)) && t@ == marked(s@) {
        assert(marks(Ok::<String, C::Error>(s), Ok::<String, C::Error>(t)));
    }
}

/// The optional-value adapter reads the empty string as `None` alone; it reads the marker
/// followed by `s` with exactly the outcomes of the inner decoder on `s`, a value wrapped in
/// `Some` and an error in `Inner` unchanged, and never as `None`; it refuses any other string.
pub proof fn option_decode_pass_through<T, C>(
    text: Seq<char>,
    s: Seq<char>,
    out: Result<Option<T>, OptionCodecError<C::Error>>,
    o: Result<T, C::Error>,
)
    where
        C: Decoder<T, Encoded = str>,
    ensures
        is_absent(text) ==> (OptionCodec::<C>::decodes(text, out) <==> out == Ok::<Option<T>, OptionCodecError<C::Error>>(None)),
        OptionCodec::<C>::decodes(marked(s), wrap_inner(o)) <==> C::decodes(s, o),
        !OptionCodec::<C>::decodes(marked(s), Ok::<Option<T>, OptionCodecError<C::Error>>(None)),
        !is_absent(text) && text[0] != '~' ==> (OptionCodec::<C>::decodes(text, out) <==> out == Err::<Option<T>, _>(OptionCodecError::<C::Error>::Unmarked)),
{
    assert(marked(s).drop_first() =~= s);
    if OptionCodec::<C>::decodes(marked(s), wrap_inner(o)) {
        let o2 = choose|o2: Result<T, C::Error>| C::decodes(s, o2) && wrap_inner(o) == wrap_inner(o2);
        assert(o == o2);
    }
}

/// Round trip through the optional-value adapter. Whatever string `None` is encoded as
/// decodes to `None` alone. When the inner codec writes `v` as `s`, the adapter's encoding of
/// `Some(v)` decodes with exactly the inner decoder's outcomes on `s`, wrapped; in particular,
/// when the inner codec reads `s` back only as `v`, it comes back only as `Some(v)`.
pub proof fn option_round_trip<T, C>(
    v: T,
    s: String,
    t: String,
    out: Result<Option<T>, OptionCodecError<<C as Decoder<T>>::Error>>,
    o: Result<T, <C as Decoder<T>>::Error>,
)
    where
        C: Encoder<T, Encoded = String> + Decoder<T, Encoded = str>,
    ensures
        OptionCodec::<C>::encodes(None, Ok(t)) ==> (OptionCodec::<C>::decodes(t@, out) <==> out == Ok::<Option<T>, OptionCodecError<<C as Decoder<T>>::Error>>(None)),
        C::encodes(v, Ok(s)) && OptionCodec::<C>::encodes(Some(v), Ok(t)) && t@ == marked(s@)
            ==> (OptionCodec::<C>::decodes(t@, wrap_inner(o)) <==> C::decodes(s@, o)),
        C::encodes(v, Ok(s)) && t@ == marked(s@) && (forall|o2: Result<T, <C as Decoder<T>>::Error>| C::decodes(s@, o2) ==> o2 == Ok::<T, <C as Decoder<T>>::Error>(v))
            ==> (OptionCodec::<C>::decodes(t@, out) ==> out == Ok::<Option<T>, OptionCodecError<<C as Decoder<T>>::Error>>(Some(v))),
{
    option_decode_pass_through::<T, C>(t@, s@, out, o);
    assert(marked(s@).drop_first() =~= s@);
}

/// Encoding through the intermediate adapter: a failed conversion is reported as it is,
/// and a failure of the wrapped encoder comes out as `Encoder` holding that very error.
pub proof fn serde_lite_encode_transparency<C>(
    i: ::serde_lite::Intermediate,
    ce: ::serde_lite::Error,
    e: C::Error,
    r: Result<C::Encoded, SerdeLiteEncodeError<C::Error>>,
)
    where
        C: Encoder<::serde_lite::Intermediate>,
    ensures
        SerdeLite::<C>::encodes_converted(Err(ce), r) <==> r == Err::<C::Encoded, _>(SerdeLiteEncodeError::<C::Error>::SerdeLite(ce)),
        SerdeLite::<C>::encodes_converted(Ok(i), Err(SerdeLiteEncodeError::Encoder(e))) <==> C::encodes(i, Err(e)),
        SerdeLite::<C>::encodes_converted(Ok(i), r) ==> r !is Err || r->Err_0 is Encoder,
{
    if SerdeLite::<C>::encodes_converted(Ok(i), Err(SerdeLiteEncodeError::Encoder(e))) {
        let o = choose|o: Result<C::Encoded, C::Error>| C::encodes(i, o) && Err::<C::Encoded, _>(SerdeLiteEncodeError::<C::Error>::Encoder(e)) == lift_encode(o);
        assert(o == Err::<C::Encoded, C::Error>(e));
    }
}

/// Decoding through the intermediate adapter: a failure of the wrapped decoder comes out as
/// `Decoder` holding that very error, and never as a conversion failure.
pub proof fn serde_lite_decode_transparency<C>(
    val: &C::Encoded,
    e: C::Error,
    r: Result<::serde_lite::Intermediate, SerdeLiteDecodeError<C::Error>>,
)
    where
        C: Decoder<::serde_lite::Intermediate>,
    ensures
        SerdeLite::<C>::decodes_intermediate(val, Err(SerdeLiteDecodeError::Decoder(e))) <==> C::decodes(val@, Err(e)),
        SerdeLite::<C>::decodes_intermediate(val, r) ==> r !is Err || r->Err_0 is Decoder,
{
    assert(lift_decode(Err::<::serde_lite::Intermediate, C::Error>(e)) == Err::<::serde_lite::Intermediate, _>(SerdeLiteDecodeError::<C::Error>::Decoder(e)));
    if SerdeLite::<C>::decodes_intermediate(val, Err(SerdeLiteDecodeError::Decoder(e))) {
        let o = choose|o: Result<::serde_lite::Intermediate, C::Error>| C::decodes(val@, o) && Err::<::serde_lite::Intermediate, _>(SerdeLiteDecodeError::<C::Error>::Decoder(e)) == lift_decode(o);
        assert(o == Err::<::serde_lite::Intermediate, C::Error>(e));
    }
}

} // verus!
