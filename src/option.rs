use crate::traits::{Decoder, Encoder};
use vstd::prelude::*;
use vstd::string::{StringExecFns, StringSliceAdditionalSpecFns};
use vstd::utf8::{
    decode_utf8, encode_scalar, encode_utf8, encode_utf8_first_scalar,
    is_char_boundary, pop_first_scalar,
};

verus! {

/// Lifts a string codec for `T` to a codec for `Option<T>`.
///
/// `None` is written as the empty string. `Some(v)` is written as the marker `~` followed by
/// what the inner codec writes for `v`, so no encoding of a present value is ever the
/// encoding of `None`. Decoding reads the empty string as `None`, hands what follows a leading
/// `~` to the inner codec and wraps its value in `Some`, and refuses any other string.
pub struct OptionCodec<C>(C);

/// Failure of decoding through [`OptionCodec`].
#[derive(Debug)]
pub enum OptionCodecError<E> {
    /// The input is neither empty nor starts with the marker of a present value.
    Unmarked,
    /// The inner decoder failed; its error is kept as it is.
    Inner(E),
}

/// Whether `s` is the encoding of `None`.
pub open spec fn is_absent(s: Seq<char>) -> bool {
    s.len() == 0
}

/// The encoding of a present value whose inner encoding is `s`.
pub open spec fn marked(s: Seq<char>) -> Seq<char> {
    seq!['~'] + s
}

/// Wraps the success of the inner decoder in `Some`, and its error in `Inner`.
pub open spec fn wrap_inner<T, E>(r: Result<T, E>) -> Result<Option<T>, OptionCodecError<E>> {
    match r {
        Ok(v) => Ok(Some(v)),
        Err(e) => Err(OptionCodecError::Inner(e)),
    }
}

/// Whether `out` is the adapter's outcome for the inner encoder's outcome `o`: a string gets
/// the marker in front, an error is kept as it is.
pub open spec fn marks<E>(o: Result<String, E>, out: Result<String, E>) -> bool {
    match (o, out) {
        (Ok(s), Ok(t)) => t@ == marked(s@),
        (Err(e), Err(f)) => e == f,
        _ => false,
    }
}

/// On the bytes of a string: it starts with the marker exactly when its first byte is the
/// marker's byte and a character ends after it; then the rest is the string without it.
proof fn lemma_marker_bytes(s: &str)
    ensures
        s.spec_bytes().len() == 0 <==> s@.len() == 0,
        (s@.len() > 0 && s@[0] == '~') <==> (s.spec_bytes().len() > 0 && s.spec_bytes()[0] == 126u8
            && is_char_boundary(s.spec_bytes(), 1)),
        s@.len() > 0 && s@[0] == '~' ==> decode_utf8(
            s.spec_bytes().subrange(1, s.spec_bytes().len() as int),
        ) == s@.drop_first(),
{
    broadcast use vstd::utf8::group_utf8_lib;

    let cs = s@;
    let b = s.spec_bytes();
    assert(b == encode_utf8(cs));
    if cs.len() > 0 {
        let c = cs[0] as u32;
        assert(b == encode_scalar(c) + encode_utf8(cs.drop_first()));
        encode_utf8_first_scalar(cs);
        if cs[0] == '~' {
            assert(c == 126);
            assert((126u32 & 0x7F) as u8 == 126u8) by (bit_vector);
            assert(encode_scalar(c) =~= seq![126u8]);
            assert(b[0] == 126u8);
            assert(b.subrange(1, b.len() as int) =~= encode_utf8(cs.drop_first()));
            assert(is_char_boundary(pop_first_scalar(b), 0));
            assert(is_char_boundary(b, 1));
        } else if b[0] == 126u8 {
            assert((126u8 & 0x7F) as u32 == 126u32) by (bit_vector);
            assert(c == 126u32);
            vstd::utf8::char_u32_cast(cs[0], c);
            vstd::utf8::char_u32_cast('~', 126u32);
            assert(false);
        }
    } else {
        assert(b =~= Seq::<u8>::empty());
    }
}

impl<T, C> Encoder<Option<T>> for OptionCodec<C> where C: Encoder<T, Encoded = String> {
    type Error = C::Error;
    type Encoded = String;

    open spec fn encodes(val: Option<T>, out: Result<String, C::Error>) -> bool {
        match val {
            None => match out {
                Ok(s) => is_absent(s@),
                Err(_) => false,
            },
            Some(v) => exists|o: Result<String, C::Error>| C::encodes(v, o) && marks(o, out),
        }
    }

    fn encode(val: &Option<T>) -> (out: Result<String, C::Error>) {
        match val {
            None => Ok(String::new()),
            Some(v) => {
                let o = C::encode(v);
                let ghost g = o;
                let out = match o {
                    Ok(s) => {
                        proof {
                            reveal_strlit("~");
                        }
                        let marker = String::from_str("~");
                        assert(marker@ =~= seq!['~']);
                        let t = marker.concat(s.as_str());
                        assert(t@ =~= marked(s@));
                        Ok(t)
                    },
                    Err(e) => Err(e),
                };
                assert(marks(g, out));
                out
            },
        }
    }
}

impl<T, C> Decoder<Option<T>> for OptionCodec<C> where C: Decoder<T, Encoded = str> {
    type Error = OptionCodecError<C::Error>;
    type Encoded = str;

    open spec fn decodes(val: Seq<char>, out: Result<Option<T>, OptionCodecError<C::Error>>) -> bool {
        if is_absent(val) {
            out == Ok::<Option<T>, OptionCodecError<C::Error>>(None)
        } else if val[0] == '~' {
            exists|o: Result<T, C::Error>| C::decodes(val.drop_first(), o) && out == wrap_inner(o)
        } else {
            out == Err::<Option<T>, _>(OptionCodecError::<C::Error>::Unmarked)
        }
    }

    fn decode(val: &str) -> (out: Result<Option<T>, OptionCodecError<C::Error>>) {
        proof {
            lemma_marker_bytes(val);
        }
        let b = val.as_bytes();
        if b.len() == 0 {
            Ok(None)
        } else if b[0] == 126u8 && val.is_char_boundary(1) {
            let (_, rest) = val.split_at(1);
            proof {
                broadcast use vstd::utf8::group_utf8_lib;

                assert(rest.spec_bytes() == encode_utf8(rest@));
                assert(rest@ == val@.drop_first());
            }
            let o = C::decode(rest);
            let ghost g = o;
            let out = match o {
                Ok(v) => Ok(Some(v)),
                Err(e) => Err(OptionCodecError::Inner(e)),
            };
            assert(out == wrap_inner(g));
            out
        } else {
            Err(OptionCodecError::Unmarked)
        }
    }
}

} // verus!
