use vstd::prelude::*;

verus! {

/// Trait every encoder must implement.
///
/// A codec is a stateless marker type. `encodes(v, out)` states which outcomes `encode`
/// may produce for the value `v`; each implementation says what it promises there.
pub trait Encoder<T>: 'static {
    type Error;
    type Encoded;

    /// Whether `out` is an outcome that encoding `val` may produce. An encoder that states
    /// nothing keeps this default, which admits every outcome.
    open spec fn encodes(val: T, out: Result<Self::Encoded, Self::Error>) -> bool {
        true
    }

    fn encode(val: &T) -> (out: Result<Self::Encoded, Self::Error>)
        ensures
            Self::encodes(*val, out),
    ;
}

/// Trait every decoder must implement.
///
/// `Encoded` may be a borrowed view such as `str` or `[u8]`, so that decoding never needs an
/// owned copy of the input. What a decoder promises depends on the contents of its input.
pub trait Decoder<T>: 'static {
    type Error;
    type Encoded: ?Sized + View;

    /// Whether `out` is an outcome that decoding an input with the contents `val` may produce.
    /// A decoder that states nothing keeps this default, which admits every outcome.
    open spec fn decodes(val: <Self::Encoded as View>::V, out: Result<T, Self::Error>) -> bool {
        true
    }

    fn decode(val: &Self::Encoded) -> (out: Result<T, Self::Error>)
        ensures
            Self::decodes(val@, out),
    ;
}

} // verus!
