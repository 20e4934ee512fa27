use vstd::prelude::*;

verus! {

/// The error of code that both encodes and decodes: which phase failed, with the codec's own
/// error for that phase, untouched.
#[derive(Debug)]
pub enum CodecError<E, D> {
    Encode(E),
    Decode(D),
}

impl<E, D> CodecError<E, D> {
    /// A description of the failed phase.
    pub fn message(&self) -> (r: &'static str)
        ensures
            self is Encode ==> r == "failed to encode",
            self is Decode ==> r == "failed to decode",
    {
        match self {
            CodecError::Encode(_) => "failed to encode",
            CodecError::Decode(_) => "failed to decode",
        }
    }
}

} // verus!
