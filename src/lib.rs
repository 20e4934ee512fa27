//! Encoding typed values into strings or bytes and decoding them back, behind one pair of
//! traits, so that code can stay generic over the serialization library that does the work.
//!
//! - [`Encoder`] and [`Decoder`] are the contracts every codec implements.
//! - [`CodecError`] lets code that uses both directions report which one failed.
//! - [`HybridEncoder`] and [`HybridDecoder`] tell binary codecs from string codecs and
//!   dispatch to the matching operation, failing with a typed error on the other one.
//! - [`OptionCodec`] lifts a string codec for `T` to one for `Option<T>`.
//! - [`SerdeLite`] composes a codec for an intermediate value with a conversion step.

mod error;
mod hybrid;
pub mod laws;
mod lite;
mod option;
mod traits;

pub use error::CodecError;
pub use hybrid::{
    HybridCoderError, HybridDecoder, HybridEncoder, DECODE_FROM_BYTES, DECODE_FROM_STR,
    ENCODE_INTO_BYTES, ENCODE_INTO_STR,
};
pub use option::{OptionCodec, OptionCodecError};
pub use lite::{SerdeLite, SerdeLiteDecodeError, SerdeLiteEncodeError};
pub use traits::{Decoder, Encoder};
