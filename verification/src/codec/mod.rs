//! Adaptors from byte streams to frames, and from frames to items.

pub mod length_delimited;

pub use length_delimited::LengthDelimitedCodec;

use vstd::prelude::*;
use bytes::Bytes;

verus! {

/// Generic encoding scheme for turning an item into a frame of bytes.
pub trait FrameEncode<T> {
    /// Error of encoding.
    type Error;

    /// Encodes `data` into a frame.
    fn encode_frame(data: &T) -> Result<Bytes, Self::Error>;
}

/// Generic decoding scheme for turning a frame of bytes into an item.
pub trait FrameDecode<T> {
    /// Error of decoding.
    type Error;

    /// Decodes a frame into an item.
    fn decode_frame(bytes: Bytes) -> Result<T, Self::Error>;
}

} // verus!
