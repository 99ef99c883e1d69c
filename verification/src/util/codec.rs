//! Encoding of items into frames of bytes and decoding of frames into items.
//!
//! [EncodeMethod] and [DecodeMethod] are implemented by codecs; the library
//! offers [EmptyCodec], which encodes the empty tuple into a single zero byte.

use vstd::prelude::*;
use bytes::{Bytes, BytesMut};
use crate::util::io_error::{IoErrorKind, io_error_kind, io_error_new};
use crate::util::buf::{buf_bytes, frozen_bytes, buf_len, buf_byte, bytes_from_vec};

verus! {

/// Trait for encoding a given item into bytes.
///
/// Generic parameter `T` is the data that will be encoded.
pub trait EncodeMethod<T> {
    /// Error returned by associated method `encode(_)`.
    type Error;

    /// Encode given data.
    fn encode(data: &T) -> Result<Bytes, Self::Error>;
}

/// Trait for decoding given bytes into an item.
///
/// Generic parameter `T` is the data that will be decoded.
pub trait DecodeMethod<T> {
    /// Error returned by associated method `decode(_)`.
    type Error;

    /// Decode given data.
    fn decode(bytes: BytesMut) -> Result<T, Self::Error>;
}

/// Unit struct that encodes and decodes empty tuple. Used for sending empty payloads.
///
/// `EmptyCodec` only implements traits for empty tuple `()`, and is created mainly for
/// barrier primitives.
#[derive(Debug, Clone, Copy, PartialEq, Eq, PartialOrd, Ord)]
pub struct EmptyCodec;

/// The frame that carries an empty payload: a single zero byte.
pub open spec fn empty_frame() -> Seq<u8> {
    seq![0u8]
}

impl EncodeMethod<()> for EmptyCodec {
    type Error = std::io::Error;

    fn encode(data: &()) -> (r: Result<Bytes, std::io::Error>)
        ensures
            r matches Ok(b) && frozen_bytes(b) == empty_frame(),
    {
        let mut v: Vec<u8> = Vec::new();
        v.push(0u8);
        proof {
            assert(v@ =~= empty_frame());
        }
        Ok(bytes_from_vec(v))
    }
}

impl DecodeMethod<()> for EmptyCodec {
    type Error = std::io::Error;

    fn decode(bytes: BytesMut) -> (r: Result<(), std::io::Error>)
        ensures
            r is Ok <==> buf_bytes(bytes) == empty_frame(),
            r matches Err(e) ==> io_error_kind(e) == IoErrorKind::InvalidData,
    {
        if buf_len(&bytes) == 1 {
            if buf_byte(&bytes, 0) == 0 {
                proof {
                    assert(buf_bytes(bytes) =~= empty_frame());
                }
                Ok(())
            } else {
                Err(io_error_new(IoErrorKind::InvalidData, "[EmptyCodec] Received byte that is not 0u8"))
            }
        } else {
            Err(io_error_new(IoErrorKind::InvalidData, "[EmptyCodec] Received bytes lenngth greater than 1"))
        }
    }
}

} // verus!
