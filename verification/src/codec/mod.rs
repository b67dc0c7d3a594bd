//! The four codecs: a client and a server for each of the two framings.
//!
//! A client encodes requests and decodes responses; a server decodes
//! requests and encodes responses. The codecs hold no state. A decoder
//! takes at most one frame from the front of a buffer and says how the
//! buffer is left; an encoder appends one frame to a buffer.

use vstd::prelude::*;

pub mod decoder;
pub mod encoder;
pub mod laws;

verus! {

/// The codec of a client that speaks TCP framing.
#[derive(Debug, Default)]
pub struct TcpClientCodec;

/// The codec of a server that speaks TCP framing.
#[derive(Debug, Default)]
pub struct TcpServerCodec;

/// The codec of a client that speaks RTU framing.
#[derive(Debug, Default)]
pub struct RtuClientCodec;

/// The codec of a server that speaks RTU framing.
#[derive(Debug, Default)]
pub struct RtuServerCodec;

/// Why bytes gave no frame.
#[derive(Clone, Copy, Debug, PartialEq, Eq, Structural)]
pub enum CodecError {
    /// More bytes are needed before anything can be said. A decoder of a
    /// buffer reports this as `Ok(None)`, never as an error.
    IncompleteFrame,
    /// The function byte, with the exception bit cleared, stands for no
    /// function. Holds the code that was looked up: the byte itself up to
    /// `0x80`, and `0x80` less above.
    InvalidFunctionCode(u8),
    /// The CRC16 received with an RTU frame is not that of its bytes. Holds
    /// the CRC received.
    InvalidChecksum(u16),
    /// The byte in the body of an exception response stands for no
    /// exception. Holds the byte.
    UnrecognizedExceptionCode(u8),
    /// The number of body bytes that a frame announces is not what the
    /// layout of its function takes.
    InvalidLength,
}

/// What a decoder makes of the bytes at the front of a buffer.
pub enum Decoded<T> {
    /// The bytes are the beginning of a frame that has not arrived whole.
    /// Nothing is taken from the buffer.
    Incomplete,
    /// The first `consumed` bytes are a frame.
    Frame { frame: T, consumed: nat },
    /// The bytes are no frame. The first `consumed` bytes are taken from the
    /// buffer.
    Rejected { error: CodecError, consumed: nat },
}

impl<T> Decoded<T> {
    /// The number of bytes taken from the front of the buffer.
    pub open spec fn consumed(self) -> nat {
        match self {
            Decoded::Incomplete => 0,
            Decoded::Frame { consumed, .. } => consumed,
            Decoded::Rejected { consumed, .. } => consumed,
        }
    }
}

} // verus!
