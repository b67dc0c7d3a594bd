//! A codec for the Modbus protocol in its TCP and RTU framings.
//!
//! The crate models requests and responses as closed sum types, builds them
//! with a [`Frame`] that keeps the transaction identifiers, and turns them
//! into and out of the bytes that travel on the wire.

pub mod codec;
pub mod frame;
pub mod util;

pub use codec::{RtuClientCodec, RtuServerCodec, TcpClientCodec, TcpServerCodec};
pub use frame::Frame;
pub use util::crc;
