//! Encoding: from a frame to the bytes of the wire.

use super::{CodecError, RtuClientCodec, RtuServerCodec, TcpClientCodec, TcpServerCodec};
use crate::frame::request::{request_to_bytesmut, Request};
use crate::frame::response::{response_to_bytesmut, Response};
use crate::util::buffer::{bytes_of, has_room};
use bytes::BytesMut;
use vstd::prelude::*;

verus! {

impl RtuClientCodec {
    /// Appends the bytes of `item` to `dst`, framed as the head of `item`
    /// says. It never fails.
    pub fn encode(&mut self, item: Request, dst: &mut BytesMut) -> (done: Result<(), CodecError>)
        requires
            has_room(bytes_of(*old(dst)), item@.wire().len()),
        ensures
            done is Ok,
            bytes_of(*final(dst)) == bytes_of(*old(dst)) + item@.wire(),
    {
        request_to_bytesmut(item, dst);
        Ok(())
    }
}

impl RtuServerCodec {
    /// Appends the bytes of `item` to `dst`, framed as the head of `item`
    /// says. It never fails.
    pub fn encode(&mut self, item: Response, dst: &mut BytesMut) -> (done: Result<(), CodecError>)
        requires
            has_room(bytes_of(*old(dst)), item@.wire().len()),
        ensures
            done is Ok,
            bytes_of(*final(dst)) == bytes_of(*old(dst)) + item@.wire(),
    {
        response_to_bytesmut(item, dst);
        Ok(())
    }
}

impl TcpClientCodec {
    /// Appends the bytes of `item` to `dst`, framed as the head of `item`
    /// says. It never fails.
    pub fn encode(&mut self, item: Request, dst: &mut BytesMut) -> (done: Result<(), CodecError>)
        requires
            has_room(bytes_of(*old(dst)), item@.wire().len()),
        ensures
            done is Ok,
            bytes_of(*final(dst)) == bytes_of(*old(dst)) + item@.wire(),
    {
        request_to_bytesmut(item, dst);
        Ok(())
    }
}

impl TcpServerCodec {
    /// Appends the bytes of `item` to `dst`, framed as the head of `item`
    /// says. It never fails.
    pub fn encode(&mut self, item: Response, dst: &mut BytesMut) -> (done: Result<(), CodecError>)
        requires
            has_room(bytes_of(*old(dst)), item@.wire().len()),
        ensures
            done is Ok,
            bytes_of(*final(dst)) == bytes_of(*old(dst)) + item@.wire(),
    {
        response_to_bytesmut(item, dst);
        Ok(())
    }
}

} // verus!
