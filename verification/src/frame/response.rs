//! Responses and their bodies.

use super::{seal, Exception, Function, Head, Length, Version};
use crate::util::buffer::{bytes_of, has_room, peek, put_slice, put_u16, put_u8};
use crate::util::crc;
use crate::util::word::word;
use bytes::BytesMut;
use vstd::prelude::*;

verus! {

/// A Modbus response: a head and the body of its function, or the
/// exception that the server reports.
#[derive(Clone, Debug, PartialEq, Eq, PartialOrd, Ord, Hash)]
pub enum Response {
    ReadCoils(Head, ReadCoilsResponse),
    ReadDiscreteInputs(Head, ReadDiscreteInputsResponse),
    ReadMultipleHoldingRegisters(Head, ReadMultipleHoldingRegistersResponse),
    ReadInputRegisters(Head, ReadInputRegistersResponse),
    WriteSingleCoil(Head, WriteSingleCoilResponse),
    WriteSingleHoldingRegister(Head, WriteSingleHoldingRegisterResponse),
    WriteMultipleCoils(Head, WriteMultipleCoilsResponse),
    WriteMultipleHoldingRegisters(Head, WriteMultipleHoldingRegistersResponse),
    Exception(Head, ExceptionResponse),
}

/// The body of a response to function `0x01`.
#[derive(Clone, Debug, PartialEq, Eq, PartialOrd, Ord, Hash)]
pub struct ReadCoilsResponse {
    /// Number of bytes of coil values that follow.
    pub bytes_number: u8,
    /// Coil values, eight coils to a byte, the first coil in the least
    /// significant bit of the first byte.
    pub values: Vec<u8>,
}

/// What a [`ReadCoilsResponse`] holds.
pub struct ReadCoilsResponseView {
    pub bytes_number: u8,
    pub values: Seq<u8>,
}

impl View for ReadCoilsResponse {
    type V = ReadCoilsResponseView;

    open spec fn view(&self) -> ReadCoilsResponseView {
        ReadCoilsResponseView { bytes_number: self.bytes_number, values: self.values@ }
    }
}

impl ReadCoilsResponseView {
    /// The byte count is the number of value bytes.
    pub open spec fn wf(self) -> bool {
        self.bytes_number == self.values.len()
    }

    /// The bytes of the body on the wire.
    pub open spec fn wire(self) -> Seq<u8> {
        seq![self.bytes_number] + self.values
    }
}

impl Length for ReadCoilsResponse {
    open spec fn encoded_len(&self) -> nat {
        self@.wire().len()
    }

    fn len(&self) -> (n: u16) {
        (1 + self.values.len()) as u16
    }
}

impl ReadCoilsResponse {
    /// Makes the body. The byte count is taken from `values`, which it
    /// counts in one byte.
    pub fn new(values: Vec<u8>) -> (body: ReadCoilsResponse)
        requires
            values@.len() <= u8::MAX,
        ensures
            body.bytes_number == values@.len(),
            body.values == values,
            body@.wf(),
    {
        ReadCoilsResponse { bytes_number: values.len() as u8, values }
    }

    /// Appends the bytes of the body to `dst`.
    pub fn write_to(&self, dst: &mut BytesMut)
        requires
            has_room(bytes_of(*old(dst)), 1 + self.values@.len()),
        ensures
            bytes_of(*final(dst)) == bytes_of(*old(dst)) + self@.wire(),
    {
        put_u8(dst, self.bytes_number);
        put_slice(dst, self.values.as_slice());
        assert(bytes_of(*dst) =~= bytes_of(*old(dst)) + self@.wire());
    }
}

/// The body of a response to function `0x02`.
#[derive(Clone, Debug, PartialEq, Eq, PartialOrd, Ord, Hash)]
pub struct ReadDiscreteInputsResponse {
    /// Number of bytes of discrete input values that follow.
    pub bytes_number: u8,
    /// Discrete input values, eight inputs to a byte, the first input in the
    /// least significant bit of the first byte.
    pub values: Vec<u8>,
}

/// What a [`ReadDiscreteInputsResponse`] holds.
pub struct ReadDiscreteInputsResponseView {
    pub bytes_number: u8,
    pub values: Seq<u8>,
}

impl View for ReadDiscreteInputsResponse {
    type V = ReadDiscreteInputsResponseView;

    open spec fn view(&self) -> ReadDiscreteInputsResponseView {
        ReadDiscreteInputsResponseView { bytes_number: self.bytes_number, values: self.values@ }
    }
}

impl ReadDiscreteInputsResponseView {
    /// The byte count is the number of value bytes.
    pub open spec fn wf(self) -> bool {
        self.bytes_number == self.values.len()
    }

    /// The bytes of the body on the wire.
    pub open spec fn wire(self) -> Seq<u8> {
        seq![self.bytes_number] + self.values
    }
}

impl Length for ReadDiscreteInputsResponse {
    open spec fn encoded_len(&self) -> nat {
        self@.wire().len()
    }

    fn len(&self) -> (n: u16) {
        (1 + self.values.len()) as u16
    }
}

impl ReadDiscreteInputsResponse {
    /// Makes the body. The byte count is taken from `values`, which it
    /// counts in one byte.
    pub fn new(values: Vec<u8>) -> (body: ReadDiscreteInputsResponse)
        requires
            values@.len() <= u8::MAX,
        ensures
            body.bytes_number == values@.len(),
            body.values == values,
            body@.wf(),
    {
        ReadDiscreteInputsResponse { bytes_number: values.len() as u8, values }
    }

    /// Appends the bytes of the body to `dst`.
    pub fn write_to(&self, dst: &mut BytesMut)
        requires
            has_room(bytes_of(*old(dst)), 1 + self.values@.len()),
        ensures
            bytes_of(*final(dst)) == bytes_of(*old(dst)) + self@.wire(),
    {
        put_u8(dst, self.bytes_number);
        put_slice(dst, self.values.as_slice());
        assert(bytes_of(*dst) =~= bytes_of(*old(dst)) + self@.wire());
    }
}

/// The body of a response to function `0x03`.
#[derive(Clone, Debug, PartialEq, Eq, PartialOrd, Ord, Hash)]
pub struct ReadMultipleHoldingRegistersResponse {
    /// Number of bytes of register values that follow.
    pub bytes_number: u8,
    /// Register values, two bytes to a register.
    pub values: Vec<u8>,
}

/// What a [`ReadMultipleHoldingRegistersResponse`] holds.
pub struct ReadMultipleHoldingRegistersResponseView {
    pub bytes_number: u8,
    pub values: Seq<u8>,
}

impl View for ReadMultipleHoldingRegistersResponse {
    type V = ReadMultipleHoldingRegistersResponseView;

    open spec fn view(&self) -> ReadMultipleHoldingRegistersResponseView {
        ReadMultipleHoldingRegistersResponseView {
            bytes_number: self.bytes_number,
            values: self.values@,
        }
    }
}

impl ReadMultipleHoldingRegistersResponseView {
    /// The byte count is the number of value bytes.
    pub open spec fn wf(self) -> bool {
        self.bytes_number == self.values.len()
    }

    /// The bytes of the body on the wire.
    pub open spec fn wire(self) -> Seq<u8> {
        seq![self.bytes_number] + self.values
    }
}

impl Length for ReadMultipleHoldingRegistersResponse {
    open spec fn encoded_len(&self) -> nat {
        self@.wire().len()
    }

    fn len(&self) -> (n: u16) {
        (1 + self.values.len()) as u16
    }
}

impl ReadMultipleHoldingRegistersResponse {
    /// Makes the body. The byte count is taken from `values`, which it
    /// counts in one byte.
    pub fn new(values: Vec<u8>) -> (body: ReadMultipleHoldingRegistersResponse)
        requires
            values@.len() <= u8::MAX,
        ensures
            body.bytes_number == values@.len(),
            body.values == values,
            body@.wf(),
    {
        ReadMultipleHoldingRegistersResponse { bytes_number: values.len() as u8, values }
    }

    /// Appends the bytes of the body to `dst`.
    pub fn write_to(&self, dst: &mut BytesMut)
        requires
            has_room(bytes_of(*old(dst)), 1 + self.values@.len()),
        ensures
            bytes_of(*final(dst)) == bytes_of(*old(dst)) + self@.wire(),
    {
        put_u8(dst, self.bytes_number);
        put_slice(dst, self.values.as_slice());
        assert(bytes_of(*dst) =~= bytes_of(*old(dst)) + self@.wire());
    }
}

/// The body of a response to function `0x04`.
#[derive(Clone, Debug, PartialEq, Eq, PartialOrd, Ord, Hash)]
pub struct ReadInputRegistersResponse {
    /// Number of bytes of register values that follow.
    pub bytes_number: u8,
    /// Register values, two bytes to a register.
    pub values: Vec<u8>,
}

/// What a [`ReadInputRegistersResponse`] holds.
pub struct ReadInputRegistersResponseView {
    pub bytes_number: u8,
    pub values: Seq<u8>,
}

impl View for ReadInputRegistersResponse {
    type V = ReadInputRegistersResponseView;

    open spec fn view(&self) -> ReadInputRegistersResponseView {
        ReadInputRegistersResponseView { bytes_number: self.bytes_number, values: self.values@ }
    }
}

impl ReadInputRegistersResponseView {
    /// The byte count is the number of value bytes.
    pub open spec fn wf(self) -> bool {
        self.bytes_number == self.values.len()
    }

    /// The bytes of the body on the wire.
    pub open spec fn wire(self) -> Seq<u8> {
        seq![self.bytes_number] + self.values
    }
}

impl Length for ReadInputRegistersResponse {
    open spec fn encoded_len(&self) -> nat {
        self@.wire().len()
    }

    fn len(&self) -> (n: u16) {
        (1 + self.values.len()) as u16
    }
}

impl ReadInputRegistersResponse {
    /// Makes the body. The byte count is taken from `values`, which it
    /// counts in one byte.
    pub fn new(values: Vec<u8>) -> (body: ReadInputRegistersResponse)
        requires
            values@.len() <= u8::MAX,
        ensures
            body.bytes_number == values@.len(),
            body.values == values,
            body@.wf(),
    {
        ReadInputRegistersResponse { bytes_number: values.len() as u8, values }
    }

    /// Appends the bytes of the body to `dst`.
    pub fn write_to(&self, dst: &mut BytesMut)
        requires
            has_room(bytes_of(*old(dst)), 1 + self.values@.len()),
        ensures
            bytes_of(*final(dst)) == bytes_of(*old(dst)) + self@.wire(),
    {
        put_u8(dst, self.bytes_number);
        put_slice(dst, self.values.as_slice());
        assert(bytes_of(*dst) =~= bytes_of(*old(dst)) + self@.wire());
    }
}

/// The body of a response to function `0x05`.
#[derive(Clone, Copy, Debug, PartialEq, Eq, PartialOrd, Ord, Hash)]
pub struct WriteSingleCoilResponse {
    /// Address of the written coil.
    pub coil_address: u16,
    /// Value written: `0x0000` for off, `0xFF00` for on.
    pub value: u16,
}

impl Length for WriteSingleCoilResponse {
    open spec fn encoded_len(&self) -> nat {
        self.wire().len()
    }

    fn len(&self) -> (n: u16) {
        4
    }
}

impl WriteSingleCoilResponse {
    /// Makes the body.
    pub fn new(coil_address: u16, value: u16) -> (body: WriteSingleCoilResponse)
        ensures
            body == (WriteSingleCoilResponse { coil_address, value }),
    {
        WriteSingleCoilResponse { coil_address, value }
    }

    /// The bytes of the body on the wire.
    pub open spec fn wire(self) -> Seq<u8> {
        word(self.coil_address) + word(self.value)
    }

    /// Appends the bytes of the body to `dst`.
    pub fn write_to(&self, dst: &mut BytesMut)
        requires
            has_room(bytes_of(*old(dst)), 4),
        ensures
            bytes_of(*final(dst)) == bytes_of(*old(dst)) + self.wire(),
    {
        put_u16(dst, self.coil_address);
        put_u16(dst, self.value);
        assert(bytes_of(*dst) =~= bytes_of(*old(dst)) + self.wire());
    }
}

/// The body of a response to function `0x06`.
#[derive(Clone, Copy, Debug, PartialEq, Eq, PartialOrd, Ord, Hash)]
pub struct WriteSingleHoldingRegisterResponse {
    /// Address of the written holding register.
    pub register_address: u16,
    /// Value written.
    pub value: u16,
}

impl Length for WriteSingleHoldingRegisterResponse {
    open spec fn encoded_len(&self) -> nat {
        self.wire().len()
    }

    fn len(&self) -> (n: u16) {
        4
    }
}

impl WriteSingleHoldingRegisterResponse {
    /// Makes the body.
    pub fn new(register_address: u16, value: u16) -> (body: WriteSingleHoldingRegisterResponse)
        ensures
            body == (WriteSingleHoldingRegisterResponse { register_address, value }),
    {
        WriteSingleHoldingRegisterResponse { register_address, value }
    }

    /// The bytes of the body on the wire.
    pub open spec fn wire(self) -> Seq<u8> {
        word(self.register_address) + word(self.value)
    }

    /// Appends the bytes of the body to `dst`.
    pub fn write_to(&self, dst: &mut BytesMut)
        requires
            has_room(bytes_of(*old(dst)), 4),
        ensures
            bytes_of(*final(dst)) == bytes_of(*old(dst)) + self.wire(),
    {
        put_u16(dst, self.register_address);
        put_u16(dst, self.value);
        assert(bytes_of(*dst) =~= bytes_of(*old(dst)) + self.wire());
    }
}

/// The body of a response to function `0x0F`.
#[derive(Clone, Copy, Debug, PartialEq, Eq, PartialOrd, Ord, Hash)]
pub struct WriteMultipleCoilsResponse {
    /// Address of the first written coil.
    pub first_address: u16,
    /// Number of written coils.
    pub coils_number: u16,
}

impl Length for WriteMultipleCoilsResponse {
    open spec fn encoded_len(&self) -> nat {
        self.wire().len()
    }

    fn len(&self) -> (n: u16) {
        4
    }
}

impl WriteMultipleCoilsResponse {
    /// Makes the body.
    pub fn new(first_address: u16, coils_number: u16) -> (body: WriteMultipleCoilsResponse)
        ensures
            body == (WriteMultipleCoilsResponse { first_address, coils_number }),
    {
        WriteMultipleCoilsResponse { first_address, coils_number }
    }

    /// The bytes of the body on the wire.
    pub open spec fn wire(self) -> Seq<u8> {
        word(self.first_address) + word(self.coils_number)
    }

    /// Appends the bytes of the body to `dst`.
    pub fn write_to(&self, dst: &mut BytesMut)
        requires
            has_room(bytes_of(*old(dst)), 4),
        ensures
            bytes_of(*final(dst)) == bytes_of(*old(dst)) + self.wire(),
    {
        put_u16(dst, self.first_address);
        put_u16(dst, self.coils_number);
        assert(bytes_of(*dst) =~= bytes_of(*old(dst)) + self.wire());
    }
}

/// The body of a response to function `0x10`.
#[derive(Clone, Copy, Debug, PartialEq, Eq, PartialOrd, Ord, Hash)]
pub struct WriteMultipleHoldingRegistersResponse {
    /// Address of the first written holding register.
    pub first_address: u16,
    /// Number of written holding registers.
    pub registers_number: u16,
}

impl Length for WriteMultipleHoldingRegistersResponse {
    open spec fn encoded_len(&self) -> nat {
        self.wire().len()
    }

    fn len(&self) -> (n: u16) {
        4
    }
}

impl WriteMultipleHoldingRegistersResponse {
    /// Makes the body.
    pub fn new(
        first_address: u16,
        registers_number: u16,
    ) -> (body: WriteMultipleHoldingRegistersResponse)
        ensures
            body == (WriteMultipleHoldingRegistersResponse { first_address, registers_number }),
    {
        WriteMultipleHoldingRegistersResponse { first_address, registers_number }
    }

    /// The bytes of the body on the wire.
    pub open spec fn wire(self) -> Seq<u8> {
        word(self.first_address) + word(self.registers_number)
    }

    /// Appends the bytes of the body to `dst`.
    pub fn write_to(&self, dst: &mut BytesMut)
        requires
            has_room(bytes_of(*old(dst)), 4),
        ensures
            bytes_of(*final(dst)) == bytes_of(*old(dst)) + self.wire(),
    {
        put_u16(dst, self.first_address);
        put_u16(dst, self.registers_number);
        assert(bytes_of(*dst) =~= bytes_of(*old(dst)) + self.wire());
    }
}

/// The body of an exception response.
#[derive(Clone, Copy, Debug, PartialEq, Eq, PartialOrd, Ord, Hash)]
pub struct ExceptionResponse {
    /// The reason the function could not be completed.
    pub exception: Exception,
}

impl Length for ExceptionResponse {
    open spec fn encoded_len(&self) -> nat {
        self.wire().len()
    }

    fn len(&self) -> (n: u16) {
        1
    }
}

impl ExceptionResponse {
    /// Makes the body.
    pub fn new(exception: Exception) -> (body: ExceptionResponse)
        ensures
            body == (ExceptionResponse { exception }),
    {
        ExceptionResponse { exception }
    }

    /// The byte of the body on the wire.
    pub open spec fn wire(self) -> Seq<u8> {
        seq![self.exception.code()]
    }

    /// Appends the byte of the body to `dst`.
    pub fn write_to(&self, dst: &mut BytesMut)
        requires
            has_room(bytes_of(*old(dst)), 1),
        ensures
            bytes_of(*final(dst)) == bytes_of(*old(dst)) + self.wire(),
    {
        put_u8(dst, self.exception.to_code());
        assert(bytes_of(*dst) =~= bytes_of(*old(dst)) + self.wire());
    }
}

/// What a [`Response`] holds.
pub enum ResponseView {
    ReadCoils(Head, ReadCoilsResponseView),
    ReadDiscreteInputs(Head, ReadDiscreteInputsResponseView),
    ReadMultipleHoldingRegisters(Head, ReadMultipleHoldingRegistersResponseView),
    ReadInputRegisters(Head, ReadInputRegistersResponseView),
    WriteSingleCoil(Head, WriteSingleCoilResponse),
    WriteSingleHoldingRegister(Head, WriteSingleHoldingRegisterResponse),
    WriteMultipleCoils(Head, WriteMultipleCoilsResponse),
    WriteMultipleHoldingRegisters(Head, WriteMultipleHoldingRegistersResponse),
    Exception(Head, ExceptionResponse),
}

impl View for Response {
    type V = ResponseView;

    open spec fn view(&self) -> ResponseView {
        match *self {
            Response::ReadCoils(head, body) => ResponseView::ReadCoils(head, body@),
            Response::ReadDiscreteInputs(head, body) =>
                ResponseView::ReadDiscreteInputs(head, body@),
            Response::ReadMultipleHoldingRegisters(head, body) =>
                ResponseView::ReadMultipleHoldingRegisters(head, body@),
            Response::ReadInputRegisters(head, body) =>
                ResponseView::ReadInputRegisters(head, body@),
            Response::WriteSingleCoil(head, body) => ResponseView::WriteSingleCoil(head, body),
            Response::WriteSingleHoldingRegister(head, body) =>
                ResponseView::WriteSingleHoldingRegister(head, body),
            Response::WriteMultipleCoils(head, body) =>
                ResponseView::WriteMultipleCoils(head, body),
            Response::WriteMultipleHoldingRegisters(head, body) =>
                ResponseView::WriteMultipleHoldingRegisters(head, body),
            Response::Exception(head, body) => ResponseView::Exception(head, body),
        }
    }
}

impl ResponseView {
    /// The head of the response.
    pub open spec fn head(self) -> Head {
        match self {
            ResponseView::ReadCoils(head, _) => head,
            ResponseView::ReadDiscreteInputs(head, _) => head,
            ResponseView::ReadMultipleHoldingRegisters(head, _) => head,
            ResponseView::ReadInputRegisters(head, _) => head,
            ResponseView::WriteSingleCoil(head, _) => head,
            ResponseView::WriteSingleHoldingRegister(head, _) => head,
            ResponseView::WriteMultipleCoils(head, _) => head,
            ResponseView::WriteMultipleHoldingRegisters(head, _) => head,
            ResponseView::Exception(head, _) => head,
        }
    }

    /// The function that the body belongs to. An exception belongs to the
    /// function that its head names.
    pub open spec fn function(self) -> Function {
        match self {
            ResponseView::ReadCoils(..) => Function::ReadCoils,
            ResponseView::ReadDiscreteInputs(..) => Function::ReadDiscreteInputs,
            ResponseView::ReadMultipleHoldingRegisters(..) =>
                Function::ReadMultipleHoldingRegisters,
            ResponseView::ReadInputRegisters(..) => Function::ReadInputRegisters,
            ResponseView::WriteSingleCoil(..) => Function::WriteSingleCoil,
            ResponseView::WriteSingleHoldingRegister(..) => Function::WriteSingleHoldingRegister,
            ResponseView::WriteMultipleCoils(..) => Function::WriteMultipleCoils,
            ResponseView::WriteMultipleHoldingRegisters(..) =>
                Function::WriteMultipleHoldingRegisters,
            ResponseView::Exception(head, _) => head.function,
        }
    }

    /// The bytes of the body on the wire.
    pub open spec fn body_wire(self) -> Seq<u8> {
        match self {
            ResponseView::ReadCoils(_, body) => body.wire(),
            ResponseView::ReadDiscreteInputs(_, body) => body.wire(),
            ResponseView::ReadMultipleHoldingRegisters(_, body) => body.wire(),
            ResponseView::ReadInputRegisters(_, body) => body.wire(),
            ResponseView::WriteSingleCoil(_, body) => body.wire(),
            ResponseView::WriteSingleHoldingRegister(_, body) => body.wire(),
            ResponseView::WriteMultipleCoils(_, body) => body.wire(),
            ResponseView::WriteMultipleHoldingRegisters(_, body) => body.wire(),
            ResponseView::Exception(_, body) => body.wire(),
        }
    }

    /// Whether the byte count of the body, where it has one, is the number
    /// of its value bytes.
    pub open spec fn body_wf(self) -> bool {
        match self {
            ResponseView::ReadCoils(_, body) => body.wf(),
            ResponseView::ReadDiscreteInputs(_, body) => body.wf(),
            ResponseView::ReadMultipleHoldingRegisters(_, body) => body.wf(),
            ResponseView::ReadInputRegisters(_, body) => body.wf(),
            _ => true,
        }
    }

    /// Whether head and body agree: the head reports an exception exactly
    /// where the body is one, it names the function of the body, its length
    /// field counts unit identifier, function and body, the byte count of
    /// the body is right, and an RTU head has no transaction and protocol
    /// identifiers.
    pub open spec fn wf(self) -> bool {
        &&& self.head().is_exception <==> self is Exception
        &&& self.head().function == self.function()
        &&& self.head().length == 2 + self.body_wire().len()
        &&& self.body_wf()
        &&& self.head().version == Version::Rtu ==> self.head().tid == 0 && self.head().pid == 0
    }

    /// Head and body as they stand on the wire, without a CRC.
    pub open spec fn payload(self) -> Seq<u8> {
        self.head().wire() + self.body_wire()
    }

    /// The bytes of the whole frame on the wire: head and body, and in RTU
    /// framing the CRC16 of the two, low byte first.
    pub open spec fn wire(self) -> Seq<u8> {
        match self.head().version {
            Version::Tcp => self.payload(),
            Version::Rtu => self.payload() + crc::trailer(crc::checksum(self.payload())),
        }
    }
}

impl Response {
    /// Returns the head of the response.
    pub fn head(&self) -> (head: &Head)
        ensures
            *head == self@.head(),
    {
        match self {
            Response::ReadCoils(head, _) => head,
            Response::ReadDiscreteInputs(head, _) => head,
            Response::ReadMultipleHoldingRegisters(head, _) => head,
            Response::ReadInputRegisters(head, _) => head,
            Response::WriteSingleCoil(head, _) => head,
            Response::WriteSingleHoldingRegister(head, _) => head,
            Response::WriteMultipleCoils(head, _) => head,
            Response::WriteMultipleHoldingRegisters(head, _) => head,
            Response::Exception(head, _) => head,
        }
    }

    /// Appends the bytes of the body to `dst`.
    fn write_body(&self, dst: &mut BytesMut)
        requires
            has_room(bytes_of(*old(dst)), self@.body_wire().len()),
        ensures
            bytes_of(*final(dst)) == bytes_of(*old(dst)) + self@.body_wire(),
    {
        match self {
            Response::ReadCoils(_, body) => body.write_to(dst),
            Response::ReadDiscreteInputs(_, body) => body.write_to(dst),
            Response::ReadMultipleHoldingRegisters(_, body) => body.write_to(dst),
            Response::ReadInputRegisters(_, body) => body.write_to(dst),
            Response::WriteSingleCoil(_, body) => body.write_to(dst),
            Response::WriteSingleHoldingRegister(_, body) => body.write_to(dst),
            Response::WriteMultipleCoils(_, body) => body.write_to(dst),
            Response::WriteMultipleHoldingRegisters(_, body) => body.write_to(dst),
            Response::Exception(_, body) => body.write_to(dst),
        }
    }

    /// Appends the bytes of the frame to `dst`, framed as the head says: in
    /// TCP framing head and body, in RTU framing head, body and the CRC16
    /// of the two.
    pub fn write_to(&self, dst: &mut BytesMut)
        requires
            has_room(bytes_of(*old(dst)), self@.wire().len()),
        ensures
            bytes_of(*final(dst)) == bytes_of(*old(dst)) + self@.wire(),
    {
        let start: usize = peek(dst).len();
        self.head().write_to(dst);
        self.write_body(dst);
        assert(bytes_of(*dst) =~= bytes_of(*old(dst)) + self@.payload());
        match self.head().version {
            Version::Tcp => {},
            Version::Rtu => {
                assert(bytes_of(*dst).skip(start as int) =~= self@.payload());
                seal(dst, start);
                assert(bytes_of(*dst) =~= bytes_of(*old(dst)) + self@.wire());
            },
        }
    }
}

/// Appends the bytes of `item` to `dst`, framed as the head of `item` says.
pub fn response_to_bytesmut(item: Response, dst: &mut BytesMut)
    requires
        has_room(bytes_of(*old(dst)), item@.wire().len()),
    ensures
        bytes_of(*final(dst)) == bytes_of(*old(dst)) + item@.wire(),
{
    item.write_to(dst);
}

} // verus!
