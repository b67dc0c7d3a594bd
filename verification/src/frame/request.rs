//! Requests and their bodies.

use super::{seal, Function, Head, Length, Version};
use crate::util::buffer::{bytes_of, has_room, peek, put_slice, put_u16, put_u8, with_capacity};
use crate::util::crc;
use crate::util::hex;
use crate::util::word::word;
use bytes::BytesMut;
use vstd::prelude::*;

verus! {

/// A Modbus request: a head and the body of its function.
#[derive(Clone, Debug, PartialEq, Eq, PartialOrd, Ord, Hash)]
pub enum Request {
    ReadCoils(Head, ReadCoilsRequest),
    ReadDiscreteInputs(Head, ReadDiscreteInputsRequest),
    ReadMultipleHoldingRegisters(Head, ReadMultipleHoldingRegistersRequest),
    ReadInputRegisters(Head, ReadInputRegistersRequest),
    WriteSingleCoil(Head, WriteSingleCoilRequest),
    WriteSingleHoldingRegister(Head, WriteSingleHoldingRegisterRequest),
    WriteMultipleCoils(Head, WriteMultipleCoilsRequest),
    WriteMultipleHoldingRegisters(Head, WriteMultipleHoldingRegistersRequest),
}

/// The body of function `0x01`.
#[derive(Clone, Copy, Debug, PartialEq, Eq, PartialOrd, Ord, Hash)]
pub struct ReadCoilsRequest {
    /// Address of the first coil to read.
    pub first_address: u16,
    /// Number of coils to read.
    pub coils_number: u16,
}

impl Length for ReadCoilsRequest {
    open spec fn encoded_len(&self) -> nat {
        self.wire().len()
    }

    fn len(&self) -> (n: u16) {
        4
    }
}

impl ReadCoilsRequest {
    /// Makes the body.
    pub fn new(first_address: u16, coils_number: u16) -> (body: ReadCoilsRequest)
        ensures
            body == (ReadCoilsRequest { first_address, coils_number }),
    {
        ReadCoilsRequest { first_address, coils_number }
    }

    /// The bytes of the body on the wire.
    pub open spec fn wire(self) -> Seq<u8> {
        word(self.first_address) + word(self.coils_number)
    }

    /// Appends the bytes of the body to `dst`.
    pub fn write_to(&self, dst: &mut BytesMut)
        requires
            has_room(bytes_of(*old(dst)), 4),
        ensures
            bytes_of(*final(dst)) == bytes_of(*old(dst)) + self.wire(),
    {
        put_u16(dst, self.first_address);
        put_u16(dst, self.coils_number);
        assert(bytes_of(*dst) =~= bytes_of(*old(dst)) + self.wire());
    }
}

/// The body of function `0x02`.
#[derive(Clone, Copy, Debug, PartialEq, Eq, PartialOrd, Ord, Hash)]
pub struct ReadDiscreteInputsRequest {
    /// Address of the first discrete input to read.
    pub first_address: u16,
    /// Number of discrete inputs to read.
    pub discrete_inputs_number: u16,
}

impl Length for ReadDiscreteInputsRequest {
    open spec fn encoded_len(&self) -> nat {
        self.wire().len()
    }

    fn len(&self) -> (n: u16) {
        4
    }
}

impl ReadDiscreteInputsRequest {
    /// Makes the body.
    pub fn new(first_address: u16, discrete_inputs_number: u16) -> (body: ReadDiscreteInputsRequest)
        ensures
            body == (ReadDiscreteInputsRequest { first_address, discrete_inputs_number }),
    {
        ReadDiscreteInputsRequest { first_address, discrete_inputs_number }
    }

    /// Returns the first address.
    pub fn get_first_address(&self) -> (value: &u16)
        ensures
            *value == self.first_address,
    {
        &self.first_address
    }

    /// Returns the discrete inputs number.
    pub fn get_discrete_input_number(&self) -> (value: &u16)
        ensures
            *value == self.discrete_inputs_number,
    {
        &self.discrete_inputs_number
    }

    /// The bytes of the body on the wire.
    pub open spec fn wire(self) -> Seq<u8> {
        word(self.first_address) + word(self.discrete_inputs_number)
    }

    /// Appends the bytes of the body to `dst`.
    pub fn write_to(&self, dst: &mut BytesMut)
        requires
            has_room(bytes_of(*old(dst)), 4),
        ensures
            bytes_of(*final(dst)) == bytes_of(*old(dst)) + self.wire(),
    {
        put_u16(dst, self.first_address);
        put_u16(dst, self.discrete_inputs_number);
        assert(bytes_of(*dst) =~= bytes_of(*old(dst)) + self.wire());
    }
}

/// The body of function `0x03`.
#[derive(Clone, Copy, Debug, PartialEq, Eq, PartialOrd, Ord, Hash)]
pub struct ReadMultipleHoldingRegistersRequest {
    /// Address of the first register to read.
    pub first_address: u16,
    /// Number of registers to read.
    pub registers_number: u16,
}

impl Length for ReadMultipleHoldingRegistersRequest {
    open spec fn encoded_len(&self) -> nat {
        self.wire().len()
    }

    fn len(&self) -> (n: u16) {
        4
    }
}

impl ReadMultipleHoldingRegistersRequest {
    /// Makes the body.
    pub fn new(
        first_address: u16,
        registers_number: u16,
    ) -> (body: ReadMultipleHoldingRegistersRequest)
        ensures
            body == (ReadMultipleHoldingRegistersRequest { first_address, registers_number }),
    {
        ReadMultipleHoldingRegistersRequest { first_address, registers_number }
    }

    /// Returns the first address.
    pub fn get_first_address(&self) -> (value: &u16)
        ensures
            *value == self.first_address,
    {
        &self.first_address
    }

    /// Returns the registers number.
    pub fn get_registers_number(&self) -> (value: &u16)
        ensures
            *value == self.registers_number,
    {
        &self.registers_number
    }

    /// The bytes of the body on the wire.
    pub open spec fn wire(self) -> Seq<u8> {
        word(self.first_address) + word(self.registers_number)
    }

    /// Appends the bytes of the body to `dst`.
    pub fn write_to(&self, dst: &mut BytesMut)
        requires
            has_room(bytes_of(*old(dst)), 4),
        ensures
            bytes_of(*final(dst)) == bytes_of(*old(dst)) + self.wire(),
    {
        put_u16(dst, self.first_address);
        put_u16(dst, self.registers_number);
        assert(bytes_of(*dst) =~= bytes_of(*old(dst)) + self.wire());
    }
}

/// The body of function `0x04`.
#[derive(Clone, Copy, Debug, PartialEq, Eq, PartialOrd, Ord, Hash)]
pub struct ReadInputRegistersRequest {
    /// Address of the first register to read.
    pub first_address: u16,
    /// Number of registers to read.
    pub registers_number: u16,
}

impl Length for ReadInputRegistersRequest {
    open spec fn encoded_len(&self) -> nat {
        self.wire().len()
    }

    fn len(&self) -> (n: u16) {
        4
    }
}

impl ReadInputRegistersRequest {
    /// Makes the body.
    pub fn new(first_address: u16, registers_number: u16) -> (body: ReadInputRegistersRequest)
        ensures
            body == (ReadInputRegistersRequest { first_address, registers_number }),
    {
        ReadInputRegistersRequest { first_address, registers_number }
    }

    /// Returns the first address.
    pub fn get_first_address(&self) -> (value: &u16)
        ensures
            *value == self.first_address,
    {
        &self.first_address
    }

    /// Returns the registers number.
    pub fn get_registers_number(&self) -> (value: &u16)
        ensures
            *value == self.registers_number,
    {
        &self.registers_number
    }

    /// The bytes of the body on the wire.
    pub open spec fn wire(self) -> Seq<u8> {
        word(self.first_address) + word(self.registers_number)
    }

    /// Appends the bytes of the body to `dst`.
    pub fn write_to(&self, dst: &mut BytesMut)
        requires
            has_room(bytes_of(*old(dst)), 4),
        ensures
            bytes_of(*final(dst)) == bytes_of(*old(dst)) + self.wire(),
    {
        put_u16(dst, self.first_address);
        put_u16(dst, self.registers_number);
        assert(bytes_of(*dst) =~= bytes_of(*old(dst)) + self.wire());
    }
}

/// The body of function `0x05`.
#[derive(Clone, Copy, Debug, PartialEq, Eq, PartialOrd, Ord, Hash)]
pub struct WriteSingleCoilRequest {
    /// Address of the coil to write.
    pub coil_address: u16,
    /// Value to write: `0x0000` for off, `0xFF00` for on.
    pub value: u16,
}

impl Length for WriteSingleCoilRequest {
    open spec fn encoded_len(&self) -> nat {
        self.wire().len()
    }

    fn len(&self) -> (n: u16) {
        4
    }
}

impl WriteSingleCoilRequest {
    /// Makes the body.
    pub fn new(coil_address: u16, value: u16) -> (body: WriteSingleCoilRequest)
        ensures
            body == (WriteSingleCoilRequest { coil_address, value }),
    {
        WriteSingleCoilRequest { coil_address, value }
    }

    /// Returns the coil address.
    pub fn get_coil_address(&self) -> (value: &u16)
        ensures
            *value == self.coil_address,
    {
        &self.coil_address
    }

    /// Returns the value.
    pub fn get_value(&self) -> (value: &u16)
        ensures
            *value == self.value,
    {
        &self.value
    }

    /// The bytes of the body on the wire.
    pub open spec fn wire(self) -> Seq<u8> {
        word(self.coil_address) + word(self.value)
    }

    /// Appends the bytes of the body to `dst`.
    pub fn write_to(&self, dst: &mut BytesMut)
        requires
            has_room(bytes_of(*old(dst)), 4),
        ensures
            bytes_of(*final(dst)) == bytes_of(*old(dst)) + self.wire(),
    {
        put_u16(dst, self.coil_address);
        put_u16(dst, self.value);
        assert(bytes_of(*dst) =~= bytes_of(*old(dst)) + self.wire());
    }
}

/// The body of function `0x06`.
#[derive(Clone, Copy, Debug, PartialEq, Eq, PartialOrd, Ord, Hash)]
pub struct WriteSingleHoldingRegisterRequest {
    /// Address of the holding register to write.
    pub register_address: u16,
    /// Value to write.
    pub value: u16,
}

impl Length for WriteSingleHoldingRegisterRequest {
    open spec fn encoded_len(&self) -> nat {
        self.wire().len()
    }

    fn len(&self) -> (n: u16) {
        4
    }
}

impl WriteSingleHoldingRegisterRequest {
    /// Makes the body.
    pub fn new(register_address: u16, value: u16) -> (body: WriteSingleHoldingRegisterRequest)
        ensures
            body == (WriteSingleHoldingRegisterRequest { register_address, value }),
    {
        WriteSingleHoldingRegisterRequest { register_address, value }
    }

    /// Returns the register address.
    pub fn get_register_address(&self) -> (value: &u16)
        ensures
            *value == self.register_address,
    {
        &self.register_address
    }

    /// Returns the value.
    pub fn get_value(&self) -> (value: &u16)
        ensures
            *value == self.value,
    {
        &self.value
    }

    /// The bytes of the body on the wire.
    pub open spec fn wire(self) -> Seq<u8> {
        word(self.register_address) + word(self.value)
    }

    /// Appends the bytes of the body to `dst`.
    pub fn write_to(&self, dst: &mut BytesMut)
        requires
            has_room(bytes_of(*old(dst)), 4),
        ensures
            bytes_of(*final(dst)) == bytes_of(*old(dst)) + self.wire(),
    {
        put_u16(dst, self.register_address);
        put_u16(dst, self.value);
        assert(bytes_of(*dst) =~= bytes_of(*old(dst)) + self.wire());
    }
}

/// The body of function `0x0F`.
#[derive(Clone, Debug, PartialEq, Eq, PartialOrd, Ord, Hash)]
pub struct WriteMultipleCoilsRequest {
    /// Address of the first coil to write.
    pub first_address: u16,
    /// Number of coils to write.
    pub coils_number: u16,
    /// Number of bytes of coil values that follow.
    pub bytes_number: u8,
    /// Coil values, eight coils to a byte, the first coil in the least
    /// significant bit of the first byte.
    pub values: Vec<u8>,
}

/// What a [`WriteMultipleCoilsRequest`] holds.
pub struct WriteMultipleCoilsRequestView {
    pub first_address: u16,
    pub coils_number: u16,
    pub bytes_number: u8,
    pub values: Seq<u8>,
}

impl View for WriteMultipleCoilsRequest {
    type V = WriteMultipleCoilsRequestView;

    open spec fn view(&self) -> WriteMultipleCoilsRequestView {
        WriteMultipleCoilsRequestView {
            first_address: self.first_address,
            coils_number: self.coils_number,
            bytes_number: self.bytes_number,
            values: self.values@,
        }
    }
}

impl WriteMultipleCoilsRequestView {
    /// The byte count is the number of value bytes.
    pub open spec fn wf(self) -> bool {
        self.bytes_number == self.values.len()
    }

    /// The bytes of the body on the wire.
    pub open spec fn wire(self) -> Seq<u8> {
        word(self.first_address) + word(self.coils_number) + seq![self.bytes_number] + self.values
    }
}

impl Length for WriteMultipleCoilsRequest {
    open spec fn encoded_len(&self) -> nat {
        self@.wire().len()
    }

    fn len(&self) -> (n: u16) {
        (5 + self.values.len()) as u16
    }
}

impl WriteMultipleCoilsRequest {
    /// Makes the body. The byte count is taken from `values`, which it
    /// counts in one byte.
    pub fn new(first_address: u16, coils_number: u16, values: Vec<u8>) -> (body:
        WriteMultipleCoilsRequest)
        requires
            values@.len() <= u8::MAX,
        ensures
            body.first_address == first_address,
            body.coils_number == coils_number,
            body.bytes_number == values@.len(),
            body.values == values,
            body@.wf(),
    {
        WriteMultipleCoilsRequest {
            first_address,
            coils_number,
            bytes_number: values.len() as u8,
            values,
        }
    }

    /// Returns the first address.
    pub fn first_address(&self) -> (value: &u16)
        ensures
            *value == self.first_address,
    {
        &self.first_address
    }

    /// Returns the coils number.
    pub fn coils_number(&self) -> (value: &u16)
        ensures
            *value == self.coils_number,
    {
        &self.coils_number
    }

    /// Appends the bytes of the body to `dst`.
    pub fn write_to(&self, dst: &mut BytesMut)
        requires
            has_room(bytes_of(*old(dst)), 5 + self.values@.len()),
        ensures
            bytes_of(*final(dst)) == bytes_of(*old(dst)) + self@.wire(),
    {
        put_u16(dst, self.first_address);
        put_u16(dst, self.coils_number);
        put_u8(dst, self.bytes_number);
        put_slice(dst, self.values.as_slice());
        assert(bytes_of(*dst) =~= bytes_of(*old(dst)) + self@.wire());
    }
}

/// The body of function `0x10`.
#[derive(Clone, Debug, PartialEq, Eq, PartialOrd, Ord, Hash)]
pub struct WriteMultipleHoldingRegistersRequest {
    /// Address of the first holding register to write.
    pub first_address: u16,
    /// Number of holding registers to write.
    pub registers_number: u16,
    /// Number of bytes of register values that follow.
    pub bytes_number: u8,
    /// New values of the holding registers, two bytes to a register.
    pub values: Vec<u8>,
}

/// What a [`WriteMultipleHoldingRegistersRequest`] holds.
pub struct WriteMultipleHoldingRegistersRequestView {
    pub first_address: u16,
    pub registers_number: u16,
    pub bytes_number: u8,
    pub values: Seq<u8>,
}

impl View for WriteMultipleHoldingRegistersRequest {
    type V = WriteMultipleHoldingRegistersRequestView;

    open spec fn view(&self) -> WriteMultipleHoldingRegistersRequestView {
        WriteMultipleHoldingRegistersRequestView {
            first_address: self.first_address,
            registers_number: self.registers_number,
            bytes_number: self.bytes_number,
            values: self.values@,
        }
    }
}

impl WriteMultipleHoldingRegistersRequestView {
    /// The byte count is the number of value bytes.
    pub open spec fn wf(self) -> bool {
        self.bytes_number == self.values.len()
    }

    /// The bytes of the body on the wire.
    pub open spec fn wire(self) -> Seq<u8> {
        word(self.first_address) + word(self.registers_number) + seq![self.bytes_number]
            + self.values
    }
}

impl Length for WriteMultipleHoldingRegistersRequest {
    open spec fn encoded_len(&self) -> nat {
        self@.wire().len()
    }

    fn len(&self) -> (n: u16) {
        (5 + self.values.len()) as u16
    }
}

impl WriteMultipleHoldingRegistersRequest {
    /// Makes the body. The byte count and the number of registers, two
    /// bytes each, are taken from `values`, which it counts in one byte.
    pub fn new(first_address: u16, values: Vec<u8>) -> (body: WriteMultipleHoldingRegistersRequest)
        requires
            values@.len() <= u8::MAX,
        ensures
            body.first_address == first_address,
            body.registers_number == values@.len() / 2,
            body.bytes_number == values@.len(),
            body.values == values,
            body@.wf(),
    {
        WriteMultipleHoldingRegistersRequest {
            first_address,
            registers_number: values.len() as u16 / 2,
            bytes_number: values.len() as u8,
            values,
        }
    }

    /// Returns the first address.
    pub fn get_first_address(&self) -> (value: &u16)
        ensures
            *value == self.first_address,
    {
        &self.first_address
    }

    /// Returns the registers number.
    pub fn get_registers_number(&self) -> (value: &u16)
        ensures
            *value == self.registers_number,
    {
        &self.registers_number
    }

    /// Returns the bytes number.
    pub fn get_bytes_number(&self) -> (value: &u8)
        ensures
            *value == self.bytes_number,
    {
        &self.bytes_number
    }

    /// Returns the values.
    pub fn get_values(&self) -> (values: &Vec<u8>)
        ensures
            *values == self.values,
    {
        &self.values
    }

    /// Appends the bytes of the body to `dst`.
    pub fn write_to(&self, dst: &mut BytesMut)
        requires
            has_room(bytes_of(*old(dst)), 5 + self.values@.len()),
        ensures
            bytes_of(*final(dst)) == bytes_of(*old(dst)) + self@.wire(),
    {
        put_u16(dst, self.first_address);
        put_u16(dst, self.registers_number);
        put_u8(dst, self.bytes_number);
        put_slice(dst, self.values.as_slice());
        assert(bytes_of(*dst) =~= bytes_of(*old(dst)) + self@.wire());
    }
}

/// What a [`Request`] holds.
pub enum RequestView {
    ReadCoils(Head, ReadCoilsRequest),
    ReadDiscreteInputs(Head, ReadDiscreteInputsRequest),
    ReadMultipleHoldingRegisters(Head, ReadMultipleHoldingRegistersRequest),
    ReadInputRegisters(Head, ReadInputRegistersRequest),
    WriteSingleCoil(Head, WriteSingleCoilRequest),
    WriteSingleHoldingRegister(Head, WriteSingleHoldingRegisterRequest),
    WriteMultipleCoils(Head, WriteMultipleCoilsRequestView),
    WriteMultipleHoldingRegisters(Head, WriteMultipleHoldingRegistersRequestView),
}

impl View for Request {
    type V = RequestView;

    open spec fn view(&self) -> RequestView {
        match *self {
            Request::ReadCoils(head, body) => RequestView::ReadCoils(head, body),
            Request::ReadDiscreteInputs(head, body) => RequestView::ReadDiscreteInputs(head, body),
            Request::ReadMultipleHoldingRegisters(head, body) =>
                RequestView::ReadMultipleHoldingRegisters(head, body),
            Request::ReadInputRegisters(head, body) => RequestView::ReadInputRegisters(head, body),
            Request::WriteSingleCoil(head, body) => RequestView::WriteSingleCoil(head, body),
            Request::WriteSingleHoldingRegister(head, body) =>
                RequestView::WriteSingleHoldingRegister(head, body),
            Request::WriteMultipleCoils(head, body) => RequestView::WriteMultipleCoils(head, body@),
            Request::WriteMultipleHoldingRegisters(head, body) =>
                RequestView::WriteMultipleHoldingRegisters(head, body@),
        }
    }
}

impl RequestView {
    /// The head of the request.
    pub open spec fn head(self) -> Head {
        match self {
            RequestView::ReadCoils(head, _) => head,
            RequestView::ReadDiscreteInputs(head, _) => head,
            RequestView::ReadMultipleHoldingRegisters(head, _) => head,
            RequestView::ReadInputRegisters(head, _) => head,
            RequestView::WriteSingleCoil(head, _) => head,
            RequestView::WriteSingleHoldingRegister(head, _) => head,
            RequestView::WriteMultipleCoils(head, _) => head,
            RequestView::WriteMultipleHoldingRegisters(head, _) => head,
        }
    }

    /// The function that the body belongs to.
    pub open spec fn function(self) -> Function {
        match self {
            RequestView::ReadCoils(..) => Function::ReadCoils,
            RequestView::ReadDiscreteInputs(..) => Function::ReadDiscreteInputs,
            RequestView::ReadMultipleHoldingRegisters(..) => Function::ReadMultipleHoldingRegisters,
            RequestView::ReadInputRegisters(..) => Function::ReadInputRegisters,
            RequestView::WriteSingleCoil(..) => Function::WriteSingleCoil,
            RequestView::WriteSingleHoldingRegister(..) => Function::WriteSingleHoldingRegister,
            RequestView::WriteMultipleCoils(..) => Function::WriteMultipleCoils,
            RequestView::WriteMultipleHoldingRegisters(..) =>
                Function::WriteMultipleHoldingRegisters,
        }
    }

    /// The bytes of the body on the wire.
    pub open spec fn body_wire(self) -> Seq<u8> {
        match self {
            RequestView::ReadCoils(_, body) => body.wire(),
            RequestView::ReadDiscreteInputs(_, body) => body.wire(),
            RequestView::ReadMultipleHoldingRegisters(_, body) => body.wire(),
            RequestView::ReadInputRegisters(_, body) => body.wire(),
            RequestView::WriteSingleCoil(_, body) => body.wire(),
            RequestView::WriteSingleHoldingRegister(_, body) => body.wire(),
            RequestView::WriteMultipleCoils(_, body) => body.wire(),
            RequestView::WriteMultipleHoldingRegisters(_, body) => body.wire(),
        }
    }

    /// Whether the byte count of the body, where it has one, is the number
    /// of its value bytes.
    pub open spec fn body_wf(self) -> bool {
        match self {
            RequestView::WriteMultipleCoils(_, body) => body.wf(),
            RequestView::WriteMultipleHoldingRegisters(_, body) => body.wf(),
            _ => true,
        }
    }

    /// Whether head and body agree: the head names the function of the
    /// body, its length field counts unit identifier, function and body, the
    /// byte count of the body is right, and an RTU head has no transaction
    /// and protocol identifiers.
    pub open spec fn wf(self) -> bool {
        &&& self.head().function == self.function()
        &&& self.head().length == 2 + self.body_wire().len()
        &&& self.body_wf()
        &&& self.head().version == Version::Rtu ==> self.head().tid == 0 && self.head().pid == 0
    }

    /// Head and body as they stand on the wire, without a CRC.
    pub open spec fn payload(self) -> Seq<u8> {
        self.head().wire() + self.body_wire()
    }

    /// The bytes of the whole frame on the wire: head and body, and in RTU
    /// framing the CRC16 of the two, low byte first.
    pub open spec fn wire(self) -> Seq<u8> {
        match self.head().version {
            Version::Tcp => self.payload(),
            Version::Rtu => self.payload() + crc::trailer(crc::checksum(self.payload())),
        }
    }
}

impl Request {
    /// Returns the head of the request.
    pub fn head(&self) -> (head: &Head)
        ensures
            *head == self@.head(),
    {
        match self {
            Request::ReadCoils(head, _) => head,
            Request::ReadDiscreteInputs(head, _) => head,
            Request::ReadMultipleHoldingRegisters(head, _) => head,
            Request::ReadInputRegisters(head, _) => head,
            Request::WriteSingleCoil(head, _) => head,
            Request::WriteSingleHoldingRegister(head, _) => head,
            Request::WriteMultipleCoils(head, _) => head,
            Request::WriteMultipleHoldingRegisters(head, _) => head,
        }
    }

    /// Appends the bytes of the body to `dst`.
    fn write_body(&self, dst: &mut BytesMut)
        requires
            has_room(bytes_of(*old(dst)), self@.body_wire().len()),
        ensures
            bytes_of(*final(dst)) == bytes_of(*old(dst)) + self@.body_wire(),
    {
        match self {
            Request::ReadCoils(_, body) => body.write_to(dst),
            Request::ReadDiscreteInputs(_, body) => body.write_to(dst),
            Request::ReadMultipleHoldingRegisters(_, body) => body.write_to(dst),
            Request::ReadInputRegisters(_, body) => body.write_to(dst),
            Request::WriteSingleCoil(_, body) => body.write_to(dst),
            Request::WriteSingleHoldingRegister(_, body) => body.write_to(dst),
            Request::WriteMultipleCoils(_, body) => body.write_to(dst),
            Request::WriteMultipleHoldingRegisters(_, body) => body.write_to(dst),
        }
    }

    /// Appends the bytes of the frame to `dst`, framed as the head says: in
    /// TCP framing head and body, in RTU framing head, body and the CRC16
    /// of the two.
    pub fn write_to(&self, dst: &mut BytesMut)
        requires
            has_room(bytes_of(*old(dst)), self@.wire().len()),
        ensures
            bytes_of(*final(dst)) == bytes_of(*old(dst)) + self@.wire(),
    {
        let start: usize = peek(dst).len();
        self.head().write_to(dst);
        self.write_body(dst);
        assert(bytes_of(*dst) =~= bytes_of(*old(dst)) + self@.payload());
        match self.head().version {
            Version::Tcp => {},
            Version::Rtu => {
                assert(bytes_of(*dst).skip(start as int) =~= self@.payload());
                seal(dst, start);
                assert(bytes_of(*dst) =~= bytes_of(*old(dst)) + self@.wire());
            },
        }
    }

    /// Writes the bytes of the frame out as text: two capital hexadecimal
    /// digits to a byte, a space between bytes.
    pub fn to_string(&self) -> (text: String)
        requires
            self@.wire().len() <= isize::MAX,
        ensures
            text@ == hex::text_of(self@.wire()),
    {
        let mut buf = with_capacity(64);
        self.write_to(&mut buf);
        assert(bytes_of(buf) =~= self@.wire());
        hex::to_text(peek(&buf))
    }
}

/// Appends the bytes of `item` to `dst`, framed as the head of `item` says.
pub fn request_to_bytesmut(item: Request, dst: &mut BytesMut)
    requires
        has_room(bytes_of(*old(dst)), item@.wire().len()),
    ensures
        bytes_of(*final(dst)) == bytes_of(*old(dst)) + item@.wire(),
{
    item.write_to(dst);
}

} // verus!
