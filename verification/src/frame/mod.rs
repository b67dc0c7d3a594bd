//! The typed model of Modbus frames: functions, exceptions, heads and the
//! builder that makes requests and responses.

use crate::frame::request::{
    ReadCoilsRequest, ReadDiscreteInputsRequest, ReadInputRegistersRequest,
    ReadMultipleHoldingRegistersRequest, Request, RequestView, WriteMultipleCoilsRequest,
    WriteMultipleCoilsRequestView, WriteMultipleHoldingRegistersRequest,
    WriteMultipleHoldingRegistersRequestView, WriteSingleCoilRequest,
    WriteSingleHoldingRegisterRequest,
};
use crate::frame::response::{
    ExceptionResponse, ReadCoilsResponse, ReadCoilsResponseView, ReadDiscreteInputsResponse,
    ReadDiscreteInputsResponseView, ReadInputRegistersResponse, ReadInputRegistersResponseView,
    ReadMultipleHoldingRegistersResponse, ReadMultipleHoldingRegistersResponseView, Response,
    ResponseView, WriteMultipleCoilsResponse, WriteMultipleHoldingRegistersResponse,
    WriteSingleCoilResponse, WriteSingleHoldingRegisterResponse,
};
use crate::util::buffer::{bytes_of, has_room, peek, put_u16, put_u8};
use crate::util::crc;
use crate::util::word::word;
use bytes::BytesMut;
use std::collections::HashMap;
use vstd::prelude::*;
use vstd::slice::slice_subrange;

pub mod request;
pub mod response;

verus! {

/// The framing a head belongs to.
#[derive(Clone, Copy, Debug, PartialEq, Eq, PartialOrd, Ord, Hash, Structural)]
pub enum Version {
    /// Modbus over TCP/IP, with a seven byte header before the function.
    Tcp,
    /// Modbus over a serial line, closed by a CRC16.
    Rtu,
}

/// The reasons a server gives when it cannot complete a function.
#[derive(Clone, Copy, Debug, PartialEq, Eq, PartialOrd, Ord, Hash, Structural)]
pub enum Exception {
    /// The function code is not recognised or not allowed by the server.
    IllegalFunction,
    /// Some of the addressed entities do not exist in the server.
    IllegalDataAddress,
    /// The server does not accept the value.
    IllegalDataValue,
    /// The server failed while it performed the action.
    SlaveDeviceFailure,
    /// The server accepted the request and needs a long time to process it.
    Acknowledge,
}

impl Exception {
    /// The byte that stands for this exception on the wire.
    pub open spec fn code(self) -> u8 {
        match self {
            Exception::IllegalFunction => 0x01,
            Exception::IllegalDataAddress => 0x02,
            Exception::IllegalDataValue => 0x03,
            Exception::SlaveDeviceFailure => 0x04,
            Exception::Acknowledge => 0x05,
        }
    }

    /// The exception that a byte stands for, if any.
    pub open spec fn of_code(code: u8) -> Option<Exception> {
        if code == 0x01 {
            Some(Exception::IllegalFunction)
        } else if code == 0x02 {
            Some(Exception::IllegalDataAddress)
        } else if code == 0x03 {
            Some(Exception::IllegalDataValue)
        } else if code == 0x04 {
            Some(Exception::SlaveDeviceFailure)
        } else if code == 0x05 {
            Some(Exception::Acknowledge)
        } else {
            None
        }
    }

    /// Returns the byte that stands for this exception on the wire.
    pub fn to_code(&self) -> (code: u8)
        ensures
            code == self.code(),
    {
        match self {
            Exception::IllegalFunction => 0x01,
            Exception::IllegalDataAddress => 0x02,
            Exception::IllegalDataValue => 0x03,
            Exception::SlaveDeviceFailure => 0x04,
            Exception::Acknowledge => 0x05,
        }
    }

    /// Returns the exception that `code` stands for, or `None` where it
    /// stands for none.
    pub fn from_code(code: u8) -> (exception: Option<Exception>)
        ensures
            exception == Exception::of_code(code),
    {
        match code {
            0x01 => Some(Exception::IllegalFunction),
            0x02 => Some(Exception::IllegalDataAddress),
            0x03 => Some(Exception::IllegalDataValue),
            0x04 => Some(Exception::SlaveDeviceFailure),
            0x05 => Some(Exception::Acknowledge),
            _ => None,
        }
    }
}

/// The supported Modbus functions.
#[derive(Clone, Copy, Debug, PartialEq, Eq, PartialOrd, Ord, Hash, Structural)]
pub enum Function {
    ReadCoils,
    ReadDiscreteInputs,
    ReadMultipleHoldingRegisters,
    ReadInputRegisters,
    WriteSingleCoil,
    WriteSingleHoldingRegister,
    WriteMultipleCoils,
    WriteMultipleHoldingRegisters,
}

impl Function {
    /// The byte that stands for this function on the wire.
    pub open spec fn code(self) -> u8 {
        match self {
            Function::ReadCoils => 0x01,
            Function::ReadDiscreteInputs => 0x02,
            Function::ReadMultipleHoldingRegisters => 0x03,
            Function::ReadInputRegisters => 0x04,
            Function::WriteSingleCoil => 0x05,
            Function::WriteSingleHoldingRegister => 0x06,
            Function::WriteMultipleCoils => 0x0F,
            Function::WriteMultipleHoldingRegisters => 0x10,
        }
    }

    /// The function that a byte stands for, if any.
    pub open spec fn of_code(code: u8) -> Option<Function> {
        if code == 0x01 {
            Some(Function::ReadCoils)
        } else if code == 0x02 {
            Some(Function::ReadDiscreteInputs)
        } else if code == 0x03 {
            Some(Function::ReadMultipleHoldingRegisters)
        } else if code == 0x04 {
            Some(Function::ReadInputRegisters)
        } else if code == 0x05 {
            Some(Function::WriteSingleCoil)
        } else if code == 0x06 {
            Some(Function::WriteSingleHoldingRegister)
        } else if code == 0x0F {
            Some(Function::WriteMultipleCoils)
        } else if code == 0x10 {
            Some(Function::WriteMultipleHoldingRegisters)
        } else {
            None
        }
    }

    /// Returns the byte that stands for this function on the wire.
    pub fn to_code(&self) -> (code: u8)
        ensures
            code == self.code(),
    {
        match self {
            Function::ReadCoils => 0x01,
            Function::ReadDiscreteInputs => 0x02,
            Function::ReadMultipleHoldingRegisters => 0x03,
            Function::ReadInputRegisters => 0x04,
            Function::WriteSingleCoil => 0x05,
            Function::WriteSingleHoldingRegister => 0x06,
            Function::WriteMultipleCoils => 0x0F,
            Function::WriteMultipleHoldingRegisters => 0x10,
        }
    }
}

/// The maps between functions and bytes, and between exceptions and bytes,
/// undo each other: a byte stands for a function exactly where it is the
/// code of the function, and so for exceptions.
pub proof fn lemma_codes_are_bijective()
    ensures
        forall|function: Function, code: u8|
            #![trigger Function::of_code(code), function.code()]
            Function::of_code(code) == Some(function) <==> function.code() == code,
        forall|exception: Exception, code: u8|
            #![trigger Exception::of_code(code), exception.code()]
            Exception::of_code(code) == Some(exception) <==> exception.code() == code,
{
}

/// What a frame says of itself before its body.
#[derive(Clone, Copy, Debug, PartialEq, Eq, PartialOrd, Ord, Hash)]
pub struct Head {
    /// Transaction identifier, by which a client pairs responses with
    /// requests. Always 0 in RTU framing.
    pub tid: u16,
    /// Protocol identifier.
    pub pid: u16,
    /// The number of bytes that follow the length field itself: unit
    /// identifier, function and body.
    pub length: u16,
    /// The address of the server (TCP) or slave (RTU).
    pub uid: u8,
    /// The function of the frame. In an exception it is the function that
    /// could not be completed.
    pub function: Function,
    /// The framing.
    pub version: Version,
    /// Whether the frame reports an exception.
    pub is_exception: bool,
}

impl Head {
    /// The byte that carries the function: its code, with the top bit set
    /// in an exception.
    pub open spec fn function_byte(self) -> u8 {
        if self.is_exception {
            (self.function.code() + 0x80) as u8
        } else {
            self.function.code()
        }
    }

    /// The bytes of the head on the wire. In TCP framing: transaction
    /// identifier, protocol identifier and length, two bytes each, then unit
    /// identifier and function byte. In RTU framing: unit identifier and
    /// function byte.
    pub open spec fn wire(self) -> Seq<u8> {
        match self.version {
            Version::Tcp => word(self.tid) + word(self.pid) + word(self.length) + seq![
                self.uid,
                self.function_byte(),
            ],
            Version::Rtu => seq![self.uid, self.function_byte()],
        }
    }

    /// Appends the bytes of the head to `dst`.
    pub fn write_to(&self, dst: &mut BytesMut)
        requires
            has_room(bytes_of(*old(dst)), self.wire().len()),
        ensures
            bytes_of(*final(dst)) == bytes_of(*old(dst)) + self.wire(),
    {
        match self.version {
            Version::Tcp => {
                put_u16(dst, self.tid);
                put_u16(dst, self.pid);
                put_u16(dst, self.length);
            },
            Version::Rtu => {},
        }
        put_u8(dst, self.uid);
        let code: u8 = self.function.to_code();
        put_u8(
            dst,
            if self.is_exception {
                code + 0x80
            } else {
                code
            },
        );
        assert(bytes_of(*dst) =~= bytes_of(*old(dst)) + self.wire());
    }

    /// Makes the head of a frame whose body takes `body_length` bytes.
    pub fn new(
        tid: u16,
        uid: u8,
        function: Function,
        body_length: u16,
        version: Version,
        is_exception: bool,
    ) -> (head: Head)
        requires
            body_length + 2 <= u16::MAX,
        ensures
            head == (Head {
                tid,
                pid: 0,
                length: (body_length + 2) as u16,
                uid,
                function,
                version,
                is_exception,
            }),
    {
        Head { tid, pid: 0x00, length: body_length + 2, uid, function, version, is_exception }
    }

    /// Sets the length field for a body of `body_length` bytes.
    pub fn body_length(&mut self, body_length: u16)
        requires
            body_length + 2 <= u16::MAX,
        ensures
            *final(self) == (Head { length: (body_length + 2) as u16, ..*old(self) }),
    {
        self.length = body_length + 2;
    }
}

/// The transaction identifier that a table of last issued identifiers gives
/// next to a unit: one more than the last, and 1 where there was none or the
/// last was `0xFFFF`.
pub open spec fn next_tid(tids: Map<u8, u16>, unit_id: u8) -> u16 {
    if tids.contains_key(unit_id) && tids[unit_id] < 0xFFFF {
        (tids[unit_id] + 1) as u16
    } else {
        1
    }
}

/// The table after `count` identifiers in a row were issued to a unit.
pub open spec fn issue_n(tids: Map<u8, u16>, unit_id: u8, count: nat) -> Map<u8, u16>
    decreases count,
{
    if count == 0 {
        tids
    } else {
        let before = issue_n(tids, unit_id, (count - 1) as nat);
        before.insert(unit_id, next_tid(before, unit_id))
    }
}

/// From a table that holds nothing for a unit, the identifiers issued to it
/// run 1, 2, 3 and on to `0xFFFF`, then start again at 1: the `nth` of them
/// is `(nth - 1) % 0xFFFF + 1`, and none is 0.
pub proof fn lemma_tid_sequence(tids: Map<u8, u16>, unit_id: u8, nth: nat)
    requires
        !tids.contains_key(unit_id),
        nth >= 1,
    ensures
        next_tid(issue_n(tids, unit_id, (nth - 1) as nat), unit_id) == (nth - 1) % 0xFFFF + 1,
        next_tid(issue_n(tids, unit_id, (nth - 1) as nat), unit_id) != 0,
    decreases nth,
{
    if nth > 1 {
        lemma_tid_sequence(tids, unit_id, (nth - 1) as nat);
    }
}

/// From a table that holds nothing for a unit, no two of any `0xFFFF`
/// identifiers issued to it in a row are the same.
pub proof fn lemma_tids_differ_in_window(tids: Map<u8, u16>, unit_id: u8, nth: nat, later: nat)
    requires
        !tids.contains_key(unit_id),
        1 <= nth < later,
        later - nth < 0xFFFF,
    ensures
        next_tid(issue_n(tids, unit_id, (nth - 1) as nat), unit_id) != next_tid(
            issue_n(tids, unit_id, (later - 1) as nat),
            unit_id,
        ),
{
    lemma_tid_sequence(tids, unit_id, nth);
    lemma_tid_sequence(tids, unit_id, later);
    let low = (nth - 1) as int;
    let high = (later - 1) as int;
    if low % 0xFFFF == high % 0xFFFF {
        vstd::arithmetic::div_mod::lemma_fundamental_div_mod(low, 0xFFFF);
        vstd::arithmetic::div_mod::lemma_fundamental_div_mod(high, 0xFFFF);
        assert(high - low == 0xFFFF * (high / 0xFFFF - low / 0xFFFF)) by (nonlinear_arith)
            requires
                low == 0xFFFF * (low / 0xFFFF) + low % 0xFFFF,
                high == 0xFFFF * (high / 0xFFFF) + high % 0xFFFF,
                low % 0xFFFF == high % 0xFFFF,
        ;
        assert(false) by (nonlinear_arith)
            requires
                high - low == 0xFFFF * (high / 0xFFFF - low / 0xFFFF),
                0 < high - low < 0xFFFF,
        ;
    }
}

/// The identifiers issued to one unit do not change what another unit gets
/// next.
pub proof fn lemma_tids_per_unit(tids: Map<u8, u16>, unit_id: u8, other: u8, count: nat)
    requires
        other != unit_id,
    ensures
        next_tid(issue_n(tids, unit_id, count), other) == next_tid(tids, other),
    decreases count,
{
    if count > 0 {
        lemma_tids_per_unit(tids, unit_id, other, (count - 1) as nat);
    }
}

/// A builder of requests and responses in one framing.
///
/// It keeps, for each unit, the transaction identifier that it issued last.
/// The table is plain data owned by the builder: a builder that several
/// threads share needs a lock around it.
#[derive(Debug)]
pub struct Frame {
    version: Version,
    tid_map: HashMap<u8, u16>,
}

impl Frame {
    /// The framing of the frames that the builder makes.
    pub closed spec fn version(&self) -> Version {
        self.version
    }

    /// The transaction identifier issued last to each unit.
    pub closed spec fn tids(&self) -> Map<u8, u16> {
        self.tid_map@
    }

    /// The transaction identifier that the next frame for a unit gets: 0 in
    /// RTU framing, the next of the table in TCP framing.
    pub open spec fn issued_tid(&self, unit_id: u8) -> u16 {
        match self.version() {
            Version::Tcp => next_tid(self.tids(), unit_id),
            Version::Rtu => 0,
        }
    }

    /// The head that the next frame for a unit gets.
    pub open spec fn next_head(
        &self,
        unit_id: u8,
        function: Function,
        body_length: nat,
        is_exception: bool,
    ) -> Head {
        Head {
            tid: self.issued_tid(unit_id),
            pid: 0,
            length: (body_length + 2) as u16,
            uid: unit_id,
            function,
            version: self.version(),
            is_exception,
        }
    }

    /// Whether this builder is `before` after one frame was built for a
    /// unit: in TCP framing the table holds the identifier issued, in RTU
    /// framing nothing changed.
    pub open spec fn issued_after(&self, before: &Frame, unit_id: u8) -> bool {
        &&& self.version() == before.version()
        &&& self.tids() == match before.version() {
            Version::Tcp => before.tids().insert(unit_id, next_tid(before.tids(), unit_id)),
            Version::Rtu => before.tids(),
        }
    }

    /// Makes a builder of TCP frames that has issued no identifier.
    pub fn tcp() -> (frame: Frame)
        ensures
            frame.version() == Version::Tcp,
            frame.tids() == Map::<u8, u16>::empty(),
    {
        Frame { version: Version::Tcp, tid_map: HashMap::new() }
    }

    /// Makes a builder of RTU frames.
    pub fn rtu() -> (frame: Frame)
        ensures
            frame.version() == Version::Rtu,
            frame.tids() == Map::<u8, u16>::empty(),
    {
        Frame { version: Version::Rtu, tid_map: HashMap::new() }
    }

    /// Builds a read coils request (function `0x01`).
    ///
    /// * `unit_id` - address of the server
    /// * `first_address` - address of the first coil to read
    /// * `number` - number of coils to read
    pub fn read_coils_request(
        &mut self,
        unit_id: u8,
        first_address: u16,
        number: u16,
    ) -> (request: Request)
        ensures
            request == Request::ReadCoils(
                old(self).next_head(unit_id, Function::ReadCoils, 4, false),
                ReadCoilsRequest { first_address, coils_number: number },
            ),
            request@.wf(),
            final(self).issued_after(old(self), unit_id),
    {
        let body = ReadCoilsRequest::new(first_address, number);
        let head = self.head(unit_id, Function::ReadCoils, body.len(), false);
        Request::ReadCoils(head, body)
    }

    /// Builds a read discrete inputs request (function `0x02`).
    ///
    /// * `unit_id` - address of the server
    /// * `first_address` - address of the first discrete input to read
    /// * `number` - number of discrete inputs to read
    pub fn read_discrete_request(
        &mut self,
        unit_id: u8,
        first_address: u16,
        number: u16,
    ) -> (request: Request)
        ensures
            request == Request::ReadDiscreteInputs(
                old(self).next_head(unit_id, Function::ReadDiscreteInputs, 4, false),
                ReadDiscreteInputsRequest { first_address, discrete_inputs_number: number },
            ),
            request@.wf(),
            final(self).issued_after(old(self), unit_id),
    {
        let body = ReadDiscreteInputsRequest::new(first_address, number);
        let head = self.head(unit_id, Function::ReadDiscreteInputs, body.len(), false);
        Request::ReadDiscreteInputs(head, body)
    }

    /// Builds a read multiple holding registers request (function `0x03`).
    ///
    /// * `unit_id` - address of the server
    /// * `first_address` - address of the first register to read
    /// * `number` - number of registers to read
    pub fn read_multiple_holding_registers_request(
        &mut self,
        unit_id: u8,
        first_address: u16,
        number: u16,
    ) -> (request: Request)
        ensures
            request == Request::ReadMultipleHoldingRegisters(
                old(self).next_head(unit_id, Function::ReadMultipleHoldingRegisters, 4, false),
                ReadMultipleHoldingRegistersRequest { first_address, registers_number: number },
            ),
            request@.wf(),
            final(self).issued_after(old(self), unit_id),
    {
        let body = ReadMultipleHoldingRegistersRequest::new(first_address, number);
        let head = self.head(unit_id, Function::ReadMultipleHoldingRegisters, body.len(), false);
        Request::ReadMultipleHoldingRegisters(head, body)
    }

    /// Builds a read input registers request (function `0x04`).
    ///
    /// * `unit_id` - address of the server
    /// * `first_address` - address of the first register to read
    /// * `number` - number of registers to read
    pub fn read_input_registers_request(
        &mut self,
        unit_id: u8,
        first_address: u16,
        number: u16,
    ) -> (request: Request)
        ensures
            request == Request::ReadInputRegisters(
                old(self).next_head(unit_id, Function::ReadInputRegisters, 4, false),
                ReadInputRegistersRequest { first_address, registers_number: number },
            ),
            request@.wf(),
            final(self).issued_after(old(self), unit_id),
    {
        let body = ReadInputRegistersRequest::new(first_address, number);
        let head = self.head(unit_id, Function::ReadInputRegisters, body.len(), false);
        Request::ReadInputRegisters(head, body)
    }

    /// Builds a write single coil request (function `0x05`).
    ///
    /// * `unit_id` - address of the server
    /// * `address` - address of the coil to write
    /// * `value` - value to write: `0x0000` for off, `0xFF00` for on
    pub fn write_single_coil_request(
        &mut self,
        unit_id: u8,
        address: u16,
        value: u16,
    ) -> (request: Request)
        ensures
            request == Request::WriteSingleCoil(
                old(self).next_head(unit_id, Function::WriteSingleCoil, 4, false),
                WriteSingleCoilRequest { coil_address: address, value },
            ),
            request@.wf(),
            final(self).issued_after(old(self), unit_id),
    {
        let body = WriteSingleCoilRequest::new(address, value);
        let head = self.head(unit_id, Function::WriteSingleCoil, body.len(), false);
        Request::WriteSingleCoil(head, body)
    }

    /// Builds a write single holding register request (function `0x06`).
    ///
    /// * `unit_id` - address of the server
    /// * `address` - address of the holding register to write
    /// * `value` - value to write
    pub fn write_single_holding_register_request(
        &mut self,
        unit_id: u8,
        address: u16,
        value: u16,
    ) -> (request: Request)
        ensures
            request == Request::WriteSingleHoldingRegister(
                old(self).next_head(unit_id, Function::WriteSingleHoldingRegister, 4, false),
                WriteSingleHoldingRegisterRequest { register_address: address, value },
            ),
            request@.wf(),
            final(self).issued_after(old(self), unit_id),
    {
        let body = WriteSingleHoldingRegisterRequest::new(address, value);
        let head = self.head(unit_id, Function::WriteSingleHoldingRegister, body.len(), false);
        Request::WriteSingleHoldingRegister(head, body)
    }

    /// Builds a write multiple coils request (function `0x0F`).
    ///
    /// * `unit_id` - address of the server
    /// * `address` - address of the first coil to write
    /// * `coils_number` - number of coils to write
    /// * `values` - coil values, eight coils to a byte; the request counts
    ///   them in one byte
    pub fn write_multiple_coils_request(
        &mut self,
        unit_id: u8,
        address: u16,
        coils_number: u16,
        values: Vec<u8>,
    ) -> (request: Request)
        requires
            values@.len() <= u8::MAX,
        ensures
            request@ == RequestView::WriteMultipleCoils(
                old(
                    self,
                ).next_head(unit_id, Function::WriteMultipleCoils, 5 + values@.len(), false),
                WriteMultipleCoilsRequestView {
                    first_address: address,
                    coils_number,
                    bytes_number: values@.len() as u8,
                    values: values@,
                },
            ),
            request@.wf(),
            final(self).issued_after(old(self), unit_id),
    {
        let body = WriteMultipleCoilsRequest::new(address, coils_number, values);
        let head = self.head(unit_id, Function::WriteMultipleCoils, body.len(), false);
        Request::WriteMultipleCoils(head, body)
    }

    /// Builds a write multiple holding registers request (function `0x10`).
    ///
    /// * `unit_id` - address of the server
    /// * `address` - address of the first holding register to write
    /// * `values` - new values of the registers, two bytes to a register;
    ///   the request counts them in one byte
    pub fn write_multiple_holding_registers_request(
        &mut self,
        unit_id: u8,
        address: u16,
        values: Vec<u8>,
    ) -> (request: Request)
        requires
            values@.len() <= u8::MAX,
        ensures
            request@ == RequestView::WriteMultipleHoldingRegisters(
                old(self).next_head(
                    unit_id,
                    Function::WriteMultipleHoldingRegisters,
                    5 + values@.len(),
                    false,
                ),
                WriteMultipleHoldingRegistersRequestView {
                    first_address: address,
                    registers_number: (values@.len() / 2) as u16,
                    bytes_number: values@.len() as u8,
                    values: values@,
                },
            ),
            request@.wf(),
            final(self).issued_after(old(self), unit_id),
    {
        let body = WriteMultipleHoldingRegistersRequest::new(address, values);
        let head = self.head(unit_id, Function::WriteMultipleHoldingRegisters, body.len(), false);
        Request::WriteMultipleHoldingRegisters(head, body)
    }

    /// Builds a read coils response (function `0x01`).
    ///
    /// * `unit_id` - address of the server
    /// * `values` - coil values, eight coils to a byte; the response counts them
    ///   in one byte
    pub fn read_coils_response(&mut self, unit_id: u8, values: Vec<u8>) -> (response: Response)
        requires
            values@.len() <= u8::MAX,
        ensures
            response@ == ResponseView::ReadCoils(
                old(self).next_head(unit_id, Function::ReadCoils, 1 + values@.len(), false),
                ReadCoilsResponseView { bytes_number: values@.len() as u8, values: values@ },
            ),
            response@.wf(),
            final(self).issued_after(old(self), unit_id),
    {
        let body = ReadCoilsResponse::new(values);
        let head = self.head(unit_id, Function::ReadCoils, body.len(), false);
        Response::ReadCoils(head, body)
    }

    /// Builds a read discrete inputs response (function `0x02`).
    ///
    /// * `unit_id` - address of the server
    /// * `values` - discrete input values, eight inputs to a byte; the response counts them
    ///   in one byte
    pub fn read_discrete_response(&mut self, unit_id: u8, values: Vec<u8>) -> (response: Response)
        requires
            values@.len() <= u8::MAX,
        ensures
            response@ == ResponseView::ReadDiscreteInputs(
                old(
                    self,
                ).next_head(unit_id, Function::ReadDiscreteInputs, 1 + values@.len(), false),
                ReadDiscreteInputsResponseView {
                    bytes_number: values@.len() as u8,
                    values: values@,
                },
            ),
            response@.wf(),
            final(self).issued_after(old(self), unit_id),
    {
        let body = ReadDiscreteInputsResponse::new(values);
        let head = self.head(unit_id, Function::ReadDiscreteInputs, body.len(), false);
        Response::ReadDiscreteInputs(head, body)
    }

    /// Builds a read holding registers response (function `0x03`).
    ///
    /// * `unit_id` - address of the server
    /// * `values` - register values, two bytes to a register; the response counts them
    ///   in one byte
    pub fn read_holding_register_response(
        &mut self,
        unit_id: u8,
        values: Vec<u8>,
    ) -> (response: Response)
        requires
            values@.len() <= u8::MAX,
        ensures
            response@ == ResponseView::ReadMultipleHoldingRegisters(
                old(
                    self,
                ).next_head(
                    unit_id,
                    Function::ReadMultipleHoldingRegisters,
                    1 + values@.len(),
                    false,
                ),
                ReadMultipleHoldingRegistersResponseView {
                    bytes_number: values@.len() as u8,
                    values: values@,
                },
            ),
            response@.wf(),
            final(self).issued_after(old(self), unit_id),
    {
        let body = ReadMultipleHoldingRegistersResponse::new(values);
        let head = self.head(unit_id, Function::ReadMultipleHoldingRegisters, body.len(), false);
        Response::ReadMultipleHoldingRegisters(head, body)
    }

    /// Builds a read input registers response (function `0x04`).
    ///
    /// * `unit_id` - address of the server
    /// * `values` - register values, two bytes to a register; the response counts them
    ///   in one byte
    pub fn read_input_register_response(
        &mut self,
        unit_id: u8,
        values: Vec<u8>,
    ) -> (response: Response)
        requires
            values@.len() <= u8::MAX,
        ensures
            response@ == ResponseView::ReadInputRegisters(
                old(
                    self,
                ).next_head(unit_id, Function::ReadInputRegisters, 1 + values@.len(), false),
                ReadInputRegistersResponseView {
                    bytes_number: values@.len() as u8,
                    values: values@,
                },
            ),
            response@.wf(),
            final(self).issued_after(old(self), unit_id),
    {
        let body = ReadInputRegistersResponse::new(values);
        let head = self.head(unit_id, Function::ReadInputRegisters, body.len(), false);
        Response::ReadInputRegisters(head, body)
    }

    /// Builds a write single coil response (function `0x05`).
    ///
    /// * `unit_id` - address of the server
    /// * `address` - address of the written coil
    /// * `value` - value written
    pub fn write_single_coil_response(
        &mut self,
        unit_id: u8,
        address: u16,
        value: u16,
    ) -> (response: Response)
        ensures
            response == Response::WriteSingleCoil(
                old(self).next_head(unit_id, Function::WriteSingleCoil, 4, false),
                WriteSingleCoilResponse { coil_address: address, value },
            ),
            response@.wf(),
            final(self).issued_after(old(self), unit_id),
    {
        let body = WriteSingleCoilResponse::new(address, value);
        let head = self.head(unit_id, Function::WriteSingleCoil, body.len(), false);
        Response::WriteSingleCoil(head, body)
    }

    /// Builds a write single holding register response (function `0x06`).
    ///
    /// * `unit_id` - address of the server
    /// * `address` - address of the written holding register
    /// * `value` - value written
    pub fn write_single_holding_register_response(
        &mut self,
        unit_id: u8,
        address: u16,
        value: u16,
    ) -> (response: Response)
        ensures
            response == Response::WriteSingleHoldingRegister(
                old(self).next_head(unit_id, Function::WriteSingleHoldingRegister, 4, false),
                WriteSingleHoldingRegisterResponse { register_address: address, value },
            ),
            response@.wf(),
            final(self).issued_after(old(self), unit_id),
    {
        let body = WriteSingleHoldingRegisterResponse::new(address, value);
        let head = self.head(unit_id, Function::WriteSingleHoldingRegister, body.len(), false);
        Response::WriteSingleHoldingRegister(head, body)
    }

    /// Builds a write multiple coils response (function `0x0F`).
    ///
    /// * `unit_id` - address of the server
    /// * `address` - address of the first written coil
    /// * `number` - number of written coils
    pub fn write_multiple_coils_response(
        &mut self,
        unit_id: u8,
        address: u16,
        number: u16,
    ) -> (response: Response)
        ensures
            response == Response::WriteMultipleCoils(
                old(self).next_head(unit_id, Function::WriteMultipleCoils, 4, false),
                WriteMultipleCoilsResponse { first_address: address, coils_number: number },
            ),
            response@.wf(),
            final(self).issued_after(old(self), unit_id),
    {
        let body = WriteMultipleCoilsResponse::new(address, number);
        let head = self.head(unit_id, Function::WriteMultipleCoils, body.len(), false);
        Response::WriteMultipleCoils(head, body)
    }

    /// Builds a write multiple holding registers response (function `0x10`).
    ///
    /// * `unit_id` - address of the server
    /// * `address` - address of the first written holding register
    /// * `number` - number of written holding registers
    pub fn write_multiple_holding_registers_response(
        &mut self,
        unit_id: u8,
        address: u16,
        number: u16,
    ) -> (response: Response)
        ensures
            response == Response::WriteMultipleHoldingRegisters(
                old(self).next_head(unit_id, Function::WriteMultipleHoldingRegisters, 4, false),
                WriteMultipleHoldingRegistersResponse {
                    first_address: address,
                    registers_number: number,
                },
            ),
            response@.wf(),
            final(self).issued_after(old(self), unit_id),
    {
        let body = WriteMultipleHoldingRegistersResponse::new(address, number);
        let head = self.head(unit_id, Function::WriteMultipleHoldingRegisters, body.len(), false);
        Response::WriteMultipleHoldingRegisters(head, body)
    }

    /// Builds an exception response.
    ///
    /// * `unit_id` - address of the server
    /// * `function` - the function that could not be completed
    /// * `exception` - the reason
    pub fn exception_response(
        &mut self,
        unit_id: u8,
        function: Function,
        exception: Exception,
    ) -> (response: Response)
        ensures
            response == Response::Exception(
                old(self).next_head(unit_id, function, 1, true),
                ExceptionResponse { exception },
            ),
            response@.wf(),
            final(self).issued_after(old(self), unit_id),
    {
        let body = ExceptionResponse::new(exception);
        let head = self.head(unit_id, function, body.len(), true);
        Response::Exception(head, body)
    }

    /// Makes the head of the next frame for a unit.
    fn head(&mut self, uid: u8, function: Function, body_length: u16, is_exception: bool) -> (head:
        Head)
        requires
            body_length + 2 <= u16::MAX,
        ensures
            head == old(self).next_head(uid, function, body_length as nat, is_exception),
            final(self).issued_after(old(self), uid),
    {
        let tid: u16 = self.get_tid(uid);
        Head::new(tid, uid, function, body_length, self.version, is_exception)
    }

    /// Issues the transaction identifier of the next frame for a unit.
    fn get_tid(&mut self, unit_id: u8) -> (tid: u16)
        ensures
            tid == old(self).issued_tid(unit_id),
            final(self).issued_after(old(self), unit_id),
    {
        if self.version == Version::Rtu {
            return 0;
        }
        let value: u16 = match self.tid_map.get(&unit_id) {
            None => 1,
            Some(v) => {
                if *v < 0xFFFF {
                    *v + 1
                } else {
                    1
                }
            },
        };
        self.tid_map.insert(unit_id, value);
        value
    }
}

/// Appends to `dst` the CRC16 of the bytes that it holds from `start` on,
/// low byte first.
pub(crate) fn seal(dst: &mut BytesMut, start: usize)
    requires
        start <= bytes_of(*old(dst)).len(),
        has_room(bytes_of(*old(dst)), 2),
    ensures
        bytes_of(*final(dst)) == bytes_of(*old(dst)) + crc::trailer(
            crc::checksum(bytes_of(*old(dst)).skip(start as int)),
        ),
{
    let held = peek(dst);
    let sum: u16 = crc::compute(slice_subrange(held, start, held.len()));
    assert(bytes_of(*dst).subrange(start as int, bytes_of(*dst).len() as int) =~= bytes_of(
        *dst,
    ).skip(start as int));
    put_u8(dst, (sum % 256) as u8);
    put_u8(dst, (sum / 256) as u8);
    assert(bytes_of(*dst) =~= bytes_of(*old(dst)) + crc::trailer(sum));
}

/// The number of bytes that a body takes on the wire.
pub trait Length {
    /// The number of bytes of the body on the wire.
    spec fn encoded_len(&self) -> nat;

    /// Returns the number of bytes of the encoded body.
    fn len(&self) -> (n: u16)
        requires
            self.encoded_len() <= u16::MAX,
        ensures
            n == self.encoded_len(),
    ;
}

} // verus!
