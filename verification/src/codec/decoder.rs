//! Decoding: from the bytes of the wire to a frame.

use super::{
    CodecError, Decoded, RtuClientCodec, RtuServerCodec, TcpClientCodec, TcpServerCodec,
};
use crate::frame::request::{
    ReadCoilsRequest, ReadDiscreteInputsRequest, ReadInputRegistersRequest,
    ReadMultipleHoldingRegistersRequest, Request, RequestView, WriteMultipleCoilsRequest,
    WriteMultipleCoilsRequestView, WriteMultipleHoldingRegistersRequest,
    WriteMultipleHoldingRegistersRequestView, WriteSingleCoilRequest,
    WriteSingleHoldingRegisterRequest,
};
use crate::frame::response::{
    ExceptionResponse, ReadCoilsResponse, ReadCoilsResponseView, ReadDiscreteInputsResponse,
    ReadDiscreteInputsResponseView, ReadInputRegistersResponse, ReadInputRegistersResponseView,
    ReadMultipleHoldingRegistersResponse, ReadMultipleHoldingRegistersResponseView, Response,
    ResponseView, WriteMultipleCoilsResponse, WriteMultipleHoldingRegistersResponse,
    WriteSingleCoilResponse, WriteSingleHoldingRegisterResponse,
};
use crate::frame::{Exception, Function, Head, Version};
use crate::util::buffer::{advance, bytes_of, peek};
use crate::util::crc;
use crate::util::word::{read_word, word_at};
use bytes::BytesMut;
use vstd::prelude::*;
use vstd::slice::{slice_subrange, slice_to_vec};

verus! {

impl Exception {
    /// Returns the exception that `value` stands for, or the error that
    /// says that it stands for none.
    pub fn try_from(value: u8) -> (exception: Result<Exception, CodecError>)
        ensures
            exception == match Exception::of_code(value) {
                Some(known) => Ok::<Exception, CodecError>(known),
                None => Err(CodecError::UnrecognizedExceptionCode(value)),
            },
    {
        match Exception::from_code(value) {
            None => Err(CodecError::UnrecognizedExceptionCode(value)),
            Some(exception) => Ok(exception),
        }
    }
}

impl Function {
    /// Returns the function that `value` stands for, or the error that says
    /// that it stands for none.
    pub fn try_from(value: u8) -> (function: Result<Function, CodecError>)
        ensures
            function == match Function::of_code(value) {
                Some(known) => Ok::<Function, CodecError>(known),
                None => Err(CodecError::InvalidFunctionCode(value)),
            },
    {
        let func = match value {
            0x01 => Function::ReadCoils,
            0x02 => Function::ReadDiscreteInputs,
            0x03 => Function::ReadMultipleHoldingRegisters,
            0x04 => Function::ReadInputRegisters,
            0x05 => Function::WriteSingleCoil,
            0x06 => Function::WriteSingleHoldingRegister,
            0x0F => Function::WriteMultipleCoils,
            0x10 => Function::WriteMultipleHoldingRegisters,
            _ => {
                return Err(CodecError::InvalidFunctionCode(value));
            },
        };
        Ok(func)
    }
}

/// The function byte with the exception bit cleared: the byte itself up to
/// `0x80`, and `0x80` less above.
pub open spec fn plain_code(function_byte: u8) -> u8 {
    if function_byte <= 0x80 {
        function_byte
    } else {
        (function_byte - 0x80) as u8
    }
}

/// What a function byte says: the function of its plain code, and an
/// exception where the byte is above `0x80`.
pub open spec fn function_of_byte(function_byte: u8) -> Result<(Function, bool), CodecError> {
    match Function::of_code(plain_code(function_byte)) {
        Some(function) => Ok((function, function_byte > 0x80)),
        None => Err(CodecError::InvalidFunctionCode(plain_code(function_byte))),
    }
}

/// Reads a function byte: the function, and whether the byte reports an
/// exception.
pub fn get_function(function_code: u8) -> (read: Result<(Function, bool), CodecError>)
    ensures
        read == function_of_byte(function_code),
{
    if function_code <= 0x80 {
        match Function::try_from(function_code) {
            Ok(function) => Ok((function, false)),
            Err(error) => Err(error),
        }
    } else {
        match Function::try_from(function_code - 0x80) {
            Ok(function) => Ok((function, true)),
            Err(error) => Err(error),
        }
    }
}

/// The head that the first eight bytes of a TCP frame make.
pub open spec fn tcp_head(buf: Seq<u8>) -> Result<Head, CodecError> {
    if buf.len() < 8 {
        Err(CodecError::IncompleteFrame)
    } else {
        match function_of_byte(buf[7]) {
            Ok((function, is_exception)) => Ok(
                Head {
                    tid: word_at(buf, 0),
                    pid: word_at(buf, 2),
                    length: word_at(buf, 4),
                    uid: buf[6],
                    function,
                    version: Version::Tcp,
                    is_exception,
                },
            ),
            Err(error) => Err(error),
        }
    }
}

/// The head that the first two bytes of an RTU frame make. Its length field
/// is 0: the frame carries no length.
pub open spec fn rtu_head(buf: Seq<u8>) -> Result<Head, CodecError> {
    if buf.len() < 2 {
        Err(CodecError::IncompleteFrame)
    } else {
        match function_of_byte(buf[1]) {
            Ok((function, is_exception)) => Ok(
                Head {
                    tid: 0,
                    pid: 0,
                    length: 0,
                    uid: buf[0],
                    function,
                    version: Version::Rtu,
                    is_exception,
                },
            ),
            Err(error) => Err(error),
        }
    }
}

impl Head {
    /// Reads the head of a TCP frame from the first eight bytes of `buf`.
    pub fn tcp_try_from(buf: &[u8]) -> (head: Result<Head, CodecError>)
        ensures
            head == tcp_head(buf@),
    {
        if buf.len() < 8 {
            return Err(CodecError::IncompleteFrame);
        }
        let tid: u16 = read_word(buf, 0);
        let pid: u16 = read_word(buf, 2);
        let length: u16 = read_word(buf, 4);
        let uid: u8 = buf[6];
        match get_function(buf[7]) {
            Ok((function, is_exception)) => Ok(
                Head { tid, pid, length, uid, function, version: Version::Tcp, is_exception },
            ),
            Err(error) => Err(error),
        }
    }

    /// Reads the head of an RTU frame from the first two bytes of `buf`.
    pub fn rtu_try_from(buf: &[u8]) -> (head: Result<Head, CodecError>)
        ensures
            head == rtu_head(buf@),
    {
        if buf.len() < 2 {
            return Err(CodecError::IncompleteFrame);
        }
        let uid: u8 = buf[0];
        match get_function(buf[1]) {
            Ok((function, is_exception)) => Ok(
                Head {
                    tid: 0,
                    pid: 0,
                    length: 0,
                    uid,
                    function,
                    version: Version::Rtu,
                    is_exception,
                },
            ),
            Err(error) => Err(error),
        }
    }
}

impl ReadCoilsRequest {
    /// The body that four bytes make: two words.
    pub open spec fn parse(bytes: Seq<u8>) -> Result<ReadCoilsRequest, CodecError> {
        if bytes.len() == 4 {
            Ok(
                ReadCoilsRequest {
                    first_address: word_at(bytes, 0),
                    coils_number: word_at(bytes, 2),
                },
            )
        } else {
            Err(CodecError::InvalidLength)
        }
    }

    /// Reads the body from the bytes that carry it.
    pub fn from_bytes(buf: &[u8]) -> (body: Result<ReadCoilsRequest, CodecError>)
        ensures
            body == ReadCoilsRequest::parse(buf@),
    {
        if buf.len() != 4 {
            return Err(CodecError::InvalidLength);
        }
        Ok(ReadCoilsRequest { first_address: read_word(buf, 0), coils_number: read_word(buf, 2) })
    }
}

impl ReadDiscreteInputsRequest {
    /// The body that four bytes make: two words.
    pub open spec fn parse(bytes: Seq<u8>) -> Result<ReadDiscreteInputsRequest, CodecError> {
        if bytes.len() == 4 {
            Ok(
                ReadDiscreteInputsRequest {
                    first_address: word_at(bytes, 0),
                    discrete_inputs_number: word_at(bytes, 2),
                },
            )
        } else {
            Err(CodecError::InvalidLength)
        }
    }

    /// Reads the body from the bytes that carry it.
    pub fn from_bytes(buf: &[u8]) -> (body: Result<ReadDiscreteInputsRequest, CodecError>)
        ensures
            body == ReadDiscreteInputsRequest::parse(buf@),
    {
        if buf.len() != 4 {
            return Err(CodecError::InvalidLength);
        }
        Ok(
            ReadDiscreteInputsRequest {
                first_address: read_word(buf, 0),
                discrete_inputs_number: read_word(buf, 2),
            },
        )
    }
}

impl ReadMultipleHoldingRegistersRequest {
    /// The body that four bytes make: two words.
    pub open spec fn parse(
        bytes: Seq<u8>,
    ) -> Result<ReadMultipleHoldingRegistersRequest, CodecError> {
        if bytes.len() == 4 {
            Ok(
                ReadMultipleHoldingRegistersRequest {
                    first_address: word_at(bytes, 0),
                    registers_number: word_at(bytes, 2),
                },
            )
        } else {
            Err(CodecError::InvalidLength)
        }
    }

    /// Reads the body from the bytes that carry it.
    pub fn from_bytes(buf: &[u8]) -> (body: Result<ReadMultipleHoldingRegistersRequest, CodecError>)
        ensures
            body == ReadMultipleHoldingRegistersRequest::parse(buf@),
    {
        if buf.len() != 4 {
            return Err(CodecError::InvalidLength);
        }
        Ok(
            ReadMultipleHoldingRegistersRequest {
                first_address: read_word(buf, 0),
                registers_number: read_word(buf, 2),
            },
        )
    }
}

impl ReadInputRegistersRequest {
    /// The body that four bytes make: two words.
    pub open spec fn parse(bytes: Seq<u8>) -> Result<ReadInputRegistersRequest, CodecError> {
        if bytes.len() == 4 {
            Ok(
                ReadInputRegistersRequest {
                    first_address: word_at(bytes, 0),
                    registers_number: word_at(bytes, 2),
                },
            )
        } else {
            Err(CodecError::InvalidLength)
        }
    }

    /// Reads the body from the bytes that carry it.
    pub fn from_bytes(buf: &[u8]) -> (body: Result<ReadInputRegistersRequest, CodecError>)
        ensures
            body == ReadInputRegistersRequest::parse(buf@),
    {
        if buf.len() != 4 {
            return Err(CodecError::InvalidLength);
        }
        Ok(
            ReadInputRegistersRequest {
                first_address: read_word(buf, 0),
                registers_number: read_word(buf, 2),
            },
        )
    }
}

impl WriteSingleCoilRequest {
    /// The body that four bytes make: two words.
    pub open spec fn parse(bytes: Seq<u8>) -> Result<WriteSingleCoilRequest, CodecError> {
        if bytes.len() == 4 {
            Ok(WriteSingleCoilRequest { coil_address: word_at(bytes, 0), value: word_at(bytes, 2) })
        } else {
            Err(CodecError::InvalidLength)
        }
    }

    /// Reads the body from the bytes that carry it.
    pub fn from_bytes(buf: &[u8]) -> (body: Result<WriteSingleCoilRequest, CodecError>)
        ensures
            body == WriteSingleCoilRequest::parse(buf@),
    {
        if buf.len() != 4 {
            return Err(CodecError::InvalidLength);
        }
        Ok(WriteSingleCoilRequest { coil_address: read_word(buf, 0), value: read_word(buf, 2) })
    }
}

impl WriteSingleHoldingRegisterRequest {
    /// The body that four bytes make: two words.
    pub open spec fn parse(
        bytes: Seq<u8>,
    ) -> Result<WriteSingleHoldingRegisterRequest, CodecError> {
        if bytes.len() == 4 {
            Ok(
                WriteSingleHoldingRegisterRequest {
                    register_address: word_at(bytes, 0),
                    value: word_at(bytes, 2),
                },
            )
        } else {
            Err(CodecError::InvalidLength)
        }
    }

    /// Reads the body from the bytes that carry it.
    pub fn from_bytes(buf: &[u8]) -> (body: Result<WriteSingleHoldingRegisterRequest, CodecError>)
        ensures
            body == WriteSingleHoldingRegisterRequest::parse(buf@),
    {
        if buf.len() != 4 {
            return Err(CodecError::InvalidLength);
        }
        Ok(
            WriteSingleHoldingRegisterRequest {
                register_address: read_word(buf, 0),
                value: read_word(buf, 2),
            },
        )
    }
}

impl WriteMultipleCoilsRequestView {
    /// The body that bytes make: two words, a byte count, and as many value
    /// bytes as it says, with nothing behind them.
    pub open spec fn parse(bytes: Seq<u8>) -> Result<WriteMultipleCoilsRequestView, CodecError> {
        if bytes.len() >= 5 && bytes.len() == 5 + bytes[4] {
            Ok(
                WriteMultipleCoilsRequestView {
                    first_address: word_at(bytes, 0),
                    coils_number: word_at(bytes, 2),
                    bytes_number: bytes[4],
                    values: bytes.skip(5),
                },
            )
        } else {
            Err(CodecError::InvalidLength)
        }
    }
}

impl WriteMultipleCoilsRequest {
    /// Reads the body from the bytes that carry it.
    pub fn from_bytes(buf: &[u8]) -> (body: Result<WriteMultipleCoilsRequest, CodecError>)
        ensures
            reads_as(body, WriteMultipleCoilsRequestView::parse(buf@)),
    {
        if buf.len() < 5 || buf.len() - 5 != buf[4] as usize {
            return Err(CodecError::InvalidLength);
        }
        let values = slice_to_vec(slice_subrange(buf, 5, buf.len()));
        assert(values@ =~= buf@.skip(5));
        Ok(
            WriteMultipleCoilsRequest {
                first_address: read_word(buf, 0),
                coils_number: read_word(buf, 2),
                bytes_number: buf[4],
                values,
            },
        )
    }
}

impl WriteMultipleHoldingRegistersRequestView {
    /// The body that bytes make: two words, a byte count, and as many value
    /// bytes as it says, with nothing behind them.
    pub open spec fn parse(
        bytes: Seq<u8>,
    ) -> Result<WriteMultipleHoldingRegistersRequestView, CodecError> {
        if bytes.len() >= 5 && bytes.len() == 5 + bytes[4] {
            Ok(
                WriteMultipleHoldingRegistersRequestView {
                    first_address: word_at(bytes, 0),
                    registers_number: word_at(bytes, 2),
                    bytes_number: bytes[4],
                    values: bytes.skip(5),
                },
            )
        } else {
            Err(CodecError::InvalidLength)
        }
    }
}

impl WriteMultipleHoldingRegistersRequest {
    /// Reads the body from the bytes that carry it.
    pub fn from_bytes(
        buf: &[u8],
    ) -> (body: Result<WriteMultipleHoldingRegistersRequest, CodecError>)
        ensures
            reads_as(body, WriteMultipleHoldingRegistersRequestView::parse(buf@)),
    {
        if buf.len() < 5 || buf.len() - 5 != buf[4] as usize {
            return Err(CodecError::InvalidLength);
        }
        let values = slice_to_vec(slice_subrange(buf, 5, buf.len()));
        assert(values@ =~= buf@.skip(5));
        Ok(
            WriteMultipleHoldingRegistersRequest {
                first_address: read_word(buf, 0),
                registers_number: read_word(buf, 2),
                bytes_number: buf[4],
                values,
            },
        )
    }
}

impl ReadCoilsResponseView {
    /// The body that bytes make: a byte count, and as many value bytes as it
    /// says, with nothing behind them.
    pub open spec fn parse(bytes: Seq<u8>) -> Result<ReadCoilsResponseView, CodecError> {
        if bytes.len() >= 1 && bytes.len() == 1 + bytes[0] {
            Ok(ReadCoilsResponseView { bytes_number: bytes[0], values: bytes.skip(1) })
        } else {
            Err(CodecError::InvalidLength)
        }
    }
}

impl ReadCoilsResponse {
    /// Reads the body from the bytes that carry it.
    pub fn from_bytes(buf: &[u8]) -> (body: Result<ReadCoilsResponse, CodecError>)
        ensures
            reads_as(body, ReadCoilsResponseView::parse(buf@)),
    {
        if buf.len() < 1 || buf.len() - 1 != buf[0] as usize {
            return Err(CodecError::InvalidLength);
        }
        let values = slice_to_vec(slice_subrange(buf, 1, buf.len()));
        assert(values@ =~= buf@.skip(1));
        Ok(ReadCoilsResponse { bytes_number: buf[0], values })
    }
}

impl ReadDiscreteInputsResponseView {
    /// The body that bytes make: a byte count, and as many value bytes as it
    /// says, with nothing behind them.
    pub open spec fn parse(bytes: Seq<u8>) -> Result<ReadDiscreteInputsResponseView, CodecError> {
        if bytes.len() >= 1 && bytes.len() == 1 + bytes[0] {
            Ok(ReadDiscreteInputsResponseView { bytes_number: bytes[0], values: bytes.skip(1) })
        } else {
            Err(CodecError::InvalidLength)
        }
    }
}

impl ReadDiscreteInputsResponse {
    /// Reads the body from the bytes that carry it.
    pub fn from_bytes(buf: &[u8]) -> (body: Result<ReadDiscreteInputsResponse, CodecError>)
        ensures
            reads_as(body, ReadDiscreteInputsResponseView::parse(buf@)),
    {
        if buf.len() < 1 || buf.len() - 1 != buf[0] as usize {
            return Err(CodecError::InvalidLength);
        }
        let values = slice_to_vec(slice_subrange(buf, 1, buf.len()));
        assert(values@ =~= buf@.skip(1));
        Ok(ReadDiscreteInputsResponse { bytes_number: buf[0], values })
    }
}

impl ReadMultipleHoldingRegistersResponseView {
    /// The body that bytes make: a byte count, and as many value bytes as it
    /// says, with nothing behind them.
    pub open spec fn parse(
        bytes: Seq<u8>,
    ) -> Result<ReadMultipleHoldingRegistersResponseView, CodecError> {
        if bytes.len() >= 1 && bytes.len() == 1 + bytes[0] {
            Ok(
                ReadMultipleHoldingRegistersResponseView {
                    bytes_number: bytes[0],
                    values: bytes.skip(1),
                },
            )
        } else {
            Err(CodecError::InvalidLength)
        }
    }
}

impl ReadMultipleHoldingRegistersResponse {
    /// Reads the body from the bytes that carry it.
    pub fn from_bytes(
        buf: &[u8],
    ) -> (body: Result<ReadMultipleHoldingRegistersResponse, CodecError>)
        ensures
            reads_as(body, ReadMultipleHoldingRegistersResponseView::parse(buf@)),
    {
        if buf.len() < 1 || buf.len() - 1 != buf[0] as usize {
            return Err(CodecError::InvalidLength);
        }
        let values = slice_to_vec(slice_subrange(buf, 1, buf.len()));
        assert(values@ =~= buf@.skip(1));
        Ok(ReadMultipleHoldingRegistersResponse { bytes_number: buf[0], values })
    }
}

impl ReadInputRegistersResponseView {
    /// The body that bytes make: a byte count, and as many value bytes as it
    /// says, with nothing behind them.
    pub open spec fn parse(bytes: Seq<u8>) -> Result<ReadInputRegistersResponseView, CodecError> {
        if bytes.len() >= 1 && bytes.len() == 1 + bytes[0] {
            Ok(ReadInputRegistersResponseView { bytes_number: bytes[0], values: bytes.skip(1) })
        } else {
            Err(CodecError::InvalidLength)
        }
    }
}

impl ReadInputRegistersResponse {
    /// Reads the body from the bytes that carry it.
    pub fn from_bytes(buf: &[u8]) -> (body: Result<ReadInputRegistersResponse, CodecError>)
        ensures
            reads_as(body, ReadInputRegistersResponseView::parse(buf@)),
    {
        if buf.len() < 1 || buf.len() - 1 != buf[0] as usize {
            return Err(CodecError::InvalidLength);
        }
        let values = slice_to_vec(slice_subrange(buf, 1, buf.len()));
        assert(values@ =~= buf@.skip(1));
        Ok(ReadInputRegistersResponse { bytes_number: buf[0], values })
    }
}

impl WriteSingleCoilResponse {
    /// The body that four bytes make: two words.
    pub open spec fn parse(bytes: Seq<u8>) -> Result<WriteSingleCoilResponse, CodecError> {
        if bytes.len() == 4 {
            Ok(
                WriteSingleCoilResponse {
                    coil_address: word_at(bytes, 0),
                    value: word_at(bytes, 2),
                },
            )
        } else {
            Err(CodecError::InvalidLength)
        }
    }

    /// Reads the body from the bytes that carry it.
    pub fn from_bytes(buf: &[u8]) -> (body: Result<WriteSingleCoilResponse, CodecError>)
        ensures
            body == WriteSingleCoilResponse::parse(buf@),
    {
        if buf.len() != 4 {
            return Err(CodecError::InvalidLength);
        }
        Ok(WriteSingleCoilResponse { coil_address: read_word(buf, 0), value: read_word(buf, 2) })
    }
}

impl WriteSingleHoldingRegisterResponse {
    /// The body that four bytes make: two words.
    pub open spec fn parse(
        bytes: Seq<u8>,
    ) -> Result<WriteSingleHoldingRegisterResponse, CodecError> {
        if bytes.len() == 4 {
            Ok(
                WriteSingleHoldingRegisterResponse {
                    register_address: word_at(bytes, 0),
                    value: word_at(bytes, 2),
                },
            )
        } else {
            Err(CodecError::InvalidLength)
        }
    }

    /// Reads the body from the bytes that carry it.
    pub fn from_bytes(buf: &[u8]) -> (body: Result<WriteSingleHoldingRegisterResponse, CodecError>)
        ensures
            body == WriteSingleHoldingRegisterResponse::parse(buf@),
    {
        if buf.len() != 4 {
            return Err(CodecError::InvalidLength);
        }
        Ok(
            WriteSingleHoldingRegisterResponse {
                register_address: read_word(buf, 0),
                value: read_word(buf, 2),
            },
        )
    }
}

impl WriteMultipleCoilsResponse {
    /// The body that four bytes make: two words.
    pub open spec fn parse(bytes: Seq<u8>) -> Result<WriteMultipleCoilsResponse, CodecError> {
        if bytes.len() == 4 {
            Ok(
                WriteMultipleCoilsResponse {
                    first_address: word_at(bytes, 0),
                    coils_number: word_at(bytes, 2),
                },
            )
        } else {
            Err(CodecError::InvalidLength)
        }
    }

    /// Reads the body from the bytes that carry it.
    pub fn from_bytes(buf: &[u8]) -> (body: Result<WriteMultipleCoilsResponse, CodecError>)
        ensures
            body == WriteMultipleCoilsResponse::parse(buf@),
    {
        if buf.len() != 4 {
            return Err(CodecError::InvalidLength);
        }
        Ok(
            WriteMultipleCoilsResponse {
                first_address: read_word(buf, 0),
                coils_number: read_word(buf, 2),
            },
        )
    }
}

impl WriteMultipleHoldingRegistersResponse {
    /// The body that four bytes make: two words.
    pub open spec fn parse(
        bytes: Seq<u8>,
    ) -> Result<WriteMultipleHoldingRegistersResponse, CodecError> {
        if bytes.len() == 4 {
            Ok(
                WriteMultipleHoldingRegistersResponse {
                    first_address: word_at(bytes, 0),
                    registers_number: word_at(bytes, 2),
                },
            )
        } else {
            Err(CodecError::InvalidLength)
        }
    }

    /// Reads the body from the bytes that carry it.
    pub fn from_bytes(
        buf: &[u8],
    ) -> (body: Result<WriteMultipleHoldingRegistersResponse, CodecError>)
        ensures
            body == WriteMultipleHoldingRegistersResponse::parse(buf@),
    {
        if buf.len() != 4 {
            return Err(CodecError::InvalidLength);
        }
        Ok(
            WriteMultipleHoldingRegistersResponse {
                first_address: read_word(buf, 0),
                registers_number: read_word(buf, 2),
            },
        )
    }
}

impl ExceptionResponse {
    /// The body that one byte makes: the exception that it stands for.
    pub open spec fn parse(bytes: Seq<u8>) -> Result<ExceptionResponse, CodecError> {
        if bytes.len() == 1 {
            match Exception::of_code(bytes[0]) {
                Some(exception) => Ok(ExceptionResponse { exception }),
                None => Err(CodecError::UnrecognizedExceptionCode(bytes[0])),
            }
        } else {
            Err(CodecError::InvalidLength)
        }
    }

    /// Reads the body from the byte that carries it.
    pub fn from_bytes(buf: &[u8]) -> (body: Result<ExceptionResponse, CodecError>)
        ensures
            body == ExceptionResponse::parse(buf@),
    {
        if buf.len() != 1 {
            return Err(CodecError::InvalidLength);
        }
        match Exception::try_from(buf[0]) {
            Ok(exception) => Ok(ExceptionResponse { exception }),
            Err(error) => Err(error),
        }
    }
}

/// Whether what was read is what was to be read: the same error, or a value
/// that holds what the expected one holds.
pub open spec fn reads_as<T: View>(read: Result<T, CodecError>, expected: Result<T::V, CodecError>)
    -> bool {
    match expected {
        Ok(view) => read matches Ok(value) && value@ == view,
        Err(error) => read matches Err(e) && e == error,
    }
}

/// The request that a head and the bytes of a body make: the body is read
/// as the function of the head lays it out.
pub open spec fn request_of(head: Head, body: Seq<u8>) -> Result<RequestView, CodecError> {
    match head.function {
        Function::ReadCoils => match ReadCoilsRequest::parse(body) {
            Ok(read) => Ok(RequestView::ReadCoils(head, read)),
            Err(error) => Err(error),
        },
        Function::ReadDiscreteInputs => match ReadDiscreteInputsRequest::parse(body) {
            Ok(read) => Ok(RequestView::ReadDiscreteInputs(head, read)),
            Err(error) => Err(error),
        },
        Function::ReadMultipleHoldingRegisters => {
            match ReadMultipleHoldingRegistersRequest::parse(body) {
                Ok(read) => Ok(RequestView::ReadMultipleHoldingRegisters(head, read)),
                Err(error) => Err(error),
            }
        },
        Function::ReadInputRegisters => match ReadInputRegistersRequest::parse(body) {
            Ok(read) => Ok(RequestView::ReadInputRegisters(head, read)),
            Err(error) => Err(error),
        },
        Function::WriteSingleCoil => match WriteSingleCoilRequest::parse(body) {
            Ok(read) => Ok(RequestView::WriteSingleCoil(head, read)),
            Err(error) => Err(error),
        },
        Function::WriteSingleHoldingRegister => {
            match WriteSingleHoldingRegisterRequest::parse(body) {
                Ok(read) => Ok(RequestView::WriteSingleHoldingRegister(head, read)),
                Err(error) => Err(error),
            }
        },
        Function::WriteMultipleCoils => match WriteMultipleCoilsRequestView::parse(body) {
            Ok(read) => Ok(RequestView::WriteMultipleCoils(head, read)),
            Err(error) => Err(error),
        },
        Function::WriteMultipleHoldingRegisters => {
            match WriteMultipleHoldingRegistersRequestView::parse(body) {
                Ok(read) => Ok(RequestView::WriteMultipleHoldingRegisters(head, read)),
                Err(error) => Err(error),
            }
        },
    }
}

/// The response that a head and the bytes of a body make: the body is read
/// as an exception where the head reports one, and else as the function of
/// the head lays it out.
pub open spec fn response_of(head: Head, body: Seq<u8>) -> Result<ResponseView, CodecError> {
    if head.is_exception {
        match ExceptionResponse::parse(body) {
            Ok(read) => Ok(ResponseView::Exception(head, read)),
            Err(error) => Err(error),
        }
    } else {
        match head.function {
            Function::ReadCoils => match ReadCoilsResponseView::parse(body) {
                Ok(read) => Ok(ResponseView::ReadCoils(head, read)),
                Err(error) => Err(error),
            },
            Function::ReadDiscreteInputs => match ReadDiscreteInputsResponseView::parse(body) {
                Ok(read) => Ok(ResponseView::ReadDiscreteInputs(head, read)),
                Err(error) => Err(error),
            },
            Function::ReadMultipleHoldingRegisters => {
                match ReadMultipleHoldingRegistersResponseView::parse(body) {
                    Ok(read) => Ok(ResponseView::ReadMultipleHoldingRegisters(head, read)),
                    Err(error) => Err(error),
                }
            },
            Function::ReadInputRegisters => match ReadInputRegistersResponseView::parse(body) {
                Ok(read) => Ok(ResponseView::ReadInputRegisters(head, read)),
                Err(error) => Err(error),
            },
            Function::WriteSingleCoil => match WriteSingleCoilResponse::parse(body) {
                Ok(read) => Ok(ResponseView::WriteSingleCoil(head, read)),
                Err(error) => Err(error),
            },
            Function::WriteSingleHoldingRegister => {
                match WriteSingleHoldingRegisterResponse::parse(body) {
                    Ok(read) => Ok(ResponseView::WriteSingleHoldingRegister(head, read)),
                    Err(error) => Err(error),
                }
            },
            Function::WriteMultipleCoils => match WriteMultipleCoilsResponse::parse(body) {
                Ok(read) => Ok(ResponseView::WriteMultipleCoils(head, read)),
                Err(error) => Err(error),
            },
            Function::WriteMultipleHoldingRegisters => {
                match WriteMultipleHoldingRegistersResponse::parse(body) {
                    Ok(read) => Ok(ResponseView::WriteMultipleHoldingRegisters(head, read)),
                    Err(error) => Err(error),
                }
            },
        }
    }
}

/// Makes the request of a head and the bytes of its body.
pub fn get_request(src: &[u8], head: Head) -> (request: Result<Request, CodecError>)
    ensures
        reads_as(request, request_of(head, src@)),
{
    match head.function {
        Function::ReadCoils => match ReadCoilsRequest::from_bytes(src) {
            Ok(body) => Ok(Request::ReadCoils(head, body)),
            Err(error) => Err(error),
        },
        Function::ReadDiscreteInputs => match ReadDiscreteInputsRequest::from_bytes(src) {
            Ok(body) => Ok(Request::ReadDiscreteInputs(head, body)),
            Err(error) => Err(error),
        },
        Function::ReadMultipleHoldingRegisters => {
            match ReadMultipleHoldingRegistersRequest::from_bytes(src) {
                Ok(body) => Ok(Request::ReadMultipleHoldingRegisters(head, body)),
                Err(error) => Err(error),
            }
        },
        Function::ReadInputRegisters => match ReadInputRegistersRequest::from_bytes(src) {
            Ok(body) => Ok(Request::ReadInputRegisters(head, body)),
            Err(error) => Err(error),
        },
        Function::WriteSingleCoil => match WriteSingleCoilRequest::from_bytes(src) {
            Ok(body) => Ok(Request::WriteSingleCoil(head, body)),
            Err(error) => Err(error),
        },
        Function::WriteSingleHoldingRegister => {
            match WriteSingleHoldingRegisterRequest::from_bytes(src) {
                Ok(body) => Ok(Request::WriteSingleHoldingRegister(head, body)),
                Err(error) => Err(error),
            }
        },
        Function::WriteMultipleCoils => match WriteMultipleCoilsRequest::from_bytes(src) {
            Ok(body) => Ok(Request::WriteMultipleCoils(head, body)),
            Err(error) => Err(error),
        },
        Function::WriteMultipleHoldingRegisters => {
            match WriteMultipleHoldingRegistersRequest::from_bytes(src) {
                Ok(body) => Ok(Request::WriteMultipleHoldingRegisters(head, body)),
                Err(error) => Err(error),
            }
        },
    }
}

/// Makes the response of a head and the bytes of its body.
pub fn get_response(src: &[u8], head: Head) -> (response: Result<Response, CodecError>)
    ensures
        reads_as(response, response_of(head, src@)),
{
    if head.is_exception {
        return match ExceptionResponse::from_bytes(src) {
            Ok(body) => Ok(Response::Exception(head, body)),
            Err(error) => Err(error),
        };
    }
    match head.function {
        Function::ReadCoils => match ReadCoilsResponse::from_bytes(src) {
            Ok(body) => Ok(Response::ReadCoils(head, body)),
            Err(error) => Err(error),
        },
        Function::ReadDiscreteInputs => match ReadDiscreteInputsResponse::from_bytes(src) {
            Ok(body) => Ok(Response::ReadDiscreteInputs(head, body)),
            Err(error) => Err(error),
        },
        Function::ReadMultipleHoldingRegisters => {
            match ReadMultipleHoldingRegistersResponse::from_bytes(src) {
                Ok(body) => Ok(Response::ReadMultipleHoldingRegisters(head, body)),
                Err(error) => Err(error),
            }
        },
        Function::ReadInputRegisters => match ReadInputRegistersResponse::from_bytes(src) {
            Ok(body) => Ok(Response::ReadInputRegisters(head, body)),
            Err(error) => Err(error),
        },
        Function::WriteSingleCoil => match WriteSingleCoilResponse::from_bytes(src) {
            Ok(body) => Ok(Response::WriteSingleCoil(head, body)),
            Err(error) => Err(error),
        },
        Function::WriteSingleHoldingRegister => {
            match WriteSingleHoldingRegisterResponse::from_bytes(src) {
                Ok(body) => Ok(Response::WriteSingleHoldingRegister(head, body)),
                Err(error) => Err(error),
            }
        },
        Function::WriteMultipleCoils => match WriteMultipleCoilsResponse::from_bytes(src) {
            Ok(body) => Ok(Response::WriteMultipleCoils(head, body)),
            Err(error) => Err(error),
        },
        Function::WriteMultipleHoldingRegisters => {
            match WriteMultipleHoldingRegistersResponse::from_bytes(src) {
                Ok(body) => Ok(Response::WriteMultipleHoldingRegisters(head, body)),
                Err(error) => Err(error),
            }
        },
    }
}

/// Whether an answer of a decoder says what the bytes at the front of the
/// buffer are: `Ok(None)` for a frame that has not arrived whole, the frame,
/// or the error.
pub open spec fn answers<T: View>(answer: Result<Option<T>, CodecError>, decoded: Decoded<T::V>)
    -> bool {
    match decoded {
        Decoded::Incomplete => answer matches Ok(None),
        Decoded::Frame { frame, .. } => answer matches Ok(Some(value)) && value@ == frame,
        Decoded::Rejected { error, .. } => answer matches Err(e) && e == error,
    }
}

/// What a server makes of the bytes `buf` in TCP framing.
///
/// Eight bytes make the head. A function byte that stands for no function
/// rejects the eight bytes, and so does a length field under 2. The length
/// field, less the 2 for unit identifier and function, is the number of
/// body bytes; the frame is complete when they are there. A body that does
/// not fit the layout of the function rejects the frame.
pub open spec fn tcp_request(buf: Seq<u8>) -> Decoded<RequestView> {
    match tcp_head(buf) {
        Err(CodecError::IncompleteFrame) => Decoded::Incomplete,
        Err(error) => Decoded::Rejected { error, consumed: 8 },
        Ok(head) => {
            let end = 6 + head.length;
            if head.length < 2 {
                Decoded::Rejected { error: CodecError::InvalidLength, consumed: 8 }
            } else if buf.len() < end {
                Decoded::Incomplete
            } else {
                match request_of(head, buf.subrange(8, end)) {
                    Ok(frame) => Decoded::Frame { frame, consumed: end as nat },
                    Err(error) => Decoded::Rejected { error, consumed: end as nat },
                }
            }
        },
    }
}

/// What a client makes of the bytes `buf` in TCP framing: as a server does,
/// with the body read as that of a response.
pub open spec fn tcp_response(buf: Seq<u8>) -> Decoded<ResponseView> {
    match tcp_head(buf) {
        Err(CodecError::IncompleteFrame) => Decoded::Incomplete,
        Err(error) => Decoded::Rejected { error, consumed: 8 },
        Ok(head) => {
            let end = 6 + head.length;
            if head.length < 2 {
                Decoded::Rejected { error: CodecError::InvalidLength, consumed: 8 }
            } else if buf.len() < end {
                Decoded::Incomplete
            } else {
                match response_of(head, buf.subrange(8, end)) {
                    Ok(frame) => Decoded::Frame { frame, consumed: end as nat },
                    Err(error) => Decoded::Rejected { error, consumed: end as nat },
                }
            }
        },
    }
}

/// The number of body bytes of the RTU request that begins `buf`, where the
/// bytes that are there tell it: 4 for the reads and the single writes, and
/// for the multiple writes 5 more than the byte count at offset 6.
pub open spec fn rtu_request_body_len(function: Function, buf: Seq<u8>) -> Option<nat> {
    match function {
        Function::WriteMultipleCoils | Function::WriteMultipleHoldingRegisters => {
            if buf.len() > 6 {
                Some((buf[6] + 5) as nat)
            } else {
                None
            }
        },
        _ => Some(4),
    }
}

/// The number of body bytes of the RTU response that begins `buf`, where the
/// bytes that are there tell it: 1 for an exception, for the reads 1 more
/// than the byte count at offset 2, and 4 for the writes.
pub open spec fn rtu_response_body_len(head: Head, buf: Seq<u8>) -> Option<nat> {
    if head.is_exception {
        Some(1)
    } else {
        match head.function {
            Function::ReadCoils
            | Function::ReadDiscreteInputs
            | Function::ReadMultipleHoldingRegisters
            | Function::ReadInputRegisters => {
                if buf.len() > 2 {
                    Some((buf[2] + 1) as nat)
                } else {
                    None
                }
            },
            _ => Some(4),
        }
    }
}

/// What a server makes of the bytes `buf` in RTU framing.
///
/// Two bytes make the head. A function byte that stands for no function
/// rejects the two bytes. The frame is complete when the body, whose length
/// the function tells, and two bytes of CRC are there. A CRC that is not
/// that of head and body rejects the frame. The head of the request gets
/// the length field that a TCP head would have.
pub open spec fn rtu_request(buf: Seq<u8>) -> Decoded<RequestView> {
    match rtu_head(buf) {
        Err(CodecError::IncompleteFrame) => Decoded::Incomplete,
        Err(error) => Decoded::Rejected { error, consumed: 2 },
        Ok(head) => match rtu_request_body_len(head.function, buf) {
            None => Decoded::Incomplete,
            Some(len) => {
                let end: int = 2 + len as int;
                let received = crc::from_trailer(buf[end], buf[end + 1]);
                if buf.len() < end + 2 {
                    Decoded::Incomplete
                } else if crc::checksum(buf.take(end)) != received {
                    Decoded::Rejected {
                        error: CodecError::InvalidChecksum(received),
                        consumed: (end + 2) as nat,
                    }
                } else {
                    match request_of(
                        Head { length: (len + 2) as u16, ..head },
                        buf.subrange(2, end),
                    ) {
                        Ok(frame) => Decoded::Frame { frame, consumed: (end + 2) as nat },
                        Err(error) => Decoded::Rejected { error, consumed: (end + 2) as nat },
                    }
                }
            },
        },
    }
}

/// What a client makes of the bytes `buf` in RTU framing: as a server does,
/// with the length and the body of a response. A byte that stands for no
/// exception in the body of an exception rejects the frame, after the CRC
/// was found right.
pub open spec fn rtu_response(buf: Seq<u8>) -> Decoded<ResponseView> {
    match rtu_head(buf) {
        Err(CodecError::IncompleteFrame) => Decoded::Incomplete,
        Err(error) => Decoded::Rejected { error, consumed: 2 },
        Ok(head) => match rtu_response_body_len(head, buf) {
            None => Decoded::Incomplete,
            Some(len) => {
                let end: int = 2 + len as int;
                let received = crc::from_trailer(buf[end], buf[end + 1]);
                if buf.len() < end + 2 {
                    Decoded::Incomplete
                } else if crc::checksum(buf.take(end)) != received {
                    Decoded::Rejected {
                        error: CodecError::InvalidChecksum(received),
                        consumed: (end + 2) as nat,
                    }
                } else {
                    match response_of(
                        Head { length: (len + 2) as u16, ..head },
                        buf.subrange(2, end),
                    ) {
                        Ok(frame) => Decoded::Frame { frame, consumed: (end + 2) as nat },
                        Err(error) => Decoded::Rejected { error, consumed: (end + 2) as nat },
                    }
                }
            },
        },
    }
}

/// Reads the CRC that stands at `at` in `buf`, low byte first.
fn read_trailer(buf: &[u8], at: usize) -> (received: u16)
    requires
        at + 2 <= buf@.len(),
    ensures
        received == crc::from_trailer(buf@[at as int], buf@[at + 1]),
{
    let low: u8 = buf[at];
    let high: u8 = buf[at + 1];
    (high as u16) * 256 + (low as u16)
}

impl RtuClientCodec {
    /// Takes the response at the front of `src`, if one is there whole.
    ///
    /// `Ok(None)` asks for more bytes and leaves `src` as it is. A response
    /// leaves `src` without the bytes of its frame. An error leaves `src`
    /// without the bytes that were read.
    pub fn decode(&mut self, src: &mut BytesMut) -> (answer: Result<Option<Response>, CodecError>)
        ensures
            answers(answer, rtu_response(bytes_of(*old(src)))),
            bytes_of(*final(src)) == bytes_of(*old(src)).skip(
                rtu_response(bytes_of(*old(src))).consumed() as int,
            ),
    {
        let buf = peek(src);
        assert(buf@.skip(0) =~= buf@);
        if buf.len() < 2 {
            return Ok(None);
        }
        let mut head = match Head::rtu_try_from(buf) {
            Ok(head) => head,
            Err(error) => {
                advance(src, 2);
                return Err(error);
            },
        };
        let len: usize = if head.is_exception {
            1
        } else {
            match head.function {
                Function::ReadCoils
                | Function::ReadDiscreteInputs
                | Function::ReadMultipleHoldingRegisters
                | Function::ReadInputRegisters => {
                    if buf.len() < 3 {
                        return Ok(None);
                    }
                    buf[2] as usize + 1
                },
                Function::WriteSingleCoil
                | Function::WriteSingleHoldingRegister
                | Function::WriteMultipleCoils
                | Function::WriteMultipleHoldingRegisters => 4,
            }
        };
        if buf.len() - 2 < len + 2 {
            return Ok(None);
        }
        head.body_length(len as u16);
        let end: usize = 2 + len;
        let received: u16 = read_trailer(buf, end);
        assert(buf@.subrange(0, end as int) =~= buf@.take(end as int));
        if !crc::check(slice_subrange(buf, 0, end), received) {
            advance(src, end + 2);
            return Err(CodecError::InvalidChecksum(received));
        }
        let response = get_response(slice_subrange(buf, 2, end), head);
        advance(src, end + 2);
        match response {
            Ok(response) => Ok(Some(response)),
            Err(error) => Err(error),
        }
    }
}

impl RtuServerCodec {
    /// Takes the request at the front of `src`, if one is there whole.
    ///
    /// `Ok(None)` asks for more bytes and leaves `src` as it is. A request
    /// leaves `src` without the bytes of its frame. An error leaves `src`
    /// without the bytes that were read.
    pub fn decode(&mut self, src: &mut BytesMut) -> (answer: Result<Option<Request>, CodecError>)
        ensures
            answers(answer, rtu_request(bytes_of(*old(src)))),
            bytes_of(*final(src)) == bytes_of(*old(src)).skip(
                rtu_request(bytes_of(*old(src))).consumed() as int,
            ),
    {
        let buf = peek(src);
        assert(buf@.skip(0) =~= buf@);
        if buf.len() < 2 {
            return Ok(None);
        }
        let mut head = match Head::rtu_try_from(buf) {
            Ok(head) => head,
            Err(error) => {
                advance(src, 2);
                return Err(error);
            },
        };
        let len: usize = match head.function {
            Function::ReadCoils
            | Function::ReadDiscreteInputs
            | Function::ReadMultipleHoldingRegisters
            | Function::ReadInputRegisters
            | Function::WriteSingleCoil
            | Function::WriteSingleHoldingRegister => 4,
            Function::WriteMultipleCoils | Function::WriteMultipleHoldingRegisters => {
                if buf.len() < 7 {
                    return Ok(None);
                }
                buf[6] as usize + 5
            },
        };
        if buf.len() - 2 < len + 2 {
            return Ok(None);
        }
        head.body_length(len as u16);
        let end: usize = 2 + len;
        let received: u16 = read_trailer(buf, end);
        assert(buf@.subrange(0, end as int) =~= buf@.take(end as int));
        if !crc::check(slice_subrange(buf, 0, end), received) {
            advance(src, end + 2);
            return Err(CodecError::InvalidChecksum(received));
        }
        let request = get_request(slice_subrange(buf, 2, end), head);
        advance(src, end + 2);
        match request {
            Ok(request) => Ok(Some(request)),
            Err(error) => Err(error),
        }
    }
}

impl TcpClientCodec {
    /// Takes the response at the front of `src`, if one is there whole.
    ///
    /// `Ok(None)` asks for more bytes and leaves `src` as it is. A response
    /// leaves `src` without the bytes of its frame. An error leaves `src`
    /// without the bytes that were read.
    pub fn decode(&mut self, src: &mut BytesMut) -> (answer: Result<Option<Response>, CodecError>)
        ensures
            answers(answer, tcp_response(bytes_of(*old(src)))),
            bytes_of(*final(src)) == bytes_of(*old(src)).skip(
                tcp_response(bytes_of(*old(src))).consumed() as int,
            ),
    {
        let buf = peek(src);
        assert(buf@.skip(0) =~= buf@);
        if buf.len() < 8 {
            return Ok(None);
        }
        let head = match Head::tcp_try_from(buf) {
            Ok(head) => head,
            Err(error) => {
                advance(src, 8);
                return Err(error);
            },
        };
        if head.length < 2 {
            advance(src, 8);
            return Err(CodecError::InvalidLength);
        }
        let len: usize = head.length as usize - 2;
        if buf.len() - 8 < len {
            return Ok(None);
        }
        let end: usize = 8 + len;
        let response = get_response(slice_subrange(buf, 8, end), head);
        advance(src, end);
        match response {
            Ok(response) => Ok(Some(response)),
            Err(error) => Err(error),
        }
    }
}

impl TcpServerCodec {
    /// Takes the request at the front of `src`, if one is there whole.
    ///
    /// `Ok(None)` asks for more bytes and leaves `src` as it is. A request
    /// leaves `src` without the bytes of its frame. An error leaves `src`
    /// without the bytes that were read.
    pub fn decode(&mut self, src: &mut BytesMut) -> (answer: Result<Option<Request>, CodecError>)
        ensures
            answers(answer, tcp_request(bytes_of(*old(src)))),
            bytes_of(*final(src)) == bytes_of(*old(src)).skip(
                tcp_request(bytes_of(*old(src))).consumed() as int,
            ),
    {
        let buf = peek(src);
        assert(buf@.skip(0) =~= buf@);
        if buf.len() < 8 {
            return Ok(None);
        }
        let head = match Head::tcp_try_from(buf) {
            Ok(head) => head,
            Err(error) => {
                advance(src, 8);
                return Err(error);
            },
        };
        if head.length < 2 {
            advance(src, 8);
            return Err(CodecError::InvalidLength);
        }
        let len: usize = head.length as usize - 2;
        if buf.len() - 8 < len {
            return Ok(None);
        }
        let end: usize = 8 + len;
        let request = get_request(slice_subrange(buf, 8, end), head);
        advance(src, end);
        match request {
            Ok(request) => Ok(Some(request)),
            Err(error) => Err(error),
        }
    }
}

} // verus!
