//! What encoding and decoding have to do with each other.
//!
//! A frame that is well formed is read back from its bytes, whatever
//! follows them, and from no shorter beginning of them. What a decoder
//! accepts is well formed and encodes to the bytes that were taken. An RTU
//! frame with one byte changed is rejected for its checksum, as long as the
//! change leaves the frame its length.

use super::decoder::{
    function_of_byte, request_of, response_of, rtu_head, rtu_request, rtu_request_body_len,
    rtu_response, rtu_response_body_len, tcp_head, tcp_request, tcp_response,
};
use super::{CodecError, Decoded};
use crate::frame::request::RequestView;
use crate::frame::response::ResponseView;
use crate::frame::{Function, Head, Version};
use crate::util::crc;
use crate::util::word::{
    lemma_counted, lemma_counted_of_bytes, lemma_two_words, lemma_two_words_counted,
    lemma_two_words_counted_of_bytes, lemma_two_words_of_bytes, lemma_word_of_bytes,
    lemma_word_round_trip,
};
use vstd::prelude::*;

verus! {

/// The function byte of a head says the function and the exception flag of
/// the head.
pub proof fn lemma_function_byte_read(head: Head)
    ensures
        function_of_byte(head.function_byte()) == Ok::<(Function, bool), CodecError>(
            (head.function, head.is_exception),
        ),
{
}

/// What a function byte says, it is the function byte of.
pub proof fn lemma_function_byte_written(function_byte: u8, head: Head)
    requires
        function_of_byte(function_byte) == Ok::<(Function, bool), CodecError>(
            (head.function, head.is_exception),
        ),
    ensures
        head.function_byte() == function_byte,
{
}

/// A TCP head is read back from its bytes, whatever follows them.
pub proof fn lemma_tcp_head_read(head: Head, rest: Seq<u8>)
    requires
        head.version == Version::Tcp,
    ensures
        head.wire().len() == 8,
        tcp_head(head.wire() + rest) == Ok::<Head, CodecError>(head),
{
    lemma_function_byte_read(head);
    lemma_word_round_trip(head.tid);
    lemma_word_round_trip(head.pid);
    lemma_word_round_trip(head.length);
}

/// The first eight bytes of what a TCP head was read from are the bytes of
/// the head.
pub proof fn lemma_tcp_head_written(buf: Seq<u8>, head: Head)
    requires
        tcp_head(buf) == Ok::<Head, CodecError>(head),
    ensures
        head.version == Version::Tcp,
        buf.len() >= 8,
        head.wire() == buf.take(8),
{
    lemma_function_byte_written(buf[7], head);
    lemma_word_of_bytes(buf[0], buf[1]);
    lemma_word_of_bytes(buf[2], buf[3]);
    lemma_word_of_bytes(buf[4], buf[5]);
    assert(head.wire() =~= buf.take(8));
}

/// An RTU head is read back from its bytes, whatever follows them, but for
/// the three fields that the bytes do not carry.
pub proof fn lemma_rtu_head_read(head: Head, rest: Seq<u8>)
    requires
        head.version == Version::Rtu,
    ensures
        head.wire().len() == 2,
        rtu_head(head.wire() + rest) == Ok::<Head, CodecError>(
            Head { tid: 0, pid: 0, length: 0, ..head },
        ),
{
    lemma_function_byte_read(head);
}

/// The first two bytes of what an RTU head was read from are the bytes of
/// the head, whatever its length field is set to.
pub proof fn lemma_rtu_head_written(buf: Seq<u8>, head: Head, length: u16)
    requires
        rtu_head(buf) == Ok::<Head, CodecError>(head),
    ensures
        head.version == Version::Rtu,
        head.tid == 0,
        head.pid == 0,
        buf.len() >= 2,
        (Head { length, ..head }).wire() == buf.take(2),
{
    lemma_function_byte_written(buf[1], head);
    assert((Head { length, ..head }).wire() =~= buf.take(2));
}

/// Bytes in three parts: what lies behind the first part is the second,
/// and the first two parts are the beginning of the whole.
proof fn lemma_parts(first: Seq<u8>, second: Seq<u8>, rest: Seq<u8>)
    ensures
        first + second + rest == first + (second + rest),
        (first + second + rest).len() == first.len() + second.len() + rest.len(),
        (first + second + rest).subrange(
            first.len() as int,
            first.len() as int + second.len(),
        ) == second,
        (first + second + rest).take(first.len() as int + second.len()) == first + second,
        forall|i: int|
            0 <= i < first.len() + second.len() ==> (first + second + rest)[i] == (first
                + second)[i],
{
    let whole = first + second + rest;
    assert(whole =~= first + (second + rest));
    assert(whole.subrange(first.len() as int, first.len() as int + second.len()) =~= second);
    assert(whole.take(first.len() as int + second.len()) =~= first + second);
}

/// A beginning of bytes in two parts that reaches into the second part is
/// the first part and a beginning of the second.
proof fn lemma_beginning(first: Seq<u8>, second: Seq<u8>, given: int)
    requires
        first.len() <= given <= first.len() + second.len(),
    ensures
        (first + second).take(given) == first + second.take(given - first.len()),
{
    assert((first + second).take(given) =~= first + second.take(given - first.len()));
}

/// Bytes cut in two places: the beginning and the middle make the
/// beginning up to the second cut.
proof fn lemma_cuts(buf: Seq<u8>, from: int, to: int)
    requires
        0 <= from <= to <= buf.len(),
    ensures
        buf.take(from) + buf.subrange(from, to) == buf.take(to),
{
    assert(buf.take(from) + buf.subrange(from, to) =~= buf.take(to));
}

/// The body of a request is read back from its bytes.
pub proof fn lemma_request_body_read(frame: RequestView)
    requires
        frame.head().function == frame.function(),
        frame.body_wf(),
    ensures
        request_of(frame.head(), frame.body_wire()) == Ok::<RequestView, CodecError>(frame),
{
    match frame {
        RequestView::WriteMultipleCoils(_, written) => {
            lemma_two_words_counted(
                written.first_address,
                written.coils_number,
                written.bytes_number,
                written.values,
            );
        },
        RequestView::WriteMultipleHoldingRegisters(_, written) => {
            lemma_two_words_counted(
                written.first_address,
                written.registers_number,
                written.bytes_number,
                written.values,
            );
        },
        RequestView::ReadCoils(_, written) => {
            lemma_two_words(written.first_address, written.coils_number);
        },
        RequestView::ReadDiscreteInputs(_, written) => {
            lemma_two_words(written.first_address, written.discrete_inputs_number);
        },
        RequestView::ReadMultipleHoldingRegisters(_, written) => {
            lemma_two_words(written.first_address, written.registers_number);
        },
        RequestView::ReadInputRegisters(_, written) => {
            lemma_two_words(written.first_address, written.registers_number);
        },
        RequestView::WriteSingleCoil(_, written) => {
            lemma_two_words(written.coil_address, written.value);
        },
        RequestView::WriteSingleHoldingRegister(_, written) => {
            lemma_two_words(written.register_address, written.value);
        },
    }
}

/// The request that bytes make has the head that it was made with, a body
/// of the function that the head names, a right byte count, and the bytes
/// as its body on the wire.
pub proof fn lemma_request_body_written(head: Head, body: Seq<u8>, frame: RequestView)
    requires
        request_of(head, body) == Ok::<RequestView, CodecError>(frame),
    ensures
        frame.head() == head,
        frame.function() == head.function,
        frame.body_wf(),
        frame.body_wire() == body,
{
    match head.function {
        Function::WriteMultipleCoils | Function::WriteMultipleHoldingRegisters => {
            lemma_two_words_counted_of_bytes(body);
        },
        _ => {
            lemma_two_words_of_bytes(body);
        },
    }
}

/// The body of a response is read back from its bytes.
pub proof fn lemma_response_body_read(frame: ResponseView)
    requires
        frame.head().is_exception <==> frame is Exception,
        frame.head().function == frame.function(),
        frame.body_wf(),
    ensures
        response_of(frame.head(), frame.body_wire()) == Ok::<ResponseView, CodecError>(frame),
{
    match frame {
        ResponseView::ReadCoils(_, written) => {
            lemma_counted(written.bytes_number, written.values);
        },
        ResponseView::ReadDiscreteInputs(_, written) => {
            lemma_counted(written.bytes_number, written.values);
        },
        ResponseView::ReadMultipleHoldingRegisters(_, written) => {
            lemma_counted(written.bytes_number, written.values);
        },
        ResponseView::ReadInputRegisters(_, written) => {
            lemma_counted(written.bytes_number, written.values);
        },
        ResponseView::WriteSingleCoil(_, written) => {
            lemma_two_words(written.coil_address, written.value);
        },
        ResponseView::WriteSingleHoldingRegister(_, written) => {
            lemma_two_words(written.register_address, written.value);
        },
        ResponseView::WriteMultipleCoils(_, written) => {
            lemma_two_words(written.first_address, written.coils_number);
        },
        ResponseView::WriteMultipleHoldingRegisters(_, written) => {
            lemma_two_words(written.first_address, written.registers_number);
        },
        ResponseView::Exception(..) => {},
    }
}

/// The response that bytes make has the head that it was made with, is an
/// exception exactly where the head reports one, has a body of the function
/// that the head names, a right byte count, and the bytes as its body on
/// the wire.
pub proof fn lemma_response_body_written(head: Head, body: Seq<u8>, frame: ResponseView)
    requires
        response_of(head, body) == Ok::<ResponseView, CodecError>(frame),
    ensures
        frame.head() == head,
        head.is_exception <==> frame is Exception,
        frame.function() == head.function,
        frame.body_wf(),
        frame.body_wire() == body,
{
    if head.is_exception {
        assert(frame.body_wire() =~= body);
    } else {
        match head.function {
            Function::ReadCoils
            | Function::ReadDiscreteInputs
            | Function::ReadMultipleHoldingRegisters
            | Function::ReadInputRegisters => {
                lemma_counted_of_bytes(body);
            },
            _ => {
                lemma_two_words_of_bytes(body);
            },
        }
    }
}

/// In TCP framing a well-formed request is read back from its bytes,
/// whatever follows them, and exactly its bytes are taken.
pub proof fn lemma_tcp_request_round_trip(frame: RequestView, rest: Seq<u8>)
    requires
        frame.wf(),
        frame.head().version == Version::Tcp,
    ensures
        tcp_request(frame.wire() + rest) == (Decoded::Frame {
            frame,
            consumed: frame.wire().len(),
        }),
{
    let head = frame.head();
    let body = frame.body_wire();
    lemma_parts(head.wire(), body, rest);
    lemma_tcp_head_read(head, body + rest);
    lemma_request_body_read(frame);
}

/// In TCP framing no beginning of the bytes of a well-formed request that
/// falls short of them gives a frame or an error: the server waits.
pub proof fn lemma_tcp_request_needs_all(frame: RequestView, given: int)
    requires
        frame.wf(),
        frame.head().version == Version::Tcp,
        0 <= given < frame.wire().len(),
    ensures
        tcp_request(frame.wire().take(given)) == Decoded::<RequestView>::Incomplete,
{
    let head = frame.head();
    let body = frame.body_wire();
    lemma_tcp_head_read(head, Seq::empty());
    if given >= 8 {
        lemma_beginning(head.wire(), body, given);
        lemma_tcp_head_read(head, body.take(given - 8));
    }
}

/// In TCP framing what the server accepts is well formed, and its bytes
/// are the bytes that were taken.
pub proof fn lemma_tcp_request_sound(buf: Seq<u8>)
    ensures
        tcp_request(buf) matches Decoded::Frame { frame, consumed } ==> {
            &&& frame.wf()
            &&& frame.head().version == Version::Tcp
            &&& consumed <= buf.len()
            &&& frame.wire() == buf.take(consumed as int)
        },
{
    if let Decoded::Frame { frame, consumed } = tcp_request(buf) {
        let head = tcp_head(buf).unwrap();
        let end = 6 + head.length;
        lemma_tcp_head_written(buf, head);
        lemma_request_body_written(head, buf.subrange(8, end), frame);
        lemma_cuts(buf, 8, end);
    }
}

/// In TCP framing a well-formed response is read back from its bytes,
/// whatever follows them, and exactly its bytes are taken.
pub proof fn lemma_tcp_response_round_trip(frame: ResponseView, rest: Seq<u8>)
    requires
        frame.wf(),
        frame.head().version == Version::Tcp,
    ensures
        tcp_response(frame.wire() + rest) == (Decoded::Frame {
            frame,
            consumed: frame.wire().len(),
        }),
{
    let head = frame.head();
    let body = frame.body_wire();
    lemma_parts(head.wire(), body, rest);
    lemma_tcp_head_read(head, body + rest);
    lemma_response_body_read(frame);
}

/// In TCP framing no beginning of the bytes of a well-formed response that
/// falls short of them gives a frame or an error: the client waits.
pub proof fn lemma_tcp_response_needs_all(frame: ResponseView, given: int)
    requires
        frame.wf(),
        frame.head().version == Version::Tcp,
        0 <= given < frame.wire().len(),
    ensures
        tcp_response(frame.wire().take(given)) == Decoded::<ResponseView>::Incomplete,
{
    let head = frame.head();
    let body = frame.body_wire();
    lemma_tcp_head_read(head, Seq::empty());
    if given >= 8 {
        lemma_beginning(head.wire(), body, given);
        lemma_tcp_head_read(head, body.take(given - 8));
    }
}

/// In TCP framing what the client accepts is well formed, and its bytes
/// are the bytes that were taken.
pub proof fn lemma_tcp_response_sound(buf: Seq<u8>)
    ensures
        tcp_response(buf) matches Decoded::Frame { frame, consumed } ==> {
            &&& frame.wf()
            &&& frame.head().version == Version::Tcp
            &&& consumed <= buf.len()
            &&& frame.wire() == buf.take(consumed as int)
        },
{
    if let Decoded::Frame { frame, consumed } = tcp_response(buf) {
        let head = tcp_head(buf).unwrap();
        let end = 6 + head.length;
        lemma_tcp_head_written(buf, head);
        lemma_response_body_written(head, buf.subrange(8, end), frame);
        lemma_cuts(buf, 8, end);
    }
}

/// In RTU framing bytes that agree with the beginning of a well-formed
/// request tell the length of its body, or are too few to tell any.
proof fn lemma_rtu_request_body_len(frame: RequestView, buf: Seq<u8>)
    requires
        frame.wf(),
        frame.head().version == Version::Rtu,
        forall|i: int|
            0 <= i < buf.len() && i < frame.payload().len() ==> buf[i] == frame.payload()[i],
    ensures
        match rtu_request_body_len(frame.head().function, buf) {
            Some(len) => len == frame.body_wire().len(),
            None => buf.len() < frame.payload().len(),
        },
{
}

/// In RTU framing a well-formed request is read back from its bytes,
/// whatever follows them, and exactly its bytes are taken.
pub proof fn lemma_rtu_request_round_trip(frame: RequestView, rest: Seq<u8>)
    requires
        frame.wf(),
        frame.head().version == Version::Rtu,
    ensures
        rtu_request(frame.wire() + rest) == (Decoded::Frame {
            frame,
            consumed: frame.wire().len(),
        }),
{
    let head = frame.head();
    let body = frame.body_wire();
    let payload = frame.payload();
    let sum = crc::checksum(payload);
    let buf = frame.wire() + rest;
    let end = payload.len() as int;
    lemma_rtu_head_read(head, body + (crc::trailer(sum) + rest));
    lemma_parts(head.wire(), body, crc::trailer(sum) + rest);
    lemma_parts(payload, crc::trailer(sum), rest);
    lemma_rtu_request_body_len(frame, buf);
    crc::lemma_trailer_carries_crc(sum);
    assert(buf[end] == crc::trailer(sum)[0]);
    assert(buf[end + 1] == crc::trailer(sum)[1]);
    lemma_request_body_read(frame);
}

/// In RTU framing no beginning of the bytes of a well-formed request that
/// falls short of them, the two bytes of CRC included, gives a frame or an
/// error: the server waits.
pub proof fn lemma_rtu_request_needs_all(frame: RequestView, given: int)
    requires
        frame.wf(),
        frame.head().version == Version::Rtu,
        0 <= given < frame.wire().len(),
    ensures
        rtu_request(frame.wire().take(given)) == Decoded::<RequestView>::Incomplete,
{
    let head = frame.head();
    let body = frame.body_wire();
    let payload = frame.payload();
    let tail = crc::trailer(crc::checksum(payload));
    let buf = frame.wire().take(given);
    lemma_rtu_head_read(head, Seq::empty());
    if given >= 2 {
        lemma_parts(head.wire(), body, tail);
        lemma_beginning(head.wire(), body + tail, given);
        lemma_rtu_head_read(head, (body + tail).take(given - 2));
        lemma_rtu_request_body_len(frame, buf);
    }
}

/// In RTU framing what the server accepts is well formed, and its bytes
/// are the bytes that were taken.
pub proof fn lemma_rtu_request_sound(buf: Seq<u8>)
    ensures
        rtu_request(buf) matches Decoded::Frame { frame, consumed } ==> {
            &&& frame.wf()
            &&& frame.head().version == Version::Rtu
            &&& consumed <= buf.len()
            &&& frame.wire() == buf.take(consumed as int)
        },
{
    if let Decoded::Frame { frame, consumed } = rtu_request(buf) {
        let read = rtu_head(buf).unwrap();
        let end = consumed - 2;
        let head = Head { length: end as u16, ..read };
        lemma_rtu_head_written(buf, read, end as u16);
        lemma_request_body_written(head, buf.subrange(2, end), frame);
        lemma_cuts(buf, 2, end);
        crc::lemma_trailer_of_carried(buf[end], buf[end + 1]);
        assert(buf.subrange(end, end + 2) =~= seq![buf[end], buf[end + 1]]);
        lemma_cuts(buf, end, end + 2);
    }
}

/// In RTU framing a change of one byte of a request that the server
/// accepts is found by the checksum, where the changed bytes still begin
/// with a frame of the same length: one whose function byte stands for a
/// function and whose body takes as many bytes as before.
pub proof fn lemma_rtu_request_change_rejected(good: Seq<u8>, bad: Seq<u8>, at: int)
    requires
        rtu_request(good) is Frame,
        rtu_request(good).consumed() == good.len(),
        bad.len() == good.len(),
        0 <= at < good.len(),
        bad[at] != good[at],
        forall|i: int| 0 <= i < good.len() && i != at ==> bad[i] == good[i],
        rtu_head(bad) matches Ok(head)
            && rtu_request_body_len(head.function, bad) == Some((good.len() - 4) as nat),
    ensures
        rtu_request(bad) matches Decoded::Rejected { error, consumed } && error
            is InvalidChecksum && consumed == bad.len(),
{
    let end = good.len() - 2;
    let sent = crc::from_trailer(good[end], good[end + 1]);
    assert(crc::checksum(good.take(end)) == sent);
    if at < end {
        crc::lemma_single_byte_error_detected(good.take(end), bad.take(end), at);
    } else {
        assert(good.take(end) =~= bad.take(end));
    }
}

/// In RTU framing bytes that agree with the beginning of a well-formed
/// response tell the length of its body, or are too few to tell any.
proof fn lemma_rtu_response_body_len(frame: ResponseView, buf: Seq<u8>)
    requires
        frame.wf(),
        frame.head().version == Version::Rtu,
        forall|i: int|
            0 <= i < buf.len() && i < frame.payload().len() ==> buf[i] == frame.payload()[i],
    ensures
        match rtu_response_body_len(frame.head(), buf) {
            Some(len) => len == frame.body_wire().len(),
            None => buf.len() < frame.payload().len(),
        },
{
}

/// In RTU framing a well-formed response is read back from its bytes,
/// whatever follows them, and exactly its bytes are taken.
pub proof fn lemma_rtu_response_round_trip(frame: ResponseView, rest: Seq<u8>)
    requires
        frame.wf(),
        frame.head().version == Version::Rtu,
    ensures
        rtu_response(frame.wire() + rest) == (Decoded::Frame {
            frame,
            consumed: frame.wire().len(),
        }),
{
    let head = frame.head();
    let body = frame.body_wire();
    let payload = frame.payload();
    let sum = crc::checksum(payload);
    let buf = frame.wire() + rest;
    let end = payload.len() as int;
    lemma_rtu_head_read(head, body + (crc::trailer(sum) + rest));
    lemma_parts(head.wire(), body, crc::trailer(sum) + rest);
    lemma_parts(payload, crc::trailer(sum), rest);
    lemma_rtu_response_body_len(frame, buf);
    crc::lemma_trailer_carries_crc(sum);
    assert(buf[end] == crc::trailer(sum)[0]);
    assert(buf[end + 1] == crc::trailer(sum)[1]);
    lemma_response_body_read(frame);
}

/// In RTU framing no beginning of the bytes of a well-formed response that
/// falls short of them, the two bytes of CRC included, gives a frame or an
/// error: the client waits.
pub proof fn lemma_rtu_response_needs_all(frame: ResponseView, given: int)
    requires
        frame.wf(),
        frame.head().version == Version::Rtu,
        0 <= given < frame.wire().len(),
    ensures
        rtu_response(frame.wire().take(given)) == Decoded::<ResponseView>::Incomplete,
{
    let head = frame.head();
    let body = frame.body_wire();
    let payload = frame.payload();
    let tail = crc::trailer(crc::checksum(payload));
    let buf = frame.wire().take(given);
    lemma_rtu_head_read(head, Seq::empty());
    if given >= 2 {
        lemma_parts(head.wire(), body, tail);
        lemma_beginning(head.wire(), body + tail, given);
        lemma_rtu_head_read(head, (body + tail).take(given - 2));
        lemma_rtu_response_body_len(frame, buf);
    }
}

/// In RTU framing what the client accepts is well formed, and its bytes
/// are the bytes that were taken.
pub proof fn lemma_rtu_response_sound(buf: Seq<u8>)
    ensures
        rtu_response(buf) matches Decoded::Frame { frame, consumed } ==> {
            &&& frame.wf()
            &&& frame.head().version == Version::Rtu
            &&& consumed <= buf.len()
            &&& frame.wire() == buf.take(consumed as int)
        },
{
    if let Decoded::Frame { frame, consumed } = rtu_response(buf) {
        let read = rtu_head(buf).unwrap();
        let end = consumed - 2;
        let head = Head { length: end as u16, ..read };
        lemma_rtu_head_written(buf, read, end as u16);
        lemma_response_body_written(head, buf.subrange(2, end), frame);
        lemma_cuts(buf, 2, end);
        crc::lemma_trailer_of_carried(buf[end], buf[end + 1]);
        assert(buf.subrange(end, end + 2) =~= seq![buf[end], buf[end + 1]]);
        lemma_cuts(buf, end, end + 2);
    }
}

/// In RTU framing a change of one byte of a response that the client
/// accepts is found by the checksum, where the changed bytes still begin
/// with a frame of the same length: one whose function byte stands for a
/// function and whose body takes as many bytes as before.
pub proof fn lemma_rtu_response_change_rejected(good: Seq<u8>, bad: Seq<u8>, at: int)
    requires
        rtu_response(good) is Frame,
        rtu_response(good).consumed() == good.len(),
        bad.len() == good.len(),
        0 <= at < good.len(),
        bad[at] != good[at],
        forall|i: int| 0 <= i < good.len() && i != at ==> bad[i] == good[i],
        rtu_head(bad) matches Ok(head)
            && rtu_response_body_len(head, bad) == Some((good.len() - 4) as nat),
    ensures
        rtu_response(bad) matches Decoded::Rejected { error, consumed } && error
            is InvalidChecksum && consumed == bad.len(),
{
    let end = good.len() - 2;
    let sent = crc::from_trailer(good[end], good[end + 1]);
    assert(crc::checksum(good.take(end)) == sent);
    if at < end {
        crc::lemma_single_byte_error_detected(good.take(end), bad.take(end), at);
    } else {
        assert(good.take(end) =~= bad.take(end));
    }
}

/// The length field of a well-formed request tells how many bytes the frame
/// takes: 6 more than it says in TCP framing, where it counts all but the
/// first six, and 2 more in RTU framing, where it would count all but the
/// CRC.
pub proof fn lemma_request_wire_len(frame: RequestView)
    requires
        frame.wf(),
    ensures
        frame.wire().len() == match frame.head().version {
            Version::Tcp => 6 + frame.head().length,
            Version::Rtu => 2 + frame.head().length,
        },
{
}

/// The length field of a well-formed response tells how many bytes the
/// frame takes, as that of a request does.
pub proof fn lemma_response_wire_len(frame: ResponseView)
    requires
        frame.wf(),
    ensures
        frame.wire().len() == match frame.head().version {
            Version::Tcp => 6 + frame.head().length,
            Version::Rtu => 2 + frame.head().length,
        },
{
}

/// A decoder rejects bytes only for what its framing can get wrong. No
/// decoder rejects bytes as incomplete. In TCP framing nothing is rejected
/// for its checksum; in RTU framing nothing is rejected for its length. Only
/// a client rejects an exception that it does not recognise.
pub proof fn lemma_rejections(buf: Seq<u8>)
    ensures
        tcp_request(buf) matches Decoded::Rejected { error, .. } ==> error
            is InvalidFunctionCode || error is InvalidLength,
        tcp_response(buf) matches Decoded::Rejected { error, .. } ==> error
            is InvalidFunctionCode || error is InvalidLength || error
            is UnrecognizedExceptionCode,
        rtu_request(buf) matches Decoded::Rejected { error, .. } ==> error
            is InvalidFunctionCode || error is InvalidChecksum,
        rtu_response(buf) matches Decoded::Rejected { error, .. } ==> error
            is InvalidFunctionCode || error is InvalidChecksum || error
            is UnrecognizedExceptionCode,
{
}

} // verus!
