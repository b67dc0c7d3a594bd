use easy_modbus::frame::request::Request;
use easy_modbus::frame::response::Response;
use easy_modbus::frame::{Exception, Function, Head, Length, Version};
use easy_modbus::Frame;

fn request_head(request: &Request) -> Head {
    *request.head()
}

fn response_head(response: &Response) -> Head {
    *response.head()
}

#[test]
fn tcp_ids_count_up_from_one() {
    let mut frame = Frame::tcp();
    for expected in 1..=10u16 {
        let request = frame.read_coils_request(0x01, 0x0000, 0x0001);
        assert_eq!(request_head(&request).tid, expected);
    }
}

#[test]
fn tcp_ids_wrap_to_one_and_are_never_zero() {
    let mut frame = Frame::tcp();
    for expected in 1..=0xFFFFu32 {
        let request = frame.read_coils_request(0x01, 0x0000, 0x0001);
        assert_eq!(request_head(&request).tid as u32, expected);
    }
    let request = frame.read_coils_request(0x01, 0x0000, 0x0001);
    assert_eq!(request_head(&request).tid, 1);
    let request = frame.read_coils_request(0x01, 0x0000, 0x0001);
    assert_eq!(request_head(&request).tid, 2);
}

#[test]
fn tcp_ids_are_kept_for_each_unit() {
    let mut frame = Frame::tcp();
    assert_eq!(request_head(&frame.read_coils_request(0x01, 0, 1)).tid, 1);
    assert_eq!(request_head(&frame.read_coils_request(0x01, 0, 1)).tid, 2);
    assert_eq!(request_head(&frame.read_coils_request(0x02, 0, 1)).tid, 1);
    assert_eq!(request_head(&frame.read_coils_request(0x01, 0, 1)).tid, 3);
    assert_eq!(request_head(&frame.read_coils_request(0x02, 0, 1)).tid, 2);
}

#[test]
fn tcp_responses_draw_on_the_ids_of_requests() {
    let mut frame = Frame::tcp();
    assert_eq!(request_head(&frame.write_single_coil_request(0x07, 3, 0xFF00)).tid, 1);
    assert_eq!(response_head(&frame.write_single_coil_response(0x07, 3, 0xFF00)).tid, 2);
    assert_eq!(
        response_head(&frame.exception_response(
            0x07,
            Function::ReadCoils,
            Exception::Acknowledge
        ))
        .tid,
        3
    );
}

#[test]
fn rtu_ids_are_always_zero() {
    let mut frame = Frame::rtu();
    for _ in 0..5 {
        assert_eq!(request_head(&frame.read_coils_request(0x01, 0, 1)).tid, 0);
        assert_eq!(response_head(&frame.read_coils_response(0x01, vec![0x01])).tid, 0);
    }
}

#[test]
fn built_heads_name_unit_function_and_framing() {
    let mut frame = Frame::tcp();
    let head = request_head(&frame.read_input_registers_request(0x2A, 0x0010, 0x0003));
    assert_eq!(
        head,
        Head {
            tid: 1,
            pid: 0,
            length: 6,
            uid: 0x2A,
            function: Function::ReadInputRegisters,
            version: Version::Tcp,
            is_exception: false,
        }
    );
    let mut frame = Frame::rtu();
    let head = response_head(&frame.read_discrete_response(0x2B, vec![1, 2, 3]));
    assert_eq!(
        head,
        Head {
            tid: 0,
            pid: 0,
            length: 6,
            uid: 0x2B,
            function: Function::ReadDiscreteInputs,
            version: Version::Rtu,
            is_exception: false,
        }
    );
}

#[test]
fn length_field_is_two_more_than_the_body_of_requests() {
    let mut frame = Frame::tcp();
    let requests = vec![
        frame.read_coils_request(1, 2, 3),
        frame.read_discrete_request(1, 2, 3),
        frame.read_multiple_holding_registers_request(1, 2, 3),
        frame.read_input_registers_request(1, 2, 3),
        frame.write_single_coil_request(1, 2, 3),
        frame.write_single_holding_register_request(1, 2, 3),
        frame.write_multiple_coils_request(1, 2, 3, vec![9, 8, 7]),
        frame.write_multiple_holding_registers_request(1, 2, vec![9, 8, 7, 6]),
        frame.write_multiple_coils_request(1, 2, 3, vec![]),
        frame.write_multiple_holding_registers_request(1, 2, vec![0x55; 255]),
    ];
    for request in requests {
        let (head, len) = match &request {
            Request::ReadCoils(head, body) => (head, body.len()),
            Request::ReadDiscreteInputs(head, body) => (head, body.len()),
            Request::ReadMultipleHoldingRegisters(head, body) => (head, body.len()),
            Request::ReadInputRegisters(head, body) => (head, body.len()),
            Request::WriteSingleCoil(head, body) => (head, body.len()),
            Request::WriteSingleHoldingRegister(head, body) => (head, body.len()),
            Request::WriteMultipleCoils(head, body) => (head, body.len()),
            Request::WriteMultipleHoldingRegisters(head, body) => (head, body.len()),
        };
        assert_eq!(head.length, 2 + len);
    }
}

#[test]
fn length_field_is_two_more_than_the_body_of_responses() {
    let mut frame = Frame::rtu();
    let responses = vec![
        frame.read_coils_response(1, vec![1]),
        frame.read_discrete_response(1, vec![1, 2]),
        frame.read_holding_register_response(1, vec![1, 2, 3, 4]),
        frame.read_input_register_response(1, vec![0xAA; 255]),
        frame.read_coils_response(1, vec![]),
        frame.write_single_coil_response(1, 2, 3),
        frame.write_single_holding_register_response(1, 2, 3),
        frame.write_multiple_coils_response(1, 2, 3),
        frame.write_multiple_holding_registers_response(1, 2, 3),
        frame.exception_response(1, Function::WriteSingleCoil, Exception::SlaveDeviceFailure),
    ];
    for response in responses {
        let (head, len) = match &response {
            Response::ReadCoils(head, body) => (head, body.len()),
            Response::ReadDiscreteInputs(head, body) => (head, body.len()),
            Response::ReadMultipleHoldingRegisters(head, body) => (head, body.len()),
            Response::ReadInputRegisters(head, body) => (head, body.len()),
            Response::WriteSingleCoil(head, body) => (head, body.len()),
            Response::WriteSingleHoldingRegister(head, body) => (head, body.len()),
            Response::WriteMultipleCoils(head, body) => (head, body.len()),
            Response::WriteMultipleHoldingRegisters(head, body) => (head, body.len()),
            Response::Exception(head, body) => (head, body.len()),
        };
        assert_eq!(head.length, 2 + len);
    }
}

#[test]
fn write_multiple_coils_request_counts_its_values() {
    let mut frame = Frame::tcp();
    let request = frame.write_multiple_coils_request(0x0B, 0x001B, 0x0009, vec![0x4D, 0x01]);
    match request {
        Request::WriteMultipleCoils(head, body) => {
            assert_eq!(body.bytes_number, 2);
            assert_eq!(body.len(), 7);
            assert_eq!(head.length, 9);
            assert_eq!(*body.first_address(), 0x001B);
            assert_eq!(*body.coils_number(), 0x0009);
            assert_eq!(body.values, vec![0x4D, 0x01]);
        }
        other => panic!("built {:?}", other),
    }
}

#[test]
fn write_multiple_holding_registers_request_counts_two_bytes_to_a_register() {
    let mut frame = Frame::tcp();
    let request =
        frame.write_multiple_holding_registers_request(0x0B, 0x0012, vec![1, 2, 3, 4, 5, 6, 7]);
    match request {
        Request::WriteMultipleHoldingRegisters(_, body) => {
            assert_eq!(*body.get_first_address(), 0x0012);
            assert_eq!(*body.get_registers_number(), 3);
            assert_eq!(*body.get_bytes_number(), 7);
            assert_eq!(body.get_values(), &vec![1, 2, 3, 4, 5, 6, 7]);
            assert_eq!(body.len(), 12);
        }
        other => panic!("built {:?}", other),
    }
}

#[test]
fn getters_hand_out_the_fields() {
    let mut frame = Frame::rtu();
    match frame.read_discrete_request(1, 0x1234, 0x0056) {
        Request::ReadDiscreteInputs(_, body) => {
            assert_eq!(*body.get_first_address(), 0x1234);
            assert_eq!(*body.get_discrete_input_number(), 0x0056);
        }
        other => panic!("built {:?}", other),
    }
    match frame.read_multiple_holding_registers_request(1, 0x1234, 0x0056) {
        Request::ReadMultipleHoldingRegisters(_, body) => {
            assert_eq!(*body.get_first_address(), 0x1234);
            assert_eq!(*body.get_registers_number(), 0x0056);
        }
        other => panic!("built {:?}", other),
    }
    match frame.read_input_registers_request(1, 0x1234, 0x0056) {
        Request::ReadInputRegisters(_, body) => {
            assert_eq!(*body.get_first_address(), 0x1234);
            assert_eq!(*body.get_registers_number(), 0x0056);
        }
        other => panic!("built {:?}", other),
    }
    match frame.write_single_coil_request(1, 0x1234, 0xFF00) {
        Request::WriteSingleCoil(_, body) => {
            assert_eq!(*body.get_coil_address(), 0x1234);
            assert_eq!(*body.get_value(), 0xFF00);
        }
        other => panic!("built {:?}", other),
    }
    match frame.write_single_holding_register_request(1, 0x1234, 0xABCD) {
        Request::WriteSingleHoldingRegister(_, body) => {
            assert_eq!(*body.get_register_address(), 0x1234);
            assert_eq!(*body.get_value(), 0xABCD);
        }
        other => panic!("built {:?}", other),
    }
}

#[test]
fn exception_response_names_the_function_that_failed() {
    let mut frame = Frame::tcp();
    let response =
        frame.exception_response(0x0A, Function::ReadCoils, Exception::IllegalDataAddress);
    match response {
        Response::Exception(head, body) => {
            assert!(head.is_exception);
            assert_eq!(head.function, Function::ReadCoils);
            assert_eq!(head.length, 3);
            assert_eq!(body.exception, Exception::IllegalDataAddress);
        }
        other => panic!("built {:?}", other),
    }
}

#[test]
fn head_sets_its_length_from_the_body() {
    let mut head = Head::new(7, 9, Function::WriteMultipleCoils, 0, Version::Rtu, true);
    assert_eq!(head.length, 2);
    assert_eq!(head.pid, 0);
    head.body_length(260);
    assert_eq!(
        head,
        Head {
            tid: 7,
            pid: 0,
            length: 262,
            uid: 9,
            function: Function::WriteMultipleCoils,
            version: Version::Rtu,
            is_exception: true,
        }
    );
    head.body_length(0xFFFD);
    assert_eq!(head.length, 0xFFFF);
}

#[test]
fn function_codes() {
    let table = [
        (Function::ReadCoils, 0x01u8),
        (Function::ReadDiscreteInputs, 0x02),
        (Function::ReadMultipleHoldingRegisters, 0x03),
        (Function::ReadInputRegisters, 0x04),
        (Function::WriteSingleCoil, 0x05),
        (Function::WriteSingleHoldingRegister, 0x06),
        (Function::WriteMultipleCoils, 0x0F),
        (Function::WriteMultipleHoldingRegisters, 0x10),
    ];
    for (function, code) in table {
        assert_eq!(function.to_code(), code);
        assert_eq!(Function::try_from(code), Ok(function));
    }
}

#[test]
fn exception_codes_go_both_ways() {
    let table = [
        (Exception::IllegalFunction, 0x01u8),
        (Exception::IllegalDataAddress, 0x02),
        (Exception::IllegalDataValue, 0x03),
        (Exception::SlaveDeviceFailure, 0x04),
        (Exception::Acknowledge, 0x05),
    ];
    for (exception, code) in table {
        assert_eq!(exception.to_code(), code);
        assert_eq!(Exception::from_code(code), Some(exception));
        assert_eq!(Exception::try_from(code), Ok(exception));
    }
    assert_eq!(Exception::from_code(0x00), None);
    assert_eq!(Exception::from_code(0x06), None);
    assert_eq!(Exception::from_code(0xFF), None);
}
