use bytes::BytesMut;
use easy_modbus::frame::{Exception, Function};
use easy_modbus::{Frame, RtuClientCodec, RtuServerCodec, TcpClientCodec, TcpServerCodec};

#[test]
fn decoder_read_coils_response_test() {
    let mut codec = RtuClientCodec::default();
    let v: Vec<u8> = vec![0x0B, 0x01, 0x04, 0xCD, 0x6B, 0xB2, 0x7F, 0x2B, 0xE1];
    let mut buf = BytesMut::from(&v[..]);
    let response_l = codec.decode(&mut buf).unwrap().unwrap();
    let mut frame = Frame::rtu();
    let response_r = frame.read_coils_response(0x0B, vec![0xCD, 0x6B, 0xB2, 0x7F]);
    assert_eq!(response_l, response_r);
}

#[test]
fn decoder_read_discrete_inputs_response_test() {
    let mut codec = RtuClientCodec::default();
    let v: Vec<u8> = vec![0x0B, 0x02, 0x04, 0xAC, 0xDB, 0xFB, 0x0D, 0x82, 0x7C];
    let mut buf = BytesMut::from(&v[..]);
    let response_l = codec.decode(&mut buf).unwrap().unwrap();
    let mut frame = Frame::rtu();
    let response_r = frame.read_discrete_response(0x0B, vec![0xAC, 0xDB, 0xFB, 0x0D]);
    assert_eq!(response_l, response_r);
}

#[test]
fn decoder_read_multiple_holding_registers_response_test() {
    let mut codec = RtuClientCodec::default();
    let v: Vec<u8> = vec![
        0x0B, 0x03, 0x06, 0xAE, 0x41, 0x56, 0x52, 0x43, 0x40, 0xFA, 0xCD,
    ];
    let mut buf = BytesMut::from(&v[..]);
    let response_l = codec.decode(&mut buf).unwrap().unwrap();
    let mut frame = Frame::rtu();
    let response_r =
        frame.read_holding_register_response(0x0B, vec![0xAE, 0x41, 0x56, 0x52, 0x43, 0x40]);
    assert_eq!(response_l, response_r);
}

#[test]
fn decoder_read_input_registers_response_test() {
    let mut codec = RtuClientCodec::default();
    let v: Vec<u8> = vec![0x0B, 0x04, 0x02, 0x10, 0x2F, 0x6D, 0x2D];
    let mut buf = BytesMut::from(&v[..]);
    let response_l = codec.decode(&mut buf).unwrap().unwrap();
    let mut frame = Frame::rtu();
    let response_r = frame.read_input_register_response(0x0B, vec![0x10, 0x2F]);
    assert_eq!(response_l, response_r);
}

#[test]
fn decoder_write_single_coil_response_test() {
    let mut codec = RtuClientCodec::default();
    let v: Vec<u8> = vec![0x0B, 0x05, 0x00, 0xBF, 0x00, 0x00, 0xFC, 0x84];
    let mut buf = BytesMut::from(&v[..]);
    let response_l = codec.decode(&mut buf).unwrap().unwrap();
    let mut frame = Frame::rtu();
    let response_r = frame.write_single_coil_response(0x0B, 0x00BF, 0x0000);
    assert_eq!(response_l, response_r);
}

#[test]
fn decoder_write_single_holding_register_response_test() {
    let mut codec = RtuClientCodec::default();
    let v: Vec<u8> = vec![0x0B, 0x006, 0x000, 0x004, 0x0AB, 0x0CD, 0x076, 0x004];
    let mut buf = BytesMut::from(&v[..]);
    let response_l = codec.decode(&mut buf).unwrap().unwrap();
    let mut frame = Frame::rtu();
    let response_r = frame.write_single_holding_register_response(0x0B, 0x0004, 0xABCD);
    assert_eq!(response_l, response_r);
}

#[test]
fn decoder_write_multiple_coils_response_test() {
    let mut codec = RtuClientCodec::default();
    let v: Vec<u8> = vec![0x0B, 0x0F, 0x00, 0x1B, 0x00, 0x09, 0xE5, 0x60];
    let mut buf = BytesMut::from(&v[..]);
    let response_l = codec.decode(&mut buf).unwrap().unwrap();
    let mut frame = Frame::rtu();
    let response_r = frame.write_multiple_coils_response(0x0B, 0x001B, 0x0009);
    assert_eq!(response_l, response_r);
}

#[test]
fn decoder_write_multiple_holding_registers_response_test() {
    let mut codec = RtuClientCodec::default();
    let v: Vec<u8> = vec![0x0B, 0x10, 0x00, 0x12, 0x00, 0x02, 0xE1, 0x67];
    let mut buf = BytesMut::from(&v[..]);
    let response_l = codec.decode(&mut buf).unwrap().unwrap();
    let mut frame = Frame::rtu();
    let response_r = frame.write_multiple_holding_registers_response(0x0B, 0x0012, 0x0002);
    assert_eq!(response_l, response_r);
}

#[test]
fn decoder_exception_response_test() {
    let mut codec = RtuClientCodec::default();
    let v: Vec<u8> = vec![0x0A, 0x81, 0x02, 0xB0, 0x53];
    let mut buf = BytesMut::from(&v[..]);
    let response_l = codec.decode(&mut buf).unwrap().unwrap();
    let mut frame = Frame::rtu();
    let response_r =
        frame.exception_response(0x0A, Function::ReadCoils, Exception::IllegalDataAddress);
    assert_eq!(response_l, response_r);
}

#[test]
fn decoder_read_coils_response_test_tcp() {
    let mut codec = TcpClientCodec::default();
    let v: Vec<u8> = vec![
        0x00, 0x01, 0x00, 0x00, 0x00, 0x05, 0x01, 0x01, 0x02, 0x00, 0x01,
    ];
    let mut buf = BytesMut::from(&v[..]);
    let response_l = codec.decode(&mut buf).unwrap().unwrap();
    let mut frame = Frame::tcp();
    let response_r = frame.read_coils_response(0x01, vec![0x00, 0x01]);
    assert_eq!(response_l, response_r);
}

#[test]
fn decoder_read_discrete_inputs_response_test_tcp() {
    let mut codec = TcpClientCodec::default();
    let v: Vec<u8> = vec![
        0x00, 0x01, 0x00, 0x00, 0x00, 0x07, 0x01, 0x02, 0x04, 0xAC, 0xDB, 0xFB, 0x0D,
    ];
    let mut buf = BytesMut::from(&v[..]);
    let response_l = codec.decode(&mut buf).unwrap().unwrap();
    let mut frame = Frame::tcp();
    let response_r = frame.read_discrete_response(0x01, vec![0xAC, 0xDB, 0xFB, 0x0D]);
    assert_eq!(response_l, response_r);
}

#[test]
fn decoder_read_multiple_holding_registers_response_test_tcp() {
    let mut codec = TcpClientCodec::default();
    let v: Vec<u8> = vec![
        0x00, 0x01, 0x00, 0x00, 0x00, 0x09, 0x01, 0x03, 0x06, 0xAE, 0x41, 0x56, 0x52, 0x43,
        0x40,
    ];
    let mut buf = BytesMut::from(&v[..]);
    let response_l = codec.decode(&mut buf).unwrap().unwrap();
    let mut frame = Frame::tcp();
    let response_r =
        frame.read_holding_register_response(0x01, vec![0xAE, 0x41, 0x56, 0x52, 0x43, 0x40]);
    assert_eq!(response_l, response_r);
}

#[test]
fn decoder_read_input_registers_response_test_tcp() {
    let mut codec = TcpClientCodec::default();
    let v: Vec<u8> = vec![
        0x00, 0x01, 0x00, 0x00, 0x00, 0x05, 0x01, 0x04, 0x02, 0x10, 0x2F,
    ];
    let mut buf = BytesMut::from(&v[..]);
    let response_l = codec.decode(&mut buf).unwrap().unwrap();
    let mut frame = Frame::tcp();
    let response_r = frame.read_input_register_response(0x01, vec![0x10, 0x2F]);
    assert_eq!(response_l, response_r);
}

#[test]
fn decoder_write_single_coil_response_test_tcp() {
    let mut codec = TcpClientCodec::default();
    let v: Vec<u8> = vec![
        0x00, 0x01, 0x00, 0x00, 0x00, 0x06, 0x01, 0x05, 0x00, 0xBF, 0x00, 0x00,
    ];
    let mut buf = BytesMut::from(&v[..]);
    let response_l = codec.decode(&mut buf).unwrap().unwrap();
    let mut frame = Frame::tcp();
    let response_r = frame.write_single_coil_response(0x01, 0x00BF, 0x0000);
    assert_eq!(response_l, response_r);
}

#[test]
fn decoder_write_single_holding_register_response_test_tcp() {
    let mut codec = TcpClientCodec::default();
    let v: Vec<u8> = vec![
        0x00, 0x01, 0x00, 0x00, 0x00, 0x06, 0x01, 0x06, 0x00, 0x04, 0xAB, 0xCD,
    ];
    let mut buf = BytesMut::from(&v[..]);
    let response_l = codec.decode(&mut buf).unwrap().unwrap();
    let mut frame = Frame::tcp();
    let response_r = frame.write_single_holding_register_response(0x01, 0x0004, 0xABCD);
    assert_eq!(response_l, response_r);
}

#[test]
fn decoder_write_multiple_coils_response_test_tcp() {
    let mut codec = TcpClientCodec::default();
    let v: Vec<u8> = vec![
        0x00, 0x01, 0x00, 0x00, 0x00, 0x06, 0x01, 0x0F, 0x00, 0x1B, 0x00, 0x09,
    ];
    let mut buf = BytesMut::from(&v[..]);
    let response_l = codec.decode(&mut buf).unwrap().unwrap();
    let mut frame = Frame::tcp();
    let response_r = frame.write_multiple_coils_response(0x01, 0x001B, 0x0009);
    assert_eq!(response_l, response_r);
}

#[test]
fn decoder_write_multiple_holding_registers_response_test_tcp() {
    let mut codec = TcpClientCodec::default();
    let v: Vec<u8> = vec![
        0x00, 0x01, 0x00, 0x00, 0x00, 0x06, 0x01, 0x10, 0x00, 0x12, 0x00, 0x02,
    ];
    let mut buf = BytesMut::from(&v[..]);
    let response_l = codec.decode(&mut buf).unwrap().unwrap();
    let mut frame = Frame::tcp();
    let response_r = frame.write_multiple_holding_registers_response(0x01, 0x0012, 0x0002);
    assert_eq!(response_l, response_r);
}

#[test]
fn decoder_exception_response_test_tcp() {
    let mut codec = TcpClientCodec::default();
    let v: Vec<u8> = vec![0x00, 0x01, 0x00, 0x00, 0x00, 0x03, 0x0A, 0x81, 0x02];
    let mut buf = BytesMut::from(&v[..]);
    let response_l = codec.decode(&mut buf).unwrap().unwrap();
    let mut frame = Frame::tcp();
    let response_r =
        frame.exception_response(0x0A, Function::ReadCoils, Exception::IllegalDataAddress);
    assert_eq!(response_l, response_r);
}

#[test]
fn decoder_read_coils_request_test() {
    let mut codec = RtuServerCodec::default();
    let v: Vec<u8> = vec![0x0B, 0x01, 0x00, 0x1D, 0x00, 0x1F, 0xED, 0x6E];
    let mut buf = BytesMut::from(&v[..]);
    let request_l = codec.decode(&mut buf).unwrap().unwrap();

    let mut frame = Frame::rtu();
    let request_r = frame.read_coils_request(0x0B, 0x001D, 0x001F);
    assert_eq!(request_l, request_r);
}

#[test]
fn decoder_read_discrete_inputs_test() {
    let mut codec = RtuServerCodec::default();
    let v: Vec<u8> = vec![0x0B, 0x02, 0x00, 0x7A, 0x00, 0x1C, 0x58, 0xB0];
    let mut buf = BytesMut::from(&v[..]);
    let request_l = codec.decode(&mut buf).unwrap().unwrap();
    let mut frame = Frame::rtu();
    let request_r = frame.read_discrete_request(0x0B, 0x007A, 0x001C);
    assert_eq!(request_l, request_r);
}

#[test]
fn decoder_read_multiple_holding_registers_test() {
    let mut codec = RtuServerCodec::default();
    let v: Vec<u8> = vec![0x0B, 0x03, 0x00, 0x6F, 0x00, 0x03, 0x35, 0x7C];
    let mut buf = BytesMut::from(&v[..]);
    let request_l = codec.decode(&mut buf).unwrap().unwrap();
    let mut frame = Frame::rtu();
    let request_r = frame.read_multiple_holding_registers_request(0x0B, 0x006F, 0x0003);
    assert_eq!(request_l, request_r);
}

#[test]
fn decoder_read_input_registers_test() {
    let mut codec = RtuServerCodec::default();
    let v: Vec<u8> = vec![0x0B, 0x04, 0x00, 0x0A, 0x00, 0x01, 0x11, 0x62];
    let mut buf = BytesMut::from(&v[..]);
    let request_l = codec.decode(&mut buf).unwrap().unwrap();
    let mut frame = Frame::rtu();
    let request_r = frame.read_input_registers_request(0x0B, 0x000A, 0x0001);
    assert_eq!(request_l, request_r);
}

#[test]
fn decoder_write_single_coil_test() {
    let mut codec = RtuServerCodec::default();
    let v: Vec<u8> = vec![0x0B, 0x05, 0x00, 0xBF, 0x00, 0x00, 0xFC, 0x84];
    let mut buf = BytesMut::from(&v[..]);
    let request_l = codec.decode(&mut buf).unwrap().unwrap();
    let mut frame = Frame::rtu();
    let request_r = frame.write_single_coil_request(0x0B, 0x00BF, 0x0000);
    assert_eq!(request_l, request_r);
}

#[test]
fn decoder_write_single_holding_register_test() {
    let mut codec = RtuServerCodec::default();
    let v: Vec<u8> = vec![0x0B, 0x06, 0x00, 0x04, 0xAB, 0xCD, 0x76, 0x04];
    let mut buf = BytesMut::from(&v[..]);
    let request_l = codec.decode(&mut buf).unwrap().unwrap();
    let mut frame = Frame::rtu();
    let request_r = frame.write_single_holding_register_request(0x0B, 0x0004, 0xABCD);
    assert_eq!(request_l, request_r);
}

#[test]
fn decoder_write_multiple_coils_test() {
    let mut codec = RtuServerCodec::default();
    let v: Vec<u8> = vec![
        0x0B, 0x0F, 0x00, 0x1B, 0x00, 0x09, 0x02, 0x4D, 0x01, 0x6C, 0xA7,
    ];
    let mut buf = BytesMut::from(&v[..]);
    let request_l = codec.decode(&mut buf).unwrap().unwrap();
    let mut frame = Frame::rtu();
    let request_r = frame.write_multiple_coils_request(0x0B, 0x001B, 0x0009, vec![0x4D, 0x01]);
    assert_eq!(request_l, request_r);
}

#[test]
fn decoder_write_multiple_holding_registers_test() {
    let mut codec = RtuServerCodec::default();
    let v: Vec<u8> = vec![
        0x0B, 0x10, 0x00, 0x12, 0x00, 0x02, 0x04, 0x0B, 0x0A, 0xC1, 0x02, 0xA0, 0xD5,
    ];
    let mut buf = BytesMut::from(&v[..]);
    let request_l = codec.decode(&mut buf).unwrap().unwrap();
    let mut frame = Frame::rtu();
    let request_r = frame.write_multiple_holding_registers_request(
        0x0B,
        0x0012,
        vec![0x0B, 0x0A, 0xC1, 0x02],
    );
    assert_eq!(request_l, request_r);
}

#[test]
fn decoder_read_coils_request_test_tcp() {
    let mut codec = TcpServerCodec::default();
    let v: Vec<u8> = vec![
        0x00, 0x01, 0x00, 0x00, 0x00, 0x06, 0x01, 0x01, 0x00, 0x02, 0x00, 0x08,
    ];
    let mut buf = BytesMut::from(&v[..]);
    let request_l = codec.decode(&mut buf).unwrap().unwrap();

    let mut frame = Frame::tcp();
    let request_r = frame.read_coils_request(0x01, 0x02, 0x08);
    assert_eq!(request_l, request_r);
}

#[test]
fn decoder_read_discrete_inputs_test_tcp() {
    let mut codec = TcpServerCodec::default();
    let v: Vec<u8> = vec![
        0x00, 0x01, 0x00, 0x00, 0x00, 0x06, 0x01, 0x02, 0x00, 0x7A, 0x00, 0x1C,
    ];
    let mut buf = BytesMut::from(&v[..]);
    let request_l = codec.decode(&mut buf).unwrap().unwrap();
    let mut frame = Frame::tcp();
    let request_r = frame.read_discrete_request(0x01, 0x007A, 0x001C);
    assert_eq!(request_l, request_r);
}

#[test]
fn decoder_read_multiple_holding_registers_test_tcp() {
    let mut codec = TcpServerCodec::default();
    let v: Vec<u8> = vec![
        0x00, 0x01, 0x00, 0x00, 0x00, 0x06, 0x01, 0x03, 0x00, 0x6F, 0x00, 0x03,
    ];
    let mut buf = BytesMut::from(&v[..]);
    let request_l = codec.decode(&mut buf).unwrap().unwrap();
    let mut frame = Frame::tcp();
    let request_r = frame.read_multiple_holding_registers_request(0x01, 0x006F, 0x0003);
    assert_eq!(request_l, request_r);
}

#[test]
fn decoder_read_input_registers_test_tcp() {
    let mut codec = TcpServerCodec::default();
    let v: Vec<u8> = vec![
        0x00, 0x01, 0x00, 0x00, 0x00, 0x06, 0x01, 0x04, 0x00, 0x0A, 0x00, 0x01,
    ];
    let mut buf = BytesMut::from(&v[..]);
    let request_l = codec.decode(&mut buf).unwrap().unwrap();
    let mut frame = Frame::tcp();
    let request_r = frame.read_input_registers_request(0x01, 0x000A, 0x0001);
    assert_eq!(request_l, request_r);
}

#[test]
fn decoder_write_single_coil_test_tcp() {
    let mut codec = TcpServerCodec::default();
    let v: Vec<u8> = vec![
        0x00, 0x01, 0x00, 0x00, 0x00, 0x06, 0x01, 0x05, 0x00, 0xBF, 0x00, 0x00,
    ];
    let mut buf = BytesMut::from(&v[..]);
    let request_l = codec.decode(&mut buf).unwrap().unwrap();
    let mut frame = Frame::tcp();
    let request_r = frame.write_single_coil_request(0x01, 0x00BF, 0x0000);
    assert_eq!(request_l, request_r);
}

#[test]
fn decoder_write_single_holding_register_test_tcp() {
    let mut codec = TcpServerCodec::default();
    let v: Vec<u8> = vec![
        0x00, 0x01, 0x00, 0x00, 0x00, 0x06, 0x01, 0x06, 0x00, 0x04, 0xAB, 0xCD,
    ];
    let mut buf = BytesMut::from(&v[..]);
    let request_l = codec.decode(&mut buf).unwrap().unwrap();
    let mut frame = Frame::tcp();
    let request_r = frame.write_single_holding_register_request(0x01, 0x0004, 0xABCD);
    assert_eq!(request_l, request_r);
}

#[test]
fn decoder_write_multiple_coils_test_tcp() {
    let mut codec = TcpServerCodec::default();
    let v: Vec<u8> = vec![
        0x00, 0x01, 0x00, 0x00, 0x00, 0x09, 0x01, 0x0F, 0x00, 0x1B, 0x00, 0x09, 0x02, 0x4D,
        0x01,
    ];
    let mut buf = BytesMut::from(&v[..]);
    let request_l = codec.decode(&mut buf).unwrap().unwrap();
    let mut frame = Frame::tcp();
    let request_r = frame.write_multiple_coils_request(0x01, 0x001B, 0x0009, vec![0x4D, 0x01]);
    assert_eq!(request_l, request_r);
}

#[test]
fn decoder_write_multiple_holding_registers_test_tcp() {
    let mut codec = TcpServerCodec::default();
    let v: Vec<u8> = vec![
        0x00, 0x01, 0x00, 0x00, 0x00, 0x0B, 0x01, 0x10, 0x00, 0x12, 0x00, 0x02, 0x04, 0x0B,
        0x0A, 0xC1, 0x02,
    ];
    let mut buf = BytesMut::from(&v[..]);
    let request_l = codec.decode(&mut buf).unwrap().unwrap();
    let mut frame = Frame::tcp();
    let request_r = frame.write_multiple_holding_registers_request(
        0x01,
        0x0012,
        vec![0x0B, 0x0A, 0xC1, 0x02],
    );
    assert_eq!(request_l, request_r);
}
