use websockets::web_socket::frame::{
    header_length, payload_length, FIN, MASK, MAX_CONTROL_FRAME_DATA_LENGTH, OPCODE_BINARY,
    OPCODE_CLOSE, OPCODE_CONTINUATION, OPCODE_PING, OPCODE_PONG, OPCODE_TEXT,
};
use websockets::web_socket::mask::mask_in_place;

#[test]
fn constants_are_those_of_the_protocol() {
    assert_eq!(FIN, 0x80);
    assert_eq!(MASK, 0x80);
    assert_eq!(OPCODE_CONTINUATION, 0);
    assert_eq!(OPCODE_TEXT, 1);
    assert_eq!(OPCODE_BINARY, 2);
    assert_eq!(OPCODE_CLOSE, 8);
    assert_eq!(OPCODE_PING, 9);
    assert_eq!(OPCODE_PONG, 10);
    assert_eq!(MAX_CONTROL_FRAME_DATA_LENGTH, 125);
}

#[test]
fn header_length_of_every_form() {
    assert_eq!(header_length(0), 2);
    assert_eq!(header_length(125), 2);
    assert_eq!(header_length(126), 4);
    assert_eq!(header_length(127), 10);
    assert_eq!(header_length(0x80), 6);
    assert_eq!(header_length(0x80 | 125), 6);
    assert_eq!(header_length(0x80 | 126), 8);
    assert_eq!(header_length(0x80 | 127), 14);
}

#[test]
fn payload_length_in_the_second_byte() {
    assert_eq!(payload_length(&[0x81, 0]), Some(0));
    assert_eq!(payload_length(&[0x81, 5]), Some(5));
    assert_eq!(payload_length(&[0x81, 125]), Some(125));
    assert_eq!(payload_length(&[0x81, 0x80 | 125, 1, 2, 3, 4]), Some(125));
}

#[test]
fn payload_length_in_two_bytes() {
    assert_eq!(payload_length(&[0x82, 126, 0x00, 0x7E]), Some(126));
    assert_eq!(payload_length(&[0x82, 126, 0x01, 0x02]), Some(258));
    assert_eq!(payload_length(&[0x82, 126, 0xFF, 0xFF]), Some(65535));
    assert_eq!(payload_length(&[0x82, 0xFE, 0x12, 0x34, 9, 9, 9, 9]), Some(0x1234));
}

#[test]
fn payload_length_in_eight_bytes() {
    assert_eq!(payload_length(&[0x82, 127, 0, 0, 0, 0, 0, 1, 0, 0]), Some(65536));
    assert_eq!(
        payload_length(&[0x82, 127, 0, 0, 0x01, 0x02, 0x03, 0x04, 0x05, 0x06]),
        Some(0x0102_0304_0506)
    );
    assert_eq!(
        payload_length(&[0x82, 0xFF, 0, 0, 0, 0, 0x01, 0, 0, 0x07, 1, 2, 3, 4]),
        Some(0x0100_0007)
    );
}

#[test]
fn payload_length_beyond_the_machine_is_none() {
    assert_eq!(
        payload_length(&[0x82, 127, 0xFF, 0xFF, 0xFF, 0xFF, 0xFF, 0xFF, 0xFF, 0xFF]),
        None
    );
    assert_eq!(
        payload_length(&[0x82, 127, 0xFF, 0xFF, 0xFF, 0xFF, 0xFF, 0xFF, 0xFF, 0xF6]),
        None
    );
}

#[test]
fn masking_twice_gives_back_the_payload() {
    let keys = [[0u8, 0, 0, 0], [0x37, 0xFA, 0x21, 0x3D], [0xFF, 0x00, 0xFF, 0x00]];
    for key in keys {
        for length in [0usize, 1, 2, 3, 4, 5, 7, 8, 9, 100] {
            let payload: Vec<u8> = (0..length).map(|i| (i * 31 % 256) as u8).collect();
            let mut buffer = payload.clone();
            mask_in_place(&mut buffer, 0, length, key);
            for (i, byte) in buffer.iter().enumerate() {
                assert_eq!(*byte, payload[i] ^ key[i % 4]);
            }
            mask_in_place(&mut buffer, 0, length, key);
            assert_eq!(buffer, payload);
        }
    }
}

#[test]
fn masking_hello() {
    let mut buffer = b"Hello".to_vec();
    mask_in_place(&mut buffer, 0, 5, [0x37, 0xFA, 0x21, 0x3D]);
    assert_eq!(buffer, vec![0x7F, 0x9F, 0x4D, 0x51, 0x58]);
}

#[test]
fn masking_touches_only_its_region() {
    let mut buffer = vec![1u8, 2, 3, 4, 5, 6, 7, 8];
    mask_in_place(&mut buffer, 2, 5, [0xF0, 0x0F, 0xFF, 0x00]);
    assert_eq!(buffer, vec![1, 2, 3 ^ 0xF0, 4 ^ 0x0F, 5 ^ 0xFF, 6, 7 ^ 0xF0, 8]);
    mask_in_place(&mut buffer, 8, 0, [0xF0, 0x0F, 0xFF, 0x00]);
    assert_eq!(buffer, vec![1, 2, 3 ^ 0xF0, 4 ^ 0x0F, 5 ^ 0xFF, 6, 7 ^ 0xF0, 8]);
}
