use websockets::error::{BadFrame, Error, SendError};
use websockets::web_socket::frame::MaskDirection;
use websockets::web_socket::message::{SinkMessage, StreamMessage};
use websockets::web_socket::{Actions, Awaited, ConnectionState, Sending, WebSocket};
use websockets::{ConnectionRx, ConnectionTx};

const KEY: [u8; 4] = [0x37, 0xFA, 0x21, 0x3D];

fn arrive(socket: &mut WebSocket, frame: &[u8], header_length: usize) -> Result<Actions, Error> {
    let mut buffer = frame.to_vec();
    let payload_length = buffer.len() - header_length;
    socket.receive(&mut buffer, header_length, payload_length, KEY)
}

fn takes_tx<T: ConnectionTx>(_: &T) -> bool {
    true
}

fn takes_rx<T: ConnectionRx>(_: &T) -> bool {
    true
}

#[test]
fn new_connection_is_open() {
    assert_eq!(WebSocket::new(MaskDirection::Transmit).state(), ConnectionState::Open);
    assert_eq!(WebSocket::new(MaskDirection::Receive).state(), ConnectionState::Open);
}

#[test]
fn ping_asks_for_a_pong_frame() {
    let mut socket = WebSocket::new(MaskDirection::Receive);
    let ping = [0x89, 0x83, 0, 0, 0, 0, b'a', b'b', b'c'];
    assert_eq!(
        arrive(&mut socket, &ping, 6),
        Ok(Actions {
            reply: Some(vec![0x8A, 0x03, b'a', b'b', b'c']),
            deliver: Some(StreamMessage::Ping(b"abc".to_vec())),
        })
    );
    assert_eq!(socket.state(), ConnectionState::Open);
}

#[test]
fn pong_of_a_masking_end_is_masked() {
    let mut socket = WebSocket::new(MaskDirection::Transmit);
    assert_eq!(
        arrive(&mut socket, b"\x89\x05Hello", 2),
        Ok(Actions {
            reply: Some(vec![0x8A, 0x85, 0x37, 0xFA, 0x21, 0x3D, 0x7F, 0x9F, 0x4D, 0x51, 0x58]),
            deliver: Some(StreamMessage::Ping(b"Hello".to_vec())),
        })
    );
}

#[test]
fn data_is_handed_on_without_reply() {
    let mut socket = WebSocket::new(MaskDirection::Transmit);
    assert_eq!(arrive(&mut socket, b"\x01\x02He", 2), Ok(Actions { reply: None, deliver: None }));
    assert_eq!(
        arrive(&mut socket, b"\x80\x03llo", 2),
        Ok(Actions { reply: None, deliver: Some(StreamMessage::Text(String::from("Hello"))) })
    );
    assert_eq!(socket.state(), ConnectionState::Open);
}

#[test]
fn peer_close_is_answered_and_then_the_connection_is_closed() {
    let mut socket = WebSocket::new(MaskDirection::Receive);
    let close = [0x88, 0x82, 0, 0, 0, 0, 0x03, 0xE8];
    assert_eq!(
        arrive(&mut socket, &close, 6),
        Ok(Actions {
            reply: Some(vec![0x88, 0x02, 0x03, 0xE8]),
            deliver: Some(StreamMessage::Close {
                code: 1000,
                reason: String::new(),
                reply_sent: true,
            }),
        })
    );
    assert_eq!(socket.state(), ConnectionState::Closing(Awaited::LocalReply));
    socket.reply_written();
    assert_eq!(socket.state(), ConnectionState::Closed);
}

#[test]
fn peer_close_with_reason_is_answered_with_its_code() {
    let mut socket = WebSocket::new(MaskDirection::Transmit);
    assert_eq!(
        arrive(&mut socket, b"\x88\x05\x0F\xA0bye", 2),
        Ok(Actions {
            reply: Some(vec![0x88, 0x82, 0x37, 0xFA, 0x21, 0x3D, 0x0F ^ 0x37, 0xA0 ^ 0xFA]),
            deliver: Some(StreamMessage::Close {
                code: 4000,
                reason: String::from("bye"),
                reply_sent: true,
            }),
        })
    );
}

#[test]
fn peer_close_without_code_is_answered_with_1000() {
    let mut socket = WebSocket::new(MaskDirection::Transmit);
    let mut other = WebSocket::new(MaskDirection::Receive);
    assert_eq!(
        arrive(&mut other, &[0x88, 0x80, 1, 2, 3, 4], 6),
        Ok(Actions {
            reply: Some(vec![0x88, 0x02, 0x03, 0xE8]),
            deliver: Some(StreamMessage::Close {
                code: 1005,
                reason: String::new(),
                reply_sent: true,
            }),
        })
    );
    assert_eq!(
        arrive(&mut socket, &[0x88, 0x00], 2).map(|actions| actions.deliver),
        Ok(Some(StreamMessage::Close { code: 1005, reason: String::new(), reply_sent: true }))
    );
}

#[test]
fn local_close_awaits_the_peer() {
    let mut socket = WebSocket::new(MaskDirection::Receive);
    assert_eq!(
        socket.send(&SinkMessage::Close { code: 1001, reason: String::from("bye") }, KEY),
        Ok(Sending { frame: vec![0x88, 0x05, 0x03, 0xE9, b'b', b'y', b'e'], await_close: true })
    );
    assert_eq!(socket.state(), ConnectionState::Closing(Awaited::PeerClose));
    // Data that was on its way is still handed on.
    assert_eq!(
        arrive(&mut socket, &[0x82, 0x81, 0, 0, 0, 0, 7], 6),
        Ok(Actions { reply: None, deliver: Some(StreamMessage::Binary(vec![7])) })
    );
    assert_eq!(socket.state(), ConnectionState::Closing(Awaited::PeerClose));
    // The peer's close frame ends the handshake; it is not answered again.
    assert_eq!(
        arrive(&mut socket, &[0x88, 0x82, 0, 0, 0, 0, 0x03, 0xE9], 6),
        Ok(Actions {
            reply: None,
            deliver: Some(StreamMessage::Close {
                code: 1001,
                reason: String::new(),
                reply_sent: false,
            }),
        })
    );
    assert_eq!(socket.state(), ConnectionState::Closed);
}

#[test]
fn local_close_without_status() {
    let mut socket = WebSocket::new(MaskDirection::Transmit);
    assert_eq!(
        socket.send(&SinkMessage::CloseNoStatus, KEY),
        Ok(Sending { frame: vec![0x88, 0x80, 0x37, 0xFA, 0x21, 0x3D], await_close: true })
    );
    assert_eq!(socket.state(), ConnectionState::Closing(Awaited::PeerClose));
}

#[test]
fn timeout_closes_a_closing_connection() {
    let mut socket = WebSocket::new(MaskDirection::Transmit);
    socket.timed_out();
    assert_eq!(socket.state(), ConnectionState::Open);
    socket.send(&SinkMessage::CloseNoStatus, KEY).unwrap();
    socket.timed_out();
    assert_eq!(socket.state(), ConnectionState::Closed);
    socket.timed_out();
    assert_eq!(socket.state(), ConnectionState::Closed);
}

#[test]
fn reply_written_matters_only_while_a_reply_is_owed() {
    let mut socket = WebSocket::new(MaskDirection::Transmit);
    socket.reply_written();
    assert_eq!(socket.state(), ConnectionState::Open);
    socket.send(&SinkMessage::CloseNoStatus, KEY).unwrap();
    socket.reply_written();
    assert_eq!(socket.state(), ConnectionState::Closing(Awaited::PeerClose));
}

#[test]
fn sending_fails_once_the_handshake_has_begun() {
    let mut socket = WebSocket::new(MaskDirection::Transmit);
    assert_eq!(
        socket.send(&SinkMessage::Text(String::from("Hi")), KEY),
        Ok(Sending {
            frame: vec![0x81, 0x82, 0x37, 0xFA, 0x21, 0x3D, b'H' ^ 0x37, b'i' ^ 0xFA],
            await_close: false,
        })
    );
    socket.send(&SinkMessage::CloseNoStatus, KEY).unwrap();
    assert_eq!(socket.send(&SinkMessage::Text(String::from("Hi")), KEY), Err(SendError::Closed));
    assert_eq!(socket.send(&SinkMessage::CloseNoStatus, KEY), Err(SendError::Closed));
    socket.timed_out();
    assert_eq!(socket.send(&SinkMessage::Ping(Vec::new()), KEY), Err(SendError::Closed));
}

#[test]
fn sending_fails_after_the_peer_closed() {
    let mut socket = WebSocket::new(MaskDirection::Transmit);
    arrive(&mut socket, &[0x88, 0x00], 2).unwrap();
    assert_eq!(socket.send(&SinkMessage::Binary(vec![1]), KEY), Err(SendError::Closed));
}

#[test]
fn oversized_control_message_is_not_sent() {
    let mut socket = WebSocket::new(MaskDirection::Transmit);
    assert_eq!(socket.send(&SinkMessage::Ping(vec![0; 126]), KEY), Err(SendError::TooLarge));
    assert_eq!(
        socket.send(&SinkMessage::Close { code: 1000, reason: "r".repeat(124) }, KEY),
        Err(SendError::TooLarge)
    );
    assert_eq!(socket.state(), ConnectionState::Open);
    assert!(socket.send(&SinkMessage::Ping(vec![0; 125]), KEY).is_ok());
}

#[test]
fn unknown_opcode_closes_the_connection() {
    let mut socket = WebSocket::new(MaskDirection::Transmit);
    assert_eq!(
        arrive(&mut socket, &[0x8B, 0x00], 2),
        Err(Error::BadFrame(BadFrame::UnknownOpcode))
    );
    assert_eq!(socket.state(), ConnectionState::Closed);
    // Nothing is handed on any more.
    assert_eq!(
        arrive(&mut socket, b"\x81\x05Hello", 2),
        Ok(Actions { reply: None, deliver: None })
    );
    assert_eq!(arrive(&mut socket, b"\x89\x00", 2), Ok(Actions { reply: None, deliver: None }));
    assert_eq!(socket.state(), ConnectionState::Closed);
}

#[test]
fn any_decoding_error_closes_the_connection() {
    let frames: [&[u8]; 4] =
        [&[0x91, 0x00], &[0x81, 0x01, 0xFF], &[0x80, 0x00], &[0x88, 0x02, 0x03, 0xED]];
    for frame in frames {
        let mut socket = WebSocket::new(MaskDirection::Transmit);
        assert!(arrive(&mut socket, frame, 2).is_err());
        assert_eq!(socket.state(), ConnectionState::Closed);
    }
}

#[test]
fn frames_after_the_peer_closed_are_left_alone() {
    let mut socket = WebSocket::new(MaskDirection::Transmit);
    arrive(&mut socket, &[0x88, 0x00], 2).unwrap();
    let mut buffer = b"\x81\x05Hello".to_vec();
    assert_eq!(
        socket.receive(&mut buffer, 2, 5, KEY),
        Ok(Actions { reply: None, deliver: None })
    );
    assert_eq!(socket.state(), ConnectionState::Closing(Awaited::LocalReply));
}

#[test]
fn failure_closes_the_connection() {
    let mut socket = WebSocket::new(MaskDirection::Transmit);
    socket.failed();
    assert_eq!(socket.state(), ConnectionState::Closed);
}

#[test]
fn connection_halves_are_marked() {
    let source = futures::io::Cursor::new(vec![0u8; 4]);
    let sink = futures::io::Cursor::new(vec![0u8; 4]);
    assert!(takes_rx(&source));
    assert!(takes_tx(&sink));
}
