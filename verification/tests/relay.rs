use thor::chat::ChatWindow;
use thor::keyboard::KeyAction;
use thor::frame::{Frame, Opcode};
use thor::relay::{after_send, on_incoming, on_queued, ReceiveAction, SendAction};

fn frame(opcode: Opcode, payload: &[u8]) -> Frame {
    Frame { opcode, payload: payload.to_vec() }
}

#[test]
fn text_frame_carries_utf8_bytes() {
    let f = Frame::text("héllo");
    assert_eq!(f.opcode, Opcode::Text);
    assert_eq!(f.payload, "héllo".as_bytes().to_vec());
}

#[test]
fn close_frame_is_empty() {
    let f = Frame::close();
    assert_eq!(f.opcode, Opcode::Close);
    assert!(f.payload.is_empty());
}

#[test]
fn pong_keeps_payload() {
    let f = Frame::pong(vec![1, 2, 3]);
    assert_eq!(f.opcode, Opcode::Pong);
    assert_eq!(f.payload, vec![1, 2, 3]);
}

#[test]
fn text_from_server_is_delivered() {
    match on_incoming(Some(frame(Opcode::Text, b"Hail, Odin"))) {
        ReceiveAction::Deliver(text) => assert_eq!(text, "Hail, Odin"),
        other => panic!("unexpected {:?}", other),
    }
}

#[test]
fn sent_text_round_trips() {
    let message = "Mjölnir ⚡ returns";
    match on_incoming(Some(Frame::text(message))) {
        ReceiveAction::Deliver(text) => assert_eq!(text, message),
        other => panic!("unexpected {:?}", other),
    }
}

#[test]
fn binary_and_pong_frames_are_read_as_text() {
    for opcode in [Opcode::Binary, Opcode::Pong] {
        match on_incoming(Some(frame(opcode, b"abc"))) {
            ReceiveAction::Deliver(text) => assert_eq!(text, "abc"),
            other => panic!("unexpected {:?}", other),
        }
    }
}

#[test]
fn empty_text_is_delivered_empty() {
    match on_incoming(Some(frame(Opcode::Text, b""))) {
        ReceiveAction::Deliver(text) => assert_eq!(text, ""),
        other => panic!("unexpected {:?}", other),
    }
}

#[test]
fn invalid_utf8_stops_receiving() {
    assert!(matches!(on_incoming(Some(frame(Opcode::Text, &[0xff, 0xfe]))), ReceiveAction::Stop));
    // A lone continuation byte and a truncated two-byte sequence.
    assert!(matches!(on_incoming(Some(frame(Opcode::Binary, &[0x80]))), ReceiveAction::Stop));
    assert!(matches!(on_incoming(Some(frame(Opcode::Text, &[b'a', 0xc3]))), ReceiveAction::Stop));
}

#[test]
fn ping_is_answered_with_pong() {
    match on_incoming(Some(frame(Opcode::Ping, &[9, 8, 7]))) {
        ReceiveAction::Answer(f) => {
            assert_eq!(f.opcode, Opcode::Pong);
            assert_eq!(f.payload, vec![9, 8, 7]);
        }
        other => panic!("unexpected {:?}", other),
    }
}

#[test]
fn ping_with_invalid_utf8_is_still_answered() {
    match on_incoming(Some(frame(Opcode::Ping, &[0xff]))) {
        ReceiveAction::Answer(f) => assert_eq!(f.payload, vec![0xff]),
        other => panic!("unexpected {:?}", other),
    }
}

#[test]
fn close_from_server_closes_and_stops() {
    assert!(matches!(on_incoming(Some(frame(Opcode::Close, &[3, 232]))), ReceiveAction::CloseAndStop));
}

#[test]
fn read_error_closes_and_stops() {
    assert!(matches!(on_incoming(None), ReceiveAction::CloseAndStop));
}

#[test]
fn sender_sends_text_and_goes_on() {
    match on_queued(Some(Frame::text("hi"))) {
        SendAction::Send(f) => {
            assert_eq!(f.opcode, Opcode::Text);
            assert_eq!(f.payload, b"hi".to_vec());
        }
        other => panic!("unexpected {:?}", other),
    }
}

#[test]
fn sender_sends_pong_and_goes_on() {
    assert!(matches!(on_queued(Some(Frame::pong(vec![1]))), SendAction::Send(_)));
}

#[test]
fn sender_stops_after_close() {
    match on_queued(Some(Frame::close())) {
        SendAction::SendAndStop(f) => assert_eq!(f.opcode, Opcode::Close),
        other => panic!("unexpected {:?}", other),
    }
}

#[test]
fn sender_stops_on_closed_queue() {
    assert!(matches!(on_queued(None), SendAction::Stop));
}

#[test]
fn failed_send_closes() {
    assert!(after_send(true).is_none());
    let last = after_send(false).expect("a close frame");
    assert_eq!(last.opcode, Opcode::Close);
    assert!(last.payload.is_empty());
}

#[test]
fn window_frames_go_out_unchanged() {
    let mut w = ChatWindow::new();
    w.clicked = true;
    for c in "HEJ".chars() {
        w.press(KeyAction::Insert(c));
    }
    w.press(KeyAction::Submit);
    let expected = ["This drink... I like it! ANOTHER!", "HEJ"];
    let out = w.end_frame();
    assert_eq!(out.len(), 2);
    for (f, text) in out.into_iter().zip(expected.iter()) {
        let copy = Frame { opcode: f.opcode, payload: f.payload.clone() };
        match on_queued(Some(f)) {
            SendAction::Send(sent) => assert_eq!(sent.payload, text.as_bytes().to_vec()),
            other => panic!("unexpected {:?}", other),
        }
        match on_incoming(Some(copy)) {
            ReceiveAction::Deliver(t) => assert_eq!(&t, text),
            other => panic!("unexpected {:?}", other),
        }
    }
}
