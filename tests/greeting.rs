use dhtmsg::discovery::PeerAddress;
use dhtmsg::greeting::{
    ack_payload, decode_payload, hello_payload, on_receive, ReceiveEvent, ReceiverAction,
    ERROR_BACKOFF_MS, IDLE_POLL_MS,
};

#[test]
fn payload_shapes() {
    assert_eq!(hello_payload("ab01"), "hello from ab01");
    assert_eq!(ack_payload("ab01"), "hello-ack from ab01");
}

#[test]
fn greeting_round_trip() {
    let a_source = PeerAddress::new(0xC0A8_0001, 40000);
    let hello = hello_payload("A");
    let event = ReceiveEvent::Datagram { from: a_source, payload: hello.into_bytes() };
    let action = on_receive("B", &event);
    assert_eq!(
        action,
        ReceiverAction::Reply {
            to: a_source,
            text: "hello from A".to_string(),
            ack: "hello-ack from B".to_string(),
        }
    );
}

#[test]
fn invalid_bytes_are_replaced_and_answered() {
    let from = PeerAddress::new(0x7F00_0001, 9);
    let event = ReceiveEvent::Datagram { from, payload: vec![b'h', 0xFF, b'i'] };
    match on_receive("B", &event) {
        ReceiverAction::Reply { to, text, ack } => {
            assert_eq!(to, from);
            assert_eq!(text, "h\u{FFFD}i");
            assert_eq!(ack, "hello-ack from B");
        }
        other => panic!("unexpected {other:?}"),
    }
    assert_eq!(decode_payload(&[0xC3, 0xA9]), "\u{e9}");
}

#[test]
fn receiver_waits_when_idle_or_failing() {
    assert_eq!(
        on_receive("B", &ReceiveEvent::NoData),
        ReceiverAction::Wait { millis: IDLE_POLL_MS }
    );
    assert_eq!(
        on_receive("B", &ReceiveEvent::Failed),
        ReceiverAction::Wait { millis: ERROR_BACKOFF_MS }
    );
    assert_eq!(IDLE_POLL_MS, 200);
    assert_eq!(ERROR_BACKOFF_MS, 1000);
}
