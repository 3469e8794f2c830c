//! The per-connection dispatch loop: framing exactness, heartbeats, and
//! error behaviour on prepared byte sequences.

use holepunch::envelope::{encode, Envelope};
use holepunch::handler::{dispatch_envelope, run_connection, Dispatch};

#[test]
fn message_payload_forwarded_exactly() {
    let mut input = encode(&Envelope::Message { length: 5 });
    input.extend_from_slice(b"hello");
    let report = run_connection(&input);
    assert_eq!(report.sink, b"hello".to_vec());
    assert_eq!(report.replies, Vec::<u8>::new());
    assert!(report.clean);
}

#[test]
fn short_payload_is_fatal_and_forwards_nothing() {
    let mut input = encode(&Envelope::Message { length: 5 });
    input.extend_from_slice(b"hel");
    let report = run_connection(&input);
    assert_eq!(report.sink, Vec::<u8>::new());
    assert_eq!(report.replies, Vec::<u8>::new());
    assert!(!report.clean);
}

#[test]
fn ping_answered_with_exactly_one_pong() {
    let input = encode(&Envelope::Ping);
    let report = run_connection(&input);
    assert_eq!(report.replies, encode(&Envelope::Pong));
    assert_eq!(report.sink, Vec::<u8>::new());
    assert!(report.clean);
}

#[test]
fn pong_observed_without_reply() {
    let input = encode(&Envelope::Pong);
    let report = run_connection(&input);
    assert_eq!(report.replies, Vec::<u8>::new());
    assert_eq!(report.sink, Vec::<u8>::new());
    assert!(report.clean);
}

#[test]
fn empty_stream_ends_cleanly() {
    let report = run_connection(&[]);
    assert!(report.clean);
    assert_eq!(report.sink, Vec::<u8>::new());
    assert_eq!(report.replies, Vec::<u8>::new());
}

#[test]
fn envelopes_processed_in_arrival_order() {
    let mut input = encode(&Envelope::Ping);
    input.extend(encode(&Envelope::Message { length: 3 }));
    input.extend_from_slice(b"abc");
    input.extend(encode(&Envelope::Pong));
    input.extend(encode(&Envelope::Ping));
    input.extend(encode(&Envelope::Message { length: 0 }));
    let report = run_connection(&input);
    assert_eq!(report.sink, b"abc".to_vec());
    assert_eq!(report.replies, vec![2u8, 2u8]);
    assert!(report.clean);
}

#[test]
fn zero_length_message_forwards_nothing_and_continues() {
    let mut input = encode(&Envelope::Message { length: 0 });
    input.extend(encode(&Envelope::Ping));
    let report = run_connection(&input);
    assert_eq!(report.sink, Vec::<u8>::new());
    assert_eq!(report.replies, vec![2u8]);
    assert!(report.clean);
}

#[test]
fn unknown_discriminant_closes_without_side_effects() {
    let report = run_connection(&[9u8, 1, 1, 1]);
    assert_eq!(report.sink, Vec::<u8>::new());
    assert_eq!(report.replies, Vec::<u8>::new());
    assert!(!report.clean);
}

#[test]
fn fault_after_good_traffic_keeps_earlier_effects() {
    let mut input = encode(&Envelope::Message { length: 2 });
    input.extend_from_slice(b"ok");
    input.push(7);
    let report = run_connection(&input);
    assert_eq!(report.sink, b"ok".to_vec());
    assert!(!report.clean);
}

#[test]
fn dispatch_answers_ping_with_one_pong_header() {
    match dispatch_envelope(&Envelope::Ping) {
        Dispatch::Reply(bytes) => assert_eq!(bytes, encode(&Envelope::Pong)),
        other => panic!("expected a reply, got {other:?}"),
    }
}

#[test]
fn dispatch_observes_pong_silently() {
    assert!(matches!(dispatch_envelope(&Envelope::Pong), Dispatch::Observe));
}

#[test]
fn dispatch_forwards_exactly_the_declared_length() {
    match dispatch_envelope(&Envelope::Message { length: 5 }) {
        Dispatch::Forward(n) => assert_eq!(n, 5),
        other => panic!("expected a forward, got {other:?}"),
    }
}

#[test]
fn truncated_header_is_fatal() {
    // A Message discriminant whose length field never completes.
    let report = run_connection(&[0u8, 0x80]);
    assert!(!report.clean);
    assert_eq!(report.sink, Vec::<u8>::new());
}
