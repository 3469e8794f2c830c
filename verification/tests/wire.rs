//! The envelope wire format: exact bytes, round trips, failures, and
//! agreement with the BARE variable-length integer encoding.

use holepunch::envelope::{decode, encode, Envelope, ProtocolError};

#[test]
fn encode_ping_is_one_byte() {
    assert_eq!(encode(&Envelope::Ping), vec![1u8]);
}

#[test]
fn encode_pong_is_one_byte() {
    assert_eq!(encode(&Envelope::Pong), vec![2u8]);
}

#[test]
fn encode_message_small_length() {
    assert_eq!(encode(&Envelope::Message { length: 5 }), vec![0u8, 5]);
}

#[test]
fn encode_message_zero_length() {
    assert_eq!(encode(&Envelope::Message { length: 0 }), vec![0u8, 0]);
}

#[test]
fn encode_message_multibyte_length() {
    // 300 = 0b10_0101100: low seven bits 0x2C with the continuation bit,
    // then 0x02.
    assert_eq!(encode(&Envelope::Message { length: 300 }), vec![0u8, 0xAC, 0x02]);
}

#[test]
fn encode_message_max_length() {
    let mut expected = vec![0u8];
    expected.extend(std::iter::repeat(0xFFu8).take(9));
    expected.push(0x01);
    assert_eq!(encode(&Envelope::Message { length: u64::MAX }), expected);
}

#[test]
fn decode_round_trips_every_variant() {
    let cases = [
        Envelope::Ping,
        Envelope::Pong,
        Envelope::Message { length: 0 },
        Envelope::Message { length: 1 },
        Envelope::Message { length: 127 },
        Envelope::Message { length: 128 },
        Envelope::Message { length: 300 },
        Envelope::Message { length: u64::MAX },
    ];
    for e in cases {
        let bytes = encode(&e);
        assert_eq!(decode(&bytes, 0), Ok((e, bytes.len())));
    }
}

#[test]
fn decode_round_trips_with_trailing_bytes() {
    let mut bytes = encode(&Envelope::Message { length: 2 });
    let header = bytes.len();
    bytes.extend_from_slice(b"xy");
    assert_eq!(decode(&bytes, 0), Ok((Envelope::Message { length: 2 }, header)));
}

#[test]
fn decode_unknown_discriminant_fails() {
    assert_eq!(decode(&[3u8], 0), Err(ProtocolError::UnknownDiscriminant(3)));
    assert_eq!(decode(&[0xFFu8, 1, 2], 0), Err(ProtocolError::UnknownDiscriminant(0xFF)));
}

#[test]
fn decode_empty_input_is_truncated() {
    assert_eq!(decode(&[], 0), Err(ProtocolError::Truncated));
}

#[test]
fn decode_truncated_length_field() {
    assert_eq!(decode(&[0u8], 0), Err(ProtocolError::Truncated));
    assert_eq!(decode(&[0u8, 0x80], 0), Err(ProtocolError::Truncated));
    assert_eq!(decode(&[0u8, 0xFF, 0xFF], 0), Err(ProtocolError::Truncated));
}

#[test]
fn decode_length_over_sixty_four_bits_fails() {
    // Ten continuation groups followed by a second high bit: 2^64.
    let mut bytes = vec![0u8];
    bytes.extend(std::iter::repeat(0x80u8).take(9));
    bytes.push(0x02);
    assert_eq!(decode(&bytes, 0), Err(ProtocolError::LengthOverflow));
}

#[test]
fn decode_at_offset_reads_past_earlier_envelopes() {
    let mut bytes = encode(&Envelope::Ping);
    bytes.extend(encode(&Envelope::Message { length: 7 }));
    assert_eq!(decode(&bytes, 0), Ok((Envelope::Ping, 1)));
    assert_eq!(decode(&bytes, 1), Ok((Envelope::Message { length: 7 }, 3)));
}

#[test]
fn length_field_matches_bare_uint_encoding() {
    for n in [0u64, 1, 5, 127, 128, 255, 300, 16384, u64::MAX] {
        let ours = encode(&Envelope::Message { length: n });
        let bare = serde_bare::to_vec(&serde_bare::Uint(n)).unwrap();
        assert_eq!(&ours[1..], &bare[..], "length {n}");
    }
}

#[test]
fn discriminants_match_bare_uint_encoding() {
    assert_eq!(vec![encode(&Envelope::Message { length: 0 })[0]], serde_bare::to_vec(&serde_bare::Uint(0)).unwrap());
    assert_eq!(encode(&Envelope::Ping), serde_bare::to_vec(&serde_bare::Uint(1)).unwrap());
    assert_eq!(encode(&Envelope::Pong), serde_bare::to_vec(&serde_bare::Uint(2)).unwrap());
}
