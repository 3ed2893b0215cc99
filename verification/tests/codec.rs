use xbfisher::checksum::internet_checksum;
use xbfisher::codec::{decode_message, AddressFamily, EchoMessage, MessageKind, CHECKSUM_OFFSET, ICMP_HEADER_SIZE};
use xbfisher::envelope::{decode_envelope, source_address, IPV4_MIN_HEADER_SIZE};
use xbfisher::errors::{ClassificationError, EncodeError, EnvelopeError};

fn datagram_with_header(words: u8, total: usize) -> Vec<u8> {
    let mut datagram: Vec<u8> = (0..total).map(|i| (i % 251) as u8).collect();
    datagram[0] = 0x40 | words;
    datagram
}

#[test]
fn checksum_of_known_words() {
    assert_eq!(internet_checksum(&[0x00, 0x01, 0xf2, 0x03, 0xf4, 0xf5, 0xf6, 0xf7]), 0x220d);
}

#[test]
fn checksum_of_nothing_is_all_ones() {
    assert_eq!(internet_checksum(&[]), 0xffff);
}

#[test]
fn checksum_pads_an_odd_byte_with_zero() {
    assert_eq!(internet_checksum(&[0xff]), 0x00ff);
    assert_eq!(internet_checksum(&[0xff, 0x00]), 0x00ff);
}

#[test]
fn checksum_of_all_ones_is_zero() {
    assert_eq!(internet_checksum(&[0xff, 0xff]), 0);
}

#[test]
fn checksum_folds_many_carries() {
    let data = vec![0xffu8; 70000];
    assert_eq!(internet_checksum(&data), 0);
}

#[test]
fn encode_then_decode_v4() {
    let payload = [7u8; 32];
    let message =
        EchoMessage { kind: MessageKind::Request, identifier: 0x1234, sequence: 9, payload: &payload };
    let mut buffer = [0u8; 40];
    assert_eq!(message.encode(AddressFamily::V4, &mut buffer[..]), Ok(40));
    assert_eq!(&buffer[..8], &[8, 0, 117, 82, 18, 52, 0, 9]);
    let back = decode_message(&buffer[..], AddressFamily::V4).unwrap();
    assert_eq!(back.kind, MessageKind::Request);
    assert_eq!(back.identifier, 0x1234);
    assert_eq!(back.sequence, 9);
    assert_eq!(back.payload, &payload[..]);
}

#[test]
fn encode_then_decode_v6() {
    let payload: Vec<u8> = (0..32).collect();
    let message =
        EchoMessage { kind: MessageKind::Request, identifier: 3, sequence: 5, payload: &payload };
    let mut buffer = [0u8; 40];
    assert_eq!(message.encode(AddressFamily::V6, &mut buffer[..]), Ok(40));
    assert_eq!(&buffer[..8], &[128, 0, 142, 246, 0, 3, 0, 5]);
    let back = decode_message(&buffer[..], AddressFamily::V6).unwrap();
    assert_eq!(back.kind, MessageKind::Request);
    assert_eq!(back.identifier, 3);
    assert_eq!(back.sequence, 5);
    assert_eq!(back.payload, &payload[..]);
}

#[test]
fn encode_then_decode_a_reply_with_odd_payload() {
    let message = EchoMessage {
        kind: MessageKind::Reply,
        identifier: 0xbeef,
        sequence: 0x0102,
        payload: b"abc",
    };
    let mut buffer = [0u8; 11];
    assert_eq!(message.encode(AddressFamily::V4, &mut buffer[..]), Ok(11));
    assert_eq!(buffer, [0, 0, 123, 171, 190, 239, 1, 2, 97, 98, 99]);
    let back = decode_message(&buffer[..], AddressFamily::V4).unwrap();
    assert_eq!(back.kind, MessageKind::Reply);
    assert_eq!(back.identifier, 0xbeef);
    assert_eq!(back.sequence, 0x0102);
    assert_eq!(back.payload, b"abc");
}

#[test]
fn round_trip_holds_for_many_messages() {
    for family in [AddressFamily::V4, AddressFamily::V6] {
        for kind in [MessageKind::Request, MessageKind::Reply] {
            for identifier in [0u16, 1, 255, 256, 4169, 0x7fff, 0xffff] {
                for sequence in [0u16, 1, 0x00ff, 0xff00, 0xffff] {
                    let payload: Vec<u8> =
                        (0..32).map(|i| (i as u16 ^ identifier ^ sequence) as u8).collect();
                    let message = EchoMessage { kind, identifier, sequence, payload: &payload };
                    let mut buffer = [0u8; 40];
                    assert_eq!(message.encode(family, &mut buffer[..]), Ok(40));
                    assert_eq!(decode_message(&buffer[..], family), Ok(message));
                }
            }
        }
    }
}

#[test]
fn encoded_frames_sum_to_zero() {
    for family in [AddressFamily::V4, AddressFamily::V6] {
        for len in [0usize, 1, 2, 3, 24, 31, 32, 2040] {
            let payload: Vec<u8> = (0..len).map(|i| (i * 37 % 256) as u8).collect();
            let message = EchoMessage {
                kind: MessageKind::Request,
                identifier: 4169,
                sequence: 1,
                payload: &payload,
            };
            let mut buffer = vec![0u8; ICMP_HEADER_SIZE + len];
            assert_eq!(message.encode(family, &mut buffer[..]), Ok(ICMP_HEADER_SIZE + len));
            assert_eq!(internet_checksum(&buffer), 0);
        }
    }
}

#[test]
fn encode_writes_the_checksum_of_the_frame_with_an_empty_field() {
    let payload = [0x5au8; 32];
    let message =
        EchoMessage { kind: MessageKind::Request, identifier: 77, sequence: 2, payload: &payload };
    let mut buffer = [0u8; 40];
    message.encode(AddressFamily::V4, &mut buffer[..]).unwrap();
    let written = u16::from_be_bytes([buffer[CHECKSUM_OFFSET], buffer[CHECKSUM_OFFSET + 1]]);
    buffer[CHECKSUM_OFFSET] = 0;
    buffer[CHECKSUM_OFFSET + 1] = 0;
    assert_eq!(written, internet_checksum(&buffer));
}

#[test]
fn encode_leaves_the_rest_of_the_buffer_alone() {
    let message =
        EchoMessage { kind: MessageKind::Request, identifier: 1, sequence: 1, payload: &[1, 2, 3, 4] };
    let mut buffer = [0xeeu8; 20];
    assert_eq!(message.encode(AddressFamily::V4, &mut buffer[..]), Ok(12));
    assert_eq!(&buffer[8..12], &[1, 2, 3, 4]);
    assert_eq!(&buffer[12..], &[0xee; 8]);
}

#[test]
fn encode_fails_when_the_buffer_is_too_small() {
    let payload = [1u8; 32];
    let message =
        EchoMessage { kind: MessageKind::Request, identifier: 1, sequence: 1, payload: &payload };
    let mut buffer = [0xabu8; 39];
    assert_eq!(message.encode(AddressFamily::V4, &mut buffer[..]), Err(EncodeError::BufferTooSmall));
    assert_eq!(buffer, [0xabu8; 39]);
    let mut tiny = [0u8; 7];
    assert_eq!(message.encode(AddressFamily::V6, &mut tiny[..]), Err(EncodeError::BufferTooSmall));
}

#[test]
fn encode_fits_exactly() {
    let message =
        EchoMessage { kind: MessageKind::Request, identifier: 1, sequence: 1, payload: &[] };
    let mut buffer = [0u8; 8];
    assert_eq!(message.encode(AddressFamily::V4, &mut buffer[..]), Ok(8));
}

#[test]
fn decode_rejects_a_short_region() {
    let region = [0u8, 0, 0, 0, 0, 0, 0];
    assert_eq!(
        decode_message(&region, AddressFamily::V4).unwrap_err(),
        ClassificationError::TooShort
    );
    assert_eq!(
        decode_message(&[], AddressFamily::V6).unwrap_err(),
        ClassificationError::TooShort
    );
}

#[test]
fn decode_rejects_other_types_and_codes() {
    let destination_unreachable = [3u8, 0, 0, 0, 0, 0, 0, 0];
    assert_eq!(
        decode_message(&destination_unreachable, AddressFamily::V4).unwrap_err(),
        ClassificationError::UnknownType
    );
    let reply_with_code = [0u8, 1, 0, 0, 0, 0, 0, 0];
    assert_eq!(
        decode_message(&reply_with_code, AddressFamily::V4).unwrap_err(),
        ClassificationError::UnknownType
    );
    let v4_request_on_v6 = [8u8, 0, 0, 0, 0, 0, 0, 0];
    assert_eq!(
        decode_message(&v4_request_on_v6, AddressFamily::V6).unwrap_err(),
        ClassificationError::UnknownType
    );
}

#[test]
fn decode_tells_request_from_reply() {
    let v4_reply = [0u8, 0, 0, 0, 0x12, 0x34, 0, 7];
    let v4_request = [8u8, 0, 0, 0, 0x12, 0x34, 0, 7];
    let v6_reply = [129u8, 0, 0, 0, 0x12, 0x34, 0, 7];
    let v6_request = [128u8, 0, 0, 0, 0x12, 0x34, 0, 7];
    assert_eq!(decode_message(&v4_reply, AddressFamily::V4).unwrap().kind, MessageKind::Reply);
    assert_eq!(
        decode_message(&v4_request, AddressFamily::V4).unwrap().kind,
        MessageKind::Request
    );
    assert_eq!(decode_message(&v6_reply, AddressFamily::V6).unwrap().kind, MessageKind::Reply);
    assert_eq!(
        decode_message(&v6_request, AddressFamily::V6).unwrap().kind,
        MessageKind::Request
    );
    let message = decode_message(&v4_reply, AddressFamily::V4).unwrap();
    assert_eq!(message.identifier, 0x1234);
    assert_eq!(message.sequence, 7);
    assert!(message.payload.is_empty());
}

#[test]
fn type_codes_of_both_families() {
    assert_eq!(AddressFamily::V4.type_of(MessageKind::Request), 8);
    assert_eq!(AddressFamily::V4.type_of(MessageKind::Reply), 0);
    assert_eq!(AddressFamily::V6.type_of(MessageKind::Request), 128);
    assert_eq!(AddressFamily::V6.type_of(MessageKind::Reply), 129);
    assert_eq!(AddressFamily::V4.kind_of(8, 0), Some(MessageKind::Request));
    assert_eq!(AddressFamily::V4.kind_of(128, 0), None);
    assert_eq!(AddressFamily::V6.kind_of(129, 0), Some(MessageKind::Reply));
    assert_eq!(AddressFamily::V6.kind_of(129, 3), None);
    assert_eq!(AddressFamily::V4.protocol_number(), 1);
    assert_eq!(AddressFamily::V6.protocol_number(), 58);
}

#[test]
fn envelope_of_20_bytes_comes_off() {
    let datagram = datagram_with_header(5, 60);
    assert_eq!(decode_envelope(&datagram, AddressFamily::V4), Ok(&datagram[20..]));
}

#[test]
fn envelope_of_24_bytes_comes_off() {
    let datagram = datagram_with_header(6, 60);
    assert_eq!(decode_envelope(&datagram, AddressFamily::V4), Ok(&datagram[24..]));
}

#[test]
fn envelope_of_40_bytes_comes_off() {
    let datagram = datagram_with_header(10, 60);
    assert_eq!(decode_envelope(&datagram, AddressFamily::V4), Ok(&datagram[40..]));
}

#[test]
fn envelope_of_60_bytes_comes_off() {
    let datagram = datagram_with_header(15, 100);
    assert_eq!(decode_envelope(&datagram, AddressFamily::V4), Ok(&datagram[60..]));
    let nothing_behind = datagram_with_header(15, 60);
    assert_eq!(decode_envelope(&nothing_behind, AddressFamily::V4), Ok(&nothing_behind[60..]));
    assert_eq!(decode_envelope(&nothing_behind, AddressFamily::V4).unwrap().len(), 0);
}

#[test]
fn envelope_shorter_than_a_header_fails() {
    let datagram = datagram_with_header(5, IPV4_MIN_HEADER_SIZE - 1);
    assert_eq!(decode_envelope(&datagram, AddressFamily::V4), Err(EnvelopeError::TooShort));
    assert_eq!(decode_envelope(&[], AddressFamily::V4), Err(EnvelopeError::TooShort));
}

#[test]
fn envelope_that_declares_too_much_fails() {
    let datagram = datagram_with_header(15, 59);
    assert_eq!(decode_envelope(&datagram, AddressFamily::V4), Err(EnvelopeError::HeaderLength));
    let datagram = datagram_with_header(6, 23);
    assert_eq!(decode_envelope(&datagram, AddressFamily::V4), Err(EnvelopeError::HeaderLength));
}

#[test]
fn ipv6_has_no_envelope() {
    let datagram = datagram_with_header(15, 12);
    assert_eq!(decode_envelope(&datagram, AddressFamily::V6), Ok(&datagram[..]));
    assert_eq!(decode_envelope(&[], AddressFamily::V6), Ok(&[][..]));
}

#[test]
fn sender_is_read_off_the_header() {
    let mut datagram = datagram_with_header(5, 28);
    datagram[12..16].copy_from_slice(&[10, 8, 0, 6]);
    assert_eq!(source_address(&datagram), Some([10, 8, 0, 6]));
    assert_eq!(source_address(&datagram[..20]), Some([10, 8, 0, 6]));
    assert_eq!(source_address(&datagram[..19]), None);
    assert_eq!(source_address(&[]), None);
}
