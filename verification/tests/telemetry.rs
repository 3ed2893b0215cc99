use xbfisher::clock::TimeOfDay;
use xbfisher::codec::{decode_message, AddressFamily, EchoMessage, MessageKind};
use xbfisher::errors::{ClassificationError, EncodeError, EnvelopeError, Error, Rejection};
use xbfisher::exchange::Phase;
use xbfisher::telemetry::{
    collect_data, compose_record, parse_data, Agent, AgentVerdict, Collector, CollectorAction,
    Discard, REPLY_CAPACITY, REPLY_DELAY, REPLY_TAG, REQUEST_FRAME_SIZE, REQUEST_PAYLOAD_SIZE, REQUEST_TAG,
    SERVICE_IDENTIFIER,
};

fn envelope(frame: &[u8]) -> Vec<u8> {
    let mut datagram = vec![0u8; 20];
    datagram[0] = 0x45;
    datagram[9] = 1;
    datagram.extend_from_slice(frame);
    datagram
}

fn frame_of(kind: MessageKind, identifier: u16, payload: &[u8]) -> Vec<u8> {
    let message = EchoMessage { kind, identifier, sequence: 1, payload };
    let mut buffer = vec![0u8; 8 + payload.len()];
    message.encode(AddressFamily::V4, &mut buffer[..]).unwrap();
    buffer
}

fn request_payload() -> Vec<u8> {
    let mut payload = b"Suiladmellon".to_vec();
    payload.resize(24, 0);
    payload
}

fn waiting_collector(timeout: u64) -> Collector {
    let mut collector = Collector::new(AddressFamily::V4, Some(timeout));
    let mut buffer = [0u8; 32];
    assert_eq!(collector.encode_request(&mut buffer[..]), Ok(32));
    assert_eq!(collector.on_sent(0), CollectorAction::Listen { budget: timeout });
    collector
}

fn fields(texts: &[&str]) -> CollectorAction {
    CollectorAction::Finish(Ok(texts.iter().map(|t| t.to_string()).collect()))
}

#[test]
fn tags_and_sizes() {
    assert_eq!(&REQUEST_TAG, b"Suiladmellon");
    assert_eq!(&REPLY_TAG, b"suilad");
    assert_eq!(SERVICE_IDENTIFIER, 4169);
    assert_eq!(REQUEST_PAYLOAD_SIZE, 24);
    assert_eq!(REQUEST_FRAME_SIZE, 32);
    assert_eq!(REPLY_CAPACITY, 2040);
    assert_eq!(REPLY_DELAY, 1_000_000);
}

#[test]
fn collector_request_on_the_wire() {
    let mut collector = Collector::new(AddressFamily::V4, None);
    assert_eq!(collector.current_phase(), Phase::Idle);
    let mut buffer = [0xaau8; 40];
    assert_eq!(collector.encode_request(&mut buffer[..]), Ok(32));
    assert_eq!(collector.current_phase(), Phase::Sent);
    assert_eq!(&buffer[..8], &[8, 0, 128, 47, 16, 73, 0, 1]);
    assert_eq!(&buffer[8..20], b"Suiladmellon");
    assert_eq!(&buffer[20..32], &[0u8; 12]);
    assert_eq!(&buffer[32..], &[0xaau8; 8]);
    let decoded = decode_message(&buffer[..32], AddressFamily::V4).unwrap();
    assert_eq!(decoded.identifier, 4169);
    assert_eq!(decoded.sequence, 1);
    assert_eq!(decoded.kind, MessageKind::Request);
}

#[test]
fn collector_waits_four_seconds_by_default() {
    let mut collector = Collector::new(AddressFamily::V4, None);
    let mut buffer = [0u8; 32];
    collector.encode_request(&mut buffer[..]).unwrap();
    assert_eq!(collector.on_sent(1_000_000), CollectorAction::Listen { budget: 3_000_000 });
}

#[test]
fn collector_fails_on_a_small_buffer() {
    let mut collector = Collector::new(AddressFamily::V4, None);
    let mut buffer = [7u8; 31];
    assert_eq!(collector.encode_request(&mut buffer[..]), Err(Error::InternalError));
    assert_eq!(collector.current_phase(), Phase::Fatal);
    assert_eq!(buffer, [7u8; 31]);
}

#[test]
fn agent_answers_the_exact_tag() {
    let agent = Agent::new(AddressFamily::V4);
    let datagram = envelope(&frame_of(MessageKind::Request, 4169, &request_payload()));
    assert_eq!(agent.inspect(&datagram), AgentVerdict::Respond);
    let bare_tag = envelope(&frame_of(MessageKind::Request, 4169, b"Suiladmellon"));
    assert_eq!(agent.inspect(&bare_tag), AgentVerdict::Respond);
}

#[test]
fn agent_drops_a_tag_that_differs_in_one_byte() {
    let agent = Agent::new(AddressFamily::V4);
    for at in 0..12 {
        for flip in [0x01u8, 0x20, 0x80] {
            let mut payload = request_payload();
            payload[at] ^= flip;
            let datagram = envelope(&frame_of(MessageKind::Request, 4169, &payload));
            assert_eq!(
                agent.inspect(&datagram),
                AgentVerdict::Discard(Discard::Rejected(Rejection::TagMismatch))
            );
        }
    }
}

#[test]
fn agent_drops_a_tag_that_is_cut_short() {
    let agent = Agent::new(AddressFamily::V4);
    for len in 0..12 {
        let datagram = envelope(&frame_of(MessageKind::Request, 4169, &b"Suiladmellon"[..len]));
        assert_eq!(
            agent.inspect(&datagram),
            AgentVerdict::Discard(Discard::Rejected(Rejection::TagMismatch))
        );
    }
}

#[test]
fn agent_drops_other_identifiers() {
    let agent = Agent::new(AddressFamily::V4);
    let datagram = envelope(&frame_of(MessageKind::Request, 4170, &request_payload()));
    assert_eq!(
        agent.inspect(&datagram),
        AgentVerdict::Discard(Discard::Rejected(Rejection::IdentifierMismatch))
    );
}

#[test]
fn agent_survives_malformed_traffic() {
    let agent = Agent::new(AddressFamily::V4);
    assert_eq!(agent.inspect(&[]), AgentVerdict::Discard(Discard::Framing(EnvelopeError::TooShort)));
    assert_eq!(
        agent.inspect(&[0x4f; 40]),
        AgentVerdict::Discard(Discard::Framing(EnvelopeError::HeaderLength))
    );
    assert_eq!(
        agent.inspect(&envelope(&[8, 0, 0])),
        AgentVerdict::Discard(Discard::Rejected(Rejection::Classification(
            ClassificationError::TooShort
        )))
    );
    assert_eq!(
        agent.inspect(&envelope(&[11, 0, 0, 0, 0, 0, 0, 0, 1, 2, 3])),
        AgentVerdict::Discard(Discard::Rejected(Rejection::Classification(
            ClassificationError::UnknownType
        )))
    );
}

#[test]
fn agent_reply_is_tag_then_record() {
    let agent = Agent::new(AddressFamily::V4);
    let mut buffer = [0u8; 2048];
    let record = "14:32...22.500...37%";
    assert_eq!(agent.encode_reply(record, &mut buffer[..]), Ok(34));
    assert_eq!(&buffer[..8], &[8, 0, 185, 141, 16, 73, 0, 1]);
    assert_eq!(&buffer[8..14], b"suilad");
    assert_eq!(&buffer[14..34], record.as_bytes());
    assert_eq!(&buffer[34..], &[0u8; 2014][..]);
}

#[test]
fn agent_reply_is_cut_where_the_frame_is_full() {
    let agent = Agent::new(AddressFamily::V4);
    let record = "x".repeat(3000);
    let mut buffer = [0u8; 2048];
    assert_eq!(agent.encode_reply(&record, &mut buffer[..]), Ok(2048));
    assert_eq!(&buffer[8..14], b"suilad");
    assert_eq!(&buffer[14..], &[b'x'; 2034][..]);
    let exactly = "y".repeat(2034);
    assert_eq!(agent.encode_reply(&exactly, &mut buffer[..]), Ok(2048));
    let one_less = "z".repeat(2033);
    assert_eq!(agent.encode_reply(&one_less, &mut buffer[..]), Ok(2047));
}

#[test]
fn agent_reply_needs_room() {
    let agent = Agent::new(AddressFamily::V4);
    let mut buffer = [3u8; 33];
    assert_eq!(
        agent.encode_reply("14:32...22.500...37%", &mut buffer[..]),
        Err(EncodeError::BufferTooSmall)
    );
    assert_eq!(buffer, [3u8; 33]);
    let mut buffer = [0u8; 14];
    assert_eq!(agent.encode_reply("", &mut buffer[..]), Ok(14));
}

#[test]
fn end_to_end_exchange() {
    // the collector asks
    let mut collector = Collector::new(AddressFamily::V4, Some(4_000_000));
    let mut question = [0u8; 32];
    assert_eq!(collector.encode_request(&mut question[..]), Ok(32));
    assert_eq!(collector.on_sent(120), CollectorAction::Listen { budget: 3_999_880 });
    let sent = decode_message(&question, AddressFamily::V4).unwrap();
    assert_eq!(sent.identifier, 4169);
    assert_eq!(&sent.payload[..12], b"Suiladmellon");
    assert_eq!(&sent.payload[12..], &[0u8; 12]);

    // the agent, on the same host, hears it and answers
    let agent = Agent::new(AddressFamily::V4);
    assert_eq!(agent.inspect(&envelope(&question)), AgentVerdict::Respond);
    let mut answer = [0u8; 2048];
    let length = agent.encode_reply("14:32...22.500...37%", &mut answer[..]).unwrap();
    let received = decode_message(&answer[..length], AddressFamily::V4).unwrap();
    assert_eq!(received.identifier, 4169);
    assert_eq!(received.payload, b"suilad14:32...22.500...37%");

    // the collector hears its own question first, then the answer
    assert_eq!(
        collector.on_datagram(&envelope(&question), 300),
        CollectorAction::Listen { budget: 3_999_700 }
    );
    assert_eq!(
        collector.on_datagram(&envelope(&answer[..length]), 1_000_450),
        fields(&["14:32", "22.500", "37%"])
    );
    assert_eq!(collector.current_phase(), Phase::Matched);
}

#[test]
fn collector_accepts_either_kind_of_frame() {
    let mut collector = waiting_collector(1_000);
    let datagram = envelope(&frame_of(MessageKind::Reply, 4169, b"suilada...b"));
    assert_eq!(collector.on_datagram(&datagram, 1), fields(&["a", "b"]));
}

#[test]
fn collector_drops_the_wrong_tag() {
    let mut collector = waiting_collector(1_000);
    for payload in [&b"Suilad14:32"[..], b"suila", b"", b"suilaD...", b"xsuilad"] {
        let datagram = envelope(&frame_of(MessageKind::Request, 4169, payload));
        assert_eq!(collector.on_datagram(&datagram, 10), CollectorAction::Listen { budget: 990 });
        assert_eq!(collector.current_phase(), Phase::Awaiting);
    }
}

#[test]
fn collector_drops_other_identifiers() {
    let mut collector = waiting_collector(1_000);
    let datagram = envelope(&frame_of(MessageKind::Request, 4168, b"suilad1...2...3"));
    assert_eq!(collector.on_datagram(&datagram, 10), CollectorAction::Listen { budget: 990 });
}

#[test]
fn collector_times_out() {
    let mut collector = waiting_collector(200_000);
    assert_eq!(collector.on_silence(100_000), CollectorAction::Listen { budget: 100_000 });
    let noise = envelope(&frame_of(MessageKind::Request, 1, b"suilad"));
    assert_eq!(
        collector.on_datagram(&noise, 200_001),
        CollectorAction::Finish(Err(Error::Timeout { elapsed: 200_001 }))
    );
    assert_eq!(collector.current_phase(), Phase::TimedOut);
}

#[test]
fn collector_gives_up_on_a_broken_envelope() {
    let mut collector = waiting_collector(1_000);
    assert_eq!(
        collector.on_datagram(&[0x45, 1, 2], 10),
        CollectorAction::Finish(Err(Error::DecodeV4Error))
    );
    assert_eq!(collector.current_phase(), Phase::Fatal);
}

#[test]
fn collector_gives_up_on_a_transport_failure() {
    let mut collector = waiting_collector(1_000);
    assert_eq!(
        collector.on_transport_error(101),
        CollectorAction::Finish(Err(Error::IoError { code: 101 }))
    );
    assert_eq!(collector.current_phase(), Phase::Fatal);
}

#[test]
fn collector_fails_on_a_record_that_is_not_text() {
    let mut collector = waiting_collector(1_000);
    let mut payload = b"suilad".to_vec();
    payload.extend_from_slice(&[0xff, 0xfe, b'.', b'.', b'.']);
    let datagram = envelope(&frame_of(MessageKind::Request, 4169, &payload));
    assert_eq!(
        collector.on_datagram(&datagram, 10),
        CollectorAction::Finish(Err(Error::DecodeTextError))
    );
    assert_eq!(collector.current_phase(), Phase::Fatal);
}

#[test]
fn collector_out_of_turn() {
    let mut collector = Collector::new(AddressFamily::V4, None);
    assert_eq!(collector.on_silence(5), CollectorAction::Finish(Err(Error::InternalError)));
    assert_eq!(collector.current_phase(), Phase::Fatal);
}

#[test]
fn record_of_an_empty_body_is_one_empty_field() {
    assert_eq!(parse_data(b""), Ok(vec![String::new()]));
    let mut collector = waiting_collector(1_000);
    let datagram = envelope(&frame_of(MessageKind::Request, 4169, b"suilad"));
    assert_eq!(collector.on_datagram(&datagram, 10), fields(&[""]));
}

#[test]
fn record_fields_are_cut_leftmost_first() {
    assert_eq!(parse_data(b"a....b"), Ok(vec!["a".to_string(), ".b".to_string()]));
    assert_eq!(
        parse_data(b"......"),
        Ok(vec![String::new(), String::new(), String::new()])
    );
    assert_eq!(parse_data(b"..a.."), Ok(vec!["..a..".to_string()]));
    assert_eq!(parse_data(b"a..."), Ok(vec!["a".to_string(), String::new()]));
    assert_eq!(parse_data(b"...a"), Ok(vec![String::new(), "a".to_string()]));
}

#[test]
fn record_may_hold_any_text() {
    assert_eq!(
        parse_data("9:5...21.5 °C...Error: kaputt…".as_bytes()),
        Ok(vec!["9:5".to_string(), "21.5 °C".to_string(), "Error: kaputt…".to_string()])
    );
}

#[test]
fn record_keeps_padding() {
    assert_eq!(
        parse_data(b"1...2\0\0"),
        Ok(vec!["1".to_string(), "2\0\0".to_string()])
    );
}

#[test]
fn record_that_is_not_utf8_is_an_error() {
    assert_eq!(parse_data(&[0x80]), Err(Error::DecodeTextError));
    assert_eq!(parse_data(&[b'a', 0xc3]), Err(Error::DecodeTextError));
    assert_eq!(parse_data(&[0xed, 0xa0, 0x80]), Err(Error::DecodeTextError));
}

#[test]
fn record_is_composed_of_three_fields() {
    let time = TimeOfDay { hour: 14, minute: 32 };
    let record = compose_record(time, &Ok("22.500".to_string()), &Ok("37".to_string()));
    assert_eq!(record, "14:32...22.500...37%");
    assert_eq!(
        parse_data(record.as_bytes()),
        Ok(vec!["14:32".to_string(), "22.500".to_string(), "37%".to_string()])
    );
}

#[test]
fn record_shows_failed_readings() {
    let time = TimeOfDay { hour: 0, minute: 5 };
    let record =
        compose_record(time, &Err("no sensor".to_string()), &Err("not supported".to_string()));
    assert_eq!(record, "0:5...Error: no sensor...Error: not supported");
}

#[test]
fn record_is_stamped_with_the_clock() {
    let record = collect_data(&Ok("40".to_string()), &Ok("1.5".to_string()));
    let fields = parse_data(record.as_bytes()).unwrap();
    assert_eq!(fields.len(), 3);
    assert_eq!(fields[1], "40");
    assert_eq!(fields[2], "1.5%");
    let clock: Vec<&str> = fields[0].split(':').collect();
    assert_eq!(clock.len(), 2);
    let hour: u32 = clock[0].parse().unwrap();
    let minute: u32 = clock[1].parse().unwrap();
    assert!(hour < 24);
    assert!(minute < 60);
    assert_eq!(fields[0], format!("{}:{}", hour, minute));
}
