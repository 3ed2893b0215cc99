use xbfisher::codec::AddressFamily;
use xbfisher::errors::Error;
use xbfisher::probe::PingReturn;
use xbfisher::session::{
    PingSession, PingSummary, FIRST_SEQUENCE, RUN_HOP_LIMIT, RUN_PAUSE, RUN_TIMEOUT,
};
use xbfisher::station::{FIXED_SEQUENCE, STATION_IDENTIFIER};

fn answered(time: u64, seq_cnt: u16) -> Result<PingReturn, Error> {
    Ok(PingReturn { time, seq_cnt })
}

fn timed_out() -> Result<PingReturn, Error> {
    Err(Error::Timeout { elapsed: 2_000_000 })
}

#[test]
fn ten_probes_with_three_timeouts_lose_thirty_percent() {
    let mut session = PingSession::counted(10);
    for i in 0..10u16 {
        assert!(!session.is_done());
        let request = session.next_request(AddressFamily::V4).unwrap();
        assert_eq!(request.sequence, i + 1);
        if i == 2 || i == 5 || i == 9 {
            assert_eq!(session.record(timed_out()), None);
        } else {
            assert_eq!(session.record(answered(1_000 + i as u64, request.sequence)), Some(RUN_PAUSE));
        }
    }
    assert!(session.is_done());
    assert!(session.next_request(AddressFamily::V4).is_none());
    let summary = session.summary();
    assert_eq!(summary.transmitted, 10);
    assert_eq!(summary.received, 7);
    assert_eq!(summary.lost, 3);
    assert_eq!(summary.loss_millipercent(), Some(30_000));
    let percent = summary.loss_millipercent().unwrap() as f64 / 1000.0;
    assert_eq!(percent, 30.0);
    assert_ne!(summary.loss_millipercent(), Some(0));
}

#[test]
fn loss_is_not_rounded_before_it_is_scaled() {
    let summary = |lost: u16, transmitted: u16| PingSummary {
        transmitted: transmitted as u32,
        received: transmitted - lost,
        lost,
        fastest: None,
        slowest: None,
        total: 0,
    };
    assert_eq!(summary(0, 10).loss_millipercent(), Some(0));
    assert_eq!(summary(1, 10).loss_millipercent(), Some(10_000));
    assert_eq!(summary(10, 10).loss_millipercent(), Some(100_000));
    assert_eq!(summary(1, 3).loss_millipercent(), Some(33_333));
    assert_eq!(summary(2, 3).loss_millipercent(), Some(66_666));
    assert_eq!(summary(1, 65535).loss_millipercent(), Some(1));
    assert_eq!(summary(65534, 65535).loss_millipercent(), Some(99_998));
    assert_eq!(summary(0, 0).loss_millipercent(), None);
}

#[test]
fn run_requests_are_station_probes() {
    let session = PingSession::counted(3);
    let request = session.next_request(AddressFamily::V6).unwrap();
    assert_eq!(request.family, AddressFamily::V6);
    assert_eq!(request.timeout, 2_000_000);
    assert_eq!(request.timeout, RUN_TIMEOUT);
    assert_eq!(request.hop_limit, 64);
    assert_eq!(request.hop_limit, RUN_HOP_LIMIT);
    assert_eq!(request.identifier, 3);
    assert_eq!(request.identifier, STATION_IDENTIFIER);
    assert_eq!(request.sequence, 1);
    assert_eq!(request.sequence, FIRST_SEQUENCE);
    let payload = [0x77u8; 32];
    let request = session.next_request_with(AddressFamily::V4, payload).unwrap();
    assert_eq!(request.payload, payload);
    assert_eq!(request.family, AddressFamily::V4);
}

#[test]
fn counted_run_follows_the_echoed_sequence() {
    let mut session = PingSession::counted(5);
    session.record(answered(10, 1));
    assert_eq!(session.next_request(AddressFamily::V4).unwrap().sequence, 2);
    session.record(answered(10, 40));
    assert_eq!(session.next_request(AddressFamily::V4).unwrap().sequence, 41);
    session.record(timed_out());
    assert_eq!(session.next_request(AddressFamily::V4).unwrap().sequence, 42);
    session.record(answered(10, u16::MAX));
    assert_eq!(session.next_request(AddressFamily::V4).unwrap().sequence, 0);
}

#[test]
fn counted_run_wraps_after_the_last_number() {
    let mut session = PingSession::counted(3);
    session.record(answered(10, u16::MAX - 1));
    assert_eq!(session.next_request(AddressFamily::V4).unwrap().sequence, u16::MAX);
    session.record(timed_out());
    assert_eq!(session.next_request(AddressFamily::V4).unwrap().sequence, 0);
}

#[test]
fn uncounted_run_keeps_its_sequence() {
    let mut session = PingSession::uncounted(4);
    assert_eq!(session.next_request(AddressFamily::V4).unwrap().sequence, 5);
    assert_eq!(session.next_request(AddressFamily::V4).unwrap().sequence, FIXED_SEQUENCE);
    session.record(answered(10, 9));
    assert_eq!(session.next_request(AddressFamily::V4).unwrap().sequence, 5);
    session.record(timed_out());
    assert_eq!(session.next_request(AddressFamily::V4).unwrap().sequence, 5);
}

#[test]
fn run_pauses_only_after_an_answer() {
    let mut session = PingSession::uncounted(3);
    assert_eq!(session.record(answered(10, 5)), Some(1_000_000));
    assert_eq!(session.record(Err(Error::IoError { code: 1 })), None);
    assert_eq!(session.record(answered(10, 5)), Some(1_000_000));
    assert!(session.is_done());
    assert_eq!(session.record(answered(10, 5)), None);
    assert_eq!(session.summary().transmitted, 3);
    assert_eq!(session.latencies(), &vec![10, 10]);
}

#[test]
fn run_of_no_probes_is_done_at_once() {
    let mut session = PingSession::counted(0);
    assert!(session.is_done());
    assert!(session.next_request(AddressFamily::V4).is_none());
    assert_eq!(session.record(answered(1, 1)), None);
    let summary = session.summary();
    assert_eq!(summary.transmitted, 0);
    assert_eq!(summary.loss_millipercent(), None);
    assert_eq!(summary.mean(), None);
    assert_eq!(summary.fastest, None);
    assert_eq!(summary.slowest, None);
    assert_eq!(summary.total, 0);
}

#[test]
fn summary_of_round_trip_times() {
    let mut session = PingSession::uncounted(6);
    for time in [1_200u64, 800, 2_500, 800, 1_001] {
        session.record(answered(time, 5));
    }
    session.record(timed_out());
    let summary = session.summary();
    assert_eq!(summary.received, 5);
    assert_eq!(summary.lost, 1);
    assert_eq!(summary.fastest, Some(800));
    assert_eq!(summary.slowest, Some(2_500));
    assert_eq!(summary.total, 6_301);
    assert_eq!(summary.mean(), Some(1_260));
    assert_eq!(summary.loss_millipercent(), Some(16_666));
    assert_eq!(session.latencies(), &vec![1_200, 800, 2_500, 800, 1_001]);
}

#[test]
fn summary_holds_the_largest_times() {
    let mut session = PingSession::uncounted(2);
    session.record(answered(u64::MAX, 5));
    session.record(answered(u64::MAX, 5));
    let summary = session.summary();
    assert_eq!(summary.total, 2 * (u64::MAX as u128));
    assert_eq!(summary.mean(), Some(u64::MAX as u128));
    assert_eq!(summary.fastest, Some(u64::MAX));
}

#[test]
fn summary_when_nothing_came_back() {
    let mut session = PingSession::counted(2);
    session.record(timed_out());
    session.record(timed_out());
    let summary = session.summary();
    assert_eq!(summary.loss_millipercent(), Some(100_000));
    assert_eq!(summary.mean(), None);
    assert_eq!(summary.fastest, None);
}
