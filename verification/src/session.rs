//! The station probe: a run of probes to one station, one after the other,
//! and the figures that sum the run up.
//!
//! A [`PingSession`] keeps the count. Its caller runs each probe it asks
//! for, reports the outcome, and pauses where it is told to. Times are in
//! microseconds.

use crate::codec::AddressFamily;
use crate::entropy::random_token;
use crate::errors::Error;
use crate::probe::{PingReturn, ProbeRequest, Token};
use crate::station::{FIXED_SEQUENCE, STATION_IDENTIFIER};
use vstd::prelude::*;

verus! {

/// The time budget of each probe of a run: two seconds.
pub const RUN_TIMEOUT: u64 = 2_000_000;

/// The hop limit of each probe of a run.
pub const RUN_HOP_LIMIT: u32 = 64;

/// The pause after a probe that was answered: one second.
pub const RUN_PAUSE: u64 = 1_000_000;

/// The sequence number of the first probe of a counted run.
pub const FIRST_SEQUENCE: u16 = 1;

/// The thousandths of a percent in the whole.
pub const MILLIPERCENT: u64 = 100_000;

/// The smallest of `values`, if there is any.
pub open spec fn least(values: Seq<u64>) -> Option<u64>
    decreases values.len(),
{
    if values.len() == 0 {
        None
    } else {
        match least(values.drop_last()) {
            Some(m) if m <= values.last() => Some(m),
            _ => Some(values.last()),
        }
    }
}

/// The largest of `values`, if there is any.
pub open spec fn greatest(values: Seq<u64>) -> Option<u64>
    decreases values.len(),
{
    if values.len() == 0 {
        None
    } else {
        match greatest(values.drop_last()) {
            Some(m) if m >= values.last() => Some(m),
            _ => Some(values.last()),
        }
    }
}

/// The sum of `values`.
pub open spec fn total(values: Seq<u64>) -> nat
    decreases values.len(),
{
    if values.len() == 0 {
        0
    } else {
        total(values.drop_last()) + values.last() as nat
    }
}

/// The share of `failures` in `attempts` in thousandths of a percent,
/// rounded down. The share is taken of the whole before anything is
/// rounded: three failures in ten attempts are 30000, that is 30.000 %.
pub open spec fn loss_share(failures: nat, attempts: nat) -> nat {
    failures * 100_000 / attempts
}

/// The loss is the true ratio of failures to attempts, to within one
/// thousandth of a percent below it: it is not a ratio that was rounded to
/// a whole number before it was scaled. It is zero for no failure, the whole
/// for nothing but failures, and for up to 100000 attempts it is above zero
/// as soon as one probe failed.
pub proof fn lemma_loss_is_ratio(failures: nat, attempts: nat)
    requires
        attempts > 0,
        failures <= attempts,
    ensures
        loss_share(failures, attempts) * attempts <= failures * 100_000,
        failures * 100_000 < (loss_share(failures, attempts) + 1) * attempts,
        loss_share(failures, attempts) <= 100_000,
        failures == 0 ==> loss_share(failures, attempts) == 0,
        failures > 0 && attempts <= 100_000 ==> loss_share(failures, attempts) > 0,
        failures == attempts <==> loss_share(failures, attempts) == 100_000,
{
    let share = loss_share(failures, attempts);
    let scaled = failures * 100_000;
    vstd::arithmetic::div_mod::lemma_fundamental_div_mod(scaled as int, attempts as int);
    vstd::arithmetic::div_mod::lemma_mod_bound(scaled as int, attempts as int);
    assert(scaled == attempts * share + scaled % attempts);
    assert(share * attempts == attempts * share) by (nonlinear_arith);
    assert((share + 1) * attempts == share * attempts + attempts) by (nonlinear_arith);
    assert(share <= 100_000) by (nonlinear_arith)
        requires
            share * attempts <= failures * 100_000,
            failures <= attempts,
            attempts > 0,
    ;
    if failures == attempts {
        assert(share >= 100_000) by (nonlinear_arith)
            requires
                attempts * 100_000 < (share + 1) * attempts,
                attempts > 0,
        ;
    }
    if share == 100_000 {
        assert(failures >= attempts) by (nonlinear_arith)
            requires
                100_000 * attempts <= failures * 100_000,
        ;
    }
    if failures == 0 {
        assert(share == 0) by (nonlinear_arith)
            requires
                share * attempts <= 0,
                attempts > 0,
        ;
    }
    if failures > 0 && attempts <= 100_000 && share == 0 {
        assert((share + 1) * attempts == attempts) by (nonlinear_arith)
            requires
                share == 0,
        ;
        assert(failures * 100_000 >= 100_000);
    }
}

/// The figures of a finished or unfinished run.
#[derive(Clone, Copy, Debug, PartialEq, Eq, Structural)]
pub struct PingSummary {
    /// The probes that were sent.
    pub transmitted: u32,
    /// The probes that were answered.
    pub received: u16,
    /// The probes that were not.
    pub lost: u16,
    /// The shortest round-trip time.
    pub fastest: Option<u64>,
    /// The longest round-trip time.
    pub slowest: Option<u64>,
    /// The sum of all round-trip times.
    pub total: u128,
}

impl PingSummary {
    /// The packet loss in thousandths of a percent, rounded down; `None`
    /// before the first probe.
    pub fn loss_millipercent(&self) -> (loss: Option<u64>)
        ensures
            self.transmitted == 0 <==> loss is None,
            loss matches Some(share) ==> share == loss_share(
                self.lost as nat,
                self.transmitted as nat,
            ),
    {
        if self.transmitted == 0 {
            None
        } else {
            let scaled: u64 = (self.lost as u64) * MILLIPERCENT;
            Some(scaled / (self.transmitted as u64))
        }
    }

    /// The mean round-trip time, rounded down; `None` where no probe was
    /// answered.
    pub fn mean(&self) -> (mean: Option<u128>)
        ensures
            self.received == 0 <==> mean is None,
            mean matches Some(m) ==> m == self.total / (self.received as u128),
    {
        if self.received == 0 {
            None
        } else {
            Some(self.total / (self.received as u128))
        }
    }
}

/// A run of probes to one station.
pub struct PingSession {
    count: u16,
    counted: bool,
    sequence: u16,
    successes: u16,
    failures: u16,
    latencies: Vec<u64>,
}

/// A [`PingSession`] as a mathematical value.
pub struct SessionModel {
    /// How many probes the run is to make.
    pub count: u16,
    /// Whether the probes are numbered one by one.
    pub counted: bool,
    /// The sequence number of the next probe.
    pub sequence: u16,
    pub successes: u16,
    pub failures: u16,
    /// The round-trip times of the answered probes, in order.
    pub latencies: Seq<u64>,
}

impl SessionModel {
    /// Whether the run has made all its probes.
    pub open spec fn done(self) -> bool {
        self.successes + self.failures >= self.count
    }

    /// The run after the outcome of one more probe. An answered probe adds
    /// its round-trip time; in a counted run the next sequence number is one
    /// above the echoed one, or one above the last where nothing came back.
    /// A run that is done takes no more outcomes.
    pub open spec fn after(self, outcome: Result<PingReturn, Error>) -> SessionModel {
        if self.done() {
            self
        } else {
            match outcome {
                Ok(answer) => SessionModel {
                    sequence: if self.counted {
                        if answer.seq_cnt == u16::MAX {
                            0
                        } else {
                            (answer.seq_cnt + 1) as u16
                        }
                    } else {
                        self.sequence
                    },
                    successes: (self.successes + 1) as u16,
                    latencies: self.latencies.push(answer.time),
                    ..self
                },
                Err(_) => SessionModel {
                    sequence: if self.counted {
                        if self.sequence == u16::MAX {
                            0
                        } else {
                            (self.sequence + 1) as u16
                        }
                    } else {
                        self.sequence
                    },
                    failures: (self.failures + 1) as u16,
                    ..self
                },
            }
        }
    }

    /// The pause that follows an outcome: an answered probe is followed by
    /// the fixed delay, a failed one by none.
    pub open spec fn pause_after(self, outcome: Result<PingReturn, Error>) -> Option<u64> {
        if !self.done() && outcome is Ok {
            Some(RUN_PAUSE)
        } else {
            None
        }
    }

    /// The figures of the run.
    pub open spec fn summary(self) -> PingSummary {
        PingSummary {
            transmitted: (self.successes + self.failures) as u32,
            received: self.successes,
            lost: self.failures,
            fastest: least(self.latencies),
            slowest: greatest(self.latencies),
            total: total(self.latencies) as u128,
        }
    }
}

impl View for PingSession {
    type V = SessionModel;

    closed spec fn view(&self) -> SessionModel {
        SessionModel {
            count: self.count,
            counted: self.counted,
            sequence: self.sequence,
            successes: self.successes,
            failures: self.failures,
            latencies: self.latencies@,
        }
    }
}

impl PingSession {
    /// The run is consistent: it has not made more probes than it was to
    /// make, and it holds one round-trip time for each answered probe. Every
    /// run is made so and stays so.
    pub open spec fn wf(&self) -> bool {
        &&& self@.successes + self@.failures <= self@.count
        &&& self@.latencies.len() == self@.successes
    }

    /// A fresh run of `count` probes that are numbered one by one, from 1.
    pub open spec fn counted_run(count: u16) -> SessionModel {
        SessionModel {
            count,
            counted: true,
            sequence: FIRST_SEQUENCE,
            successes: 0,
            failures: 0,
            latencies: Seq::empty(),
        }
    }

    /// A fresh run of `count` probes that all carry the fixed sequence number.
    pub open spec fn uncounted_run(count: u16) -> SessionModel {
        SessionModel {
            count,
            counted: false,
            sequence: FIXED_SEQUENCE,
            successes: 0,
            failures: 0,
            latencies: Seq::empty(),
        }
    }

    /// A run of `count` probes that are numbered one by one, from 1.
    pub fn counted(count: u16) -> (session: PingSession)
        ensures
            session.wf(),
            session@ == PingSession::counted_run(count),
    {
        PingSession {
            count,
            counted: true,
            sequence: FIRST_SEQUENCE,
            successes: 0,
            failures: 0,
            latencies: Vec::new(),
        }
    }

    /// A run of `count` probes that all carry the fixed sequence number.
    pub fn uncounted(count: u16) -> (session: PingSession)
        ensures
            session.wf(),
            session@ == PingSession::uncounted_run(count),
    {
        PingSession {
            count,
            counted: false,
            sequence: FIXED_SEQUENCE,
            successes: 0,
            failures: 0,
            latencies: Vec::new(),
        }
    }

    /// Whether the run has made all its probes.
    pub fn is_done(&self) -> (done: bool)
        ensures
            done == self@.done(),
    {
        self.successes as u32 + self.failures as u32 >= self.count as u32
    }

    /// The next probe of the run with the given payload, or `None` if the
    /// run is done.
    pub fn next_request_with(&self, family: AddressFamily, payload: Token) -> (request: Option<
        ProbeRequest,
    >)
        ensures
            request is None <==> self@.done(),
            request matches Some(r) ==> {
                &&& r.family == family
                &&& r.timeout == RUN_TIMEOUT
                &&& r.hop_limit == RUN_HOP_LIMIT
                &&& r.identifier == STATION_IDENTIFIER
                &&& r.sequence == self@.sequence
                &&& r.payload == payload
            },
    {
        if self.is_done() {
            None
        } else {
            Some(
                ProbeRequest {
                    family,
                    timeout: RUN_TIMEOUT,
                    hop_limit: RUN_HOP_LIMIT,
                    identifier: STATION_IDENTIFIER,
                    sequence: self.sequence,
                    payload,
                },
            )
        }
    }

    /// The next probe of the run, with a payload drawn at random, or `None`
    /// if the run is done.
    pub fn next_request(&self, family: AddressFamily) -> (request: Option<ProbeRequest>)
        ensures
            request is None <==> self@.done(),
            request matches Some(r) ==> {
                &&& r.family == family
                &&& r.timeout == RUN_TIMEOUT
                &&& r.hop_limit == RUN_HOP_LIMIT
                &&& r.identifier == STATION_IDENTIFIER
                &&& r.sequence == self@.sequence
            },
    {
        self.next_request_with(family, random_token())
    }

    /// Takes the outcome of the probe that was last asked for, and returns
    /// the pause to make before the next one, if any.
    pub fn record(&mut self, outcome: Result<PingReturn, Error>) -> (pause: Option<u64>)
        ensures
            old(self).wf() ==> final(self).wf(),
            final(self)@ == old(self)@.after(outcome),
            pause == old(self)@.pause_after(outcome),
    {
        if self.is_done() {
            return None;
        }
        match outcome {
            Ok(answer) => {
                if self.counted {
                    self.sequence = answer.seq_cnt.wrapping_add(1);
                }
                self.successes = self.successes + 1;
                self.latencies.push(answer.time);
                Some(RUN_PAUSE)
            },
            Err(_) => {
                if self.counted {
                    self.sequence = self.sequence.wrapping_add(1);
                }
                self.failures = self.failures + 1;
                None
            },
        }
    }

    /// The round-trip times of the answered probes, in order.
    pub fn latencies(&self) -> (times: &Vec<u64>)
        ensures
            times@ == self@.latencies,
    {
        &self.latencies
    }

    /// The figures of the run so far.
    pub fn summary(&self) -> (summary: PingSummary)
        ensures
            summary == self@.summary(),
    {
        let mut fastest: Option<u64> = None;
        let mut slowest: Option<u64> = None;
        let mut sum: u128 = 0;
        let mut i: usize = 0;
        proof {
            assert(self.latencies@.take(0) =~= Seq::<u64>::empty());
        }
        while i < self.latencies.len()
            invariant
                i <= self.latencies@.len(),
                fastest == least(self.latencies@.take(i as int)),
                slowest == greatest(self.latencies@.take(i as int)),
                sum == total(self.latencies@.take(i as int)),
                sum <= i * u64::MAX,
            decreases self.latencies.len() - i,
        {
            let value = self.latencies[i];
            proof {
                assert(self.latencies@.take(i + 1).drop_last() =~= self.latencies@.take(i as int));
                assert(i * u64::MAX + u64::MAX == (i + 1) * u64::MAX) by (nonlinear_arith);
                assert(i * u64::MAX + u64::MAX <= u128::MAX) by (nonlinear_arith)
                    requires
                        i < usize::MAX,
                        usize::MAX <= u64::MAX,
                ;
            }
            fastest = match fastest {
                Some(m) if m <= value => Some(m),
                _ => Some(value),
            };
            slowest = match slowest {
                Some(m) if m >= value => Some(m),
                _ => Some(value),
            };
            sum = sum + value as u128;
            i = i + 1;
        }
        proof {
            assert(self.latencies@.take(self.latencies@.len() as int) =~= self.latencies@);
        }
        PingSummary {
            transmitted: self.successes as u32 + self.failures as u32,
            received: self.successes,
            lost: self.failures,
            fastest,
            slowest,
            total: sum,
        }
    }
}

} // verus!
