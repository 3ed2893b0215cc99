//! The probe engine: one echo request, and the wait for the reply that
//! carries its identifier.
//!
//! The engine moves `Idle → Sent → Awaiting → {Matched | TimedOut | Fatal}`.
//! The caller owns the socket and the clock: it sends what
//! [`Probe::encode_request`] wrote, reports what it reads, and follows the
//! [`ProbeAction`] it gets back. Times are in microseconds.

use crate::codec::{wire_image, AddressFamily, EchoMessage, EchoModel, MessageKind, ICMP_HEADER_SIZE};
use crate::entropy::{random_identifier, random_token};
use crate::errors::Error;
use crate::exchange::{
    after_datagram, after_sent, after_silence, begin, on_datagram, on_sent, on_silence, Filter,
    FilterModel, Phase, Step, StepModel,
};
use vstd::prelude::*;

verus! {

/// Size in bytes of a probe's payload.
pub const TOKEN_SIZE: usize = 32;

/// Size in bytes of an encoded probe request.
pub const ECHO_REQUEST_BUFFER_SIZE: usize = ICMP_HEADER_SIZE + TOKEN_SIZE;

/// The time budget of a probe whose caller names none: four seconds.
pub const DEFAULT_TIMEOUT: u64 = 4_000_000;

/// The hop limit of a probe whose caller names none.
pub const DEFAULT_HOP_LIMIT: u32 = 64;

/// The sequence number of a probe whose caller names none.
pub const DEFAULT_SEQUENCE: u16 = 1;

/// The payload of a probe.
pub type Token = [u8; TOKEN_SIZE];

/// What a successful probe reports.
#[derive(Clone, Copy, Debug, PartialEq, Eq, Structural)]
pub struct PingReturn {
    /// The round-trip time in microseconds.
    pub time: u64,
    /// The sequence number that the reply echoed.
    pub seq_cnt: u16,
}

/// Everything that one probe is made with.
#[derive(Clone, Copy, Debug)]
pub struct ProbeRequest {
    pub family: AddressFamily,
    /// The whole time budget in microseconds.
    pub timeout: u64,
    /// The hop limit (IPv6) or TTL (IPv4) to set on the socket.
    pub hop_limit: u32,
    pub identifier: u16,
    pub sequence: u16,
    pub payload: Token,
}

impl ProbeRequest {
    /// The echo request that this probe sends.
    pub open spec fn message(self) -> EchoModel {
        EchoModel {
            kind: MessageKind::Request,
            identifier: self.identifier,
            sequence: self.sequence,
            payload: self.payload@,
        }
    }

    /// What a reply must show to answer this probe: it is an echo reply and
    /// carries the probe's identifier.
    pub open spec fn filter(self) -> FilterModel {
        FilterModel {
            family: self.family,
            identifier: self.identifier,
            kind: Some(MessageKind::Reply),
            tag: Seq::empty(),
        }
    }

    /// Fills in what the caller left open: the defaults for budget, hop limit
    /// and sequence, and the spare identifier and payload.
    pub fn resolve(
        family: AddressFamily,
        timeout: Option<u64>,
        ttl: Option<u32>,
        ident: Option<u16>,
        seq_cnt: Option<u16>,
        payload: Option<&Token>,
        spare_identifier: u16,
        spare_payload: Token,
    ) -> (request: ProbeRequest)
        ensures
            request.family == family,
            request.timeout == match timeout {
                Some(t) => t,
                None => DEFAULT_TIMEOUT,
            },
            request.hop_limit == match ttl {
                Some(t) => t,
                None => DEFAULT_HOP_LIMIT,
            },
            request.identifier == match ident {
                Some(i) => i,
                None => spare_identifier,
            },
            request.sequence == match seq_cnt {
                Some(s) => s,
                None => DEFAULT_SEQUENCE,
            },
            request.payload == match payload {
                Some(p) => *p,
                None => spare_payload,
            },
    {
        ProbeRequest {
            family,
            timeout: match timeout {
                Some(t) => t,
                None => DEFAULT_TIMEOUT,
            },
            hop_limit: match ttl {
                Some(t) => t,
                None => DEFAULT_HOP_LIMIT,
            },
            identifier: match ident {
                Some(i) => i,
                None => spare_identifier,
            },
            sequence: match seq_cnt {
                Some(s) => s,
                None => DEFAULT_SEQUENCE,
            },
            payload: match payload {
                Some(p) => *p,
                None => spare_payload,
            },
        }
    }

    /// Fills in what the caller left open, drawing identifier and payload at
    /// random where none is given. What is given is kept as it is.
    pub fn new(
        family: AddressFamily,
        timeout: Option<u64>,
        ttl: Option<u32>,
        ident: Option<u16>,
        seq_cnt: Option<u16>,
        payload: Option<&Token>,
    ) -> (request: ProbeRequest)
        ensures
            request.family == family,
            request.timeout == match timeout {
                Some(t) => t,
                None => DEFAULT_TIMEOUT,
            },
            request.hop_limit == match ttl {
                Some(t) => t,
                None => DEFAULT_HOP_LIMIT,
            },
            ident matches Some(i) ==> request.identifier == i,
            request.sequence == match seq_cnt {
                Some(s) => s,
                None => DEFAULT_SEQUENCE,
            },
            payload matches Some(p) ==> request.payload == *p,
    {
        let spare_identifier = random_identifier();
        let spare_payload = random_token();
        ProbeRequest::resolve(
            family,
            timeout,
            ttl,
            ident,
            seq_cnt,
            payload,
            spare_identifier,
            spare_payload,
        )
    }
}

/// What the caller of a probe is to do next.
#[derive(Clone, Copy, Debug, PartialEq, Eq)]
pub enum ProbeAction {
    /// Set the read deadline to `budget` and read one datagram.
    Listen { budget: u64 },
    /// The probe is over, with this result.
    Finish(Result<PingReturn, Error>),
}

/// What a probe's caller is told for a step of the exchange.
pub open spec fn probe_action(step: StepModel) -> ProbeAction {
    match step {
        StepModel::Listen { budget } => ProbeAction::Listen { budget },
        StepModel::Matched { elapsed, message } => ProbeAction::Finish(
            Ok(PingReturn { time: elapsed, seq_cnt: message.sequence }),
        ),
        StepModel::TimedOut { elapsed } => ProbeAction::Finish(Err(Error::Timeout { elapsed })),
        StepModel::Fatal(e) => ProbeAction::Finish(Err(e)),
    }
}

fn action_of(step: Step<'_>) -> (action: ProbeAction)
    ensures
        action == probe_action(step@),
{
    match step {
        Step::Listen { budget } => ProbeAction::Listen { budget },
        Step::Matched { elapsed, message } => ProbeAction::Finish(
            Ok(PingReturn { time: elapsed, seq_cnt: message.sequence }),
        ),
        Step::TimedOut { elapsed } => ProbeAction::Finish(Err(Error::Timeout { elapsed })),
        Step::Fatal(e) => ProbeAction::Finish(Err(e)),
    }
}

/// One probe under way.
pub struct Probe {
    request: ProbeRequest,
    phase: Phase,
}

impl Probe {
    /// What the probe was made with.
    pub closed spec fn request(&self) -> ProbeRequest {
        self.request
    }

    /// Where the probe stands.
    pub closed spec fn phase(&self) -> Phase {
        self.phase
    }

    /// A probe that has not begun.
    pub fn new(request: ProbeRequest) -> (probe: Probe)
        ensures
            probe.request() == request,
            probe.phase() == Phase::Idle,
    {
        Probe { request, phase: Phase::Idle }
    }

    /// Where the probe stands.
    pub fn current_phase(&self) -> (phase: Phase)
        ensures
            phase == self.phase(),
    {
        self.phase
    }

    /// What the probe was made with.
    pub fn parameters(&self) -> (request: ProbeRequest)
        ensures
            request == self.request(),
    {
        self.request
    }

    fn reply_filter(&self) -> (filter: Filter)
        ensures
            filter@ == self.request().filter(),
    {
        Filter {
            family: self.request.family,
            identifier: self.request.identifier,
            kind: Some(MessageKind::Reply),
            tag: Vec::new(),
        }
    }

    /// Writes the echo request into the front of `buffer`, returns its length
    /// and moves from `Idle` to `Sent`. If the probe has begun before, or the
    /// buffer cannot hold the frame, nothing is written and the probe is
    /// given up with `InternalError`.
    pub fn encode_request(&mut self, buffer: &mut [u8]) -> (r: Result<usize, Error>)
        ensures
            final(self).request() == old(self).request(),
            old(self).phase() == Phase::Idle && old(buffer)@.len() >= ECHO_REQUEST_BUFFER_SIZE ==> {
                &&& r == Ok::<usize, Error>(ECHO_REQUEST_BUFFER_SIZE)
                &&& final(self).phase() == Phase::Sent
                &&& final(buffer)@ == wire_image(
                    old(self).request().message(),
                    old(self).request().family,
                ) + old(buffer)@.skip(ECHO_REQUEST_BUFFER_SIZE as int)
            },
            !(old(self).phase() == Phase::Idle && old(buffer)@.len() >= ECHO_REQUEST_BUFFER_SIZE)
                ==> {
                &&& r == Err::<usize, Error>(Error::InternalError)
                &&& final(self).phase() == Phase::Fatal
                &&& final(buffer)@ == old(buffer)@
            },
    {
        match self.phase {
            Phase::Idle => {},
            _ => {
                self.phase = Phase::Fatal;
                return Err(Error::InternalError);
            },
        }
        let message = EchoMessage {
            kind: MessageKind::Request,
            identifier: self.request.identifier,
            sequence: self.request.sequence,
            payload: self.request.payload.as_slice(),
        };
        match message.encode(self.request.family, buffer) {
            Ok(n) => {
                self.phase = begin(self.phase);
                Ok(n)
            },
            Err(_) => {
                self.phase = Phase::Fatal;
                Err(Error::InternalError)
            },
        }
    }

    /// The request has gone out, `elapsed` after the start.
    pub fn on_sent(&mut self, elapsed: u64) -> (action: ProbeAction)
        ensures
            final(self).request() == old(self).request(),
            action == probe_action(
                after_sent(old(self).phase(), old(self).request().timeout, elapsed),
            ),
            final(self).phase() == after_sent(
                old(self).phase(),
                old(self).request().timeout,
                elapsed,
            ).phase(),
    {
        let step = on_sent(self.phase, self.request.timeout, elapsed);
        self.phase = step.phase();
        action_of(step)
    }

    /// A datagram was read, `elapsed` after the start. A reply with the
    /// probe's identifier ends the probe; a datagram with broken IPv4 framing
    /// ends it with `DecodeV4Error`; anything else is dropped, and the wait
    /// goes on with what is left of the budget, or ends in a timeout.
    pub fn on_datagram(&mut self, datagram: &[u8], elapsed: u64) -> (action: ProbeAction)
        ensures
            final(self).request() == old(self).request(),
            action == probe_action(
                after_datagram(
                    old(self).phase(),
                    old(self).request().filter(),
                    old(self).request().timeout,
                    datagram@,
                    elapsed,
                ),
            ),
            final(self).phase() == after_datagram(
                old(self).phase(),
                old(self).request().filter(),
                old(self).request().timeout,
                datagram@,
                elapsed,
            ).phase(),
    {
        let filter = self.reply_filter();
        let step = on_datagram(self.phase, &filter, self.request.timeout, datagram, elapsed);
        self.phase = step.phase();
        action_of(step)
    }

    /// A read ended without a datagram, `elapsed` after the start.
    pub fn on_silence(&mut self, elapsed: u64) -> (action: ProbeAction)
        ensures
            final(self).request() == old(self).request(),
            action == probe_action(
                after_silence(old(self).phase(), old(self).request().timeout, elapsed),
            ),
            final(self).phase() == after_silence(
                old(self).phase(),
                old(self).request().timeout,
                elapsed,
            ).phase(),
    {
        let step = on_silence(self.phase, self.request.timeout, elapsed);
        self.phase = step.phase();
        action_of(step)
    }

    /// The socket failed with the operating system's error `code`. The probe
    /// is given up at once; nothing is tried again.
    pub fn on_transport_error(&mut self, code: i32) -> (action: ProbeAction)
        ensures
            final(self).request() == old(self).request(),
            action == ProbeAction::Finish(Err(Error::IoError { code })),
            final(self).phase() == Phase::Fatal,
    {
        self.phase = Phase::Fatal;
        ProbeAction::Finish(Err(Error::IoError { code }))
    }
}

} // verus!
