//! The waiting half of every exchange: one request is out, and datagrams are
//! read until one is the awaited answer or the time budget is spent.
//!
//! The functions here decide; they neither read nor sleep. Their caller
//! says in which [`Phase`] the exchange is, what happened and how much time
//! has passed since the start, and does what the returned [`Step`] says. The
//! step also tells the phase that follows. Times are in microseconds.

use crate::codec::{
    decode_message, parse_message, AddressFamily, EchoMessage, EchoModel, MessageKind,
};
use crate::envelope::{decode_envelope, strip_envelope};
use crate::errors::{Error, EnvelopeError, Rejection};
use vstd::prelude::*;

verus! {

/// Size in bytes of the buffer that a datagram is read into.
pub const MAX_DATAGRAM_SIZE: usize = 2048;

/// Whether `bytes` begins with `tag`, byte for byte.
pub open spec fn has_prefix(bytes: Seq<u8>, tag: Seq<u8>) -> bool {
    tag.len() <= bytes.len() && forall|i: int| 0 <= i < tag.len() ==> bytes[i] == tag[i]
}

/// Tells whether `bytes` begins with `tag`.
pub fn starts_with(bytes: &[u8], tag: &[u8]) -> (b: bool)
    ensures
        b == has_prefix(bytes@, tag@),
{
    if bytes.len() < tag.len() {
        return false;
    }
    let mut i: usize = 0;
    while i < tag.len()
        invariant
            i <= tag.len(),
            tag@.len() <= bytes@.len(),
            forall|k: int| 0 <= k < i ==> bytes@[k] == tag@[k],
        decreases tag.len() - i,
    {
        if bytes[i] != tag[i] {
            return false;
        }
        i = i + 1;
    }
    true
}

/// What a datagram must show to be the awaited answer.
pub struct Filter {
    /// The family of the socket the datagrams come from.
    pub family: AddressFamily,
    /// The identifier of the outstanding request.
    pub identifier: u16,
    /// The one kind of message that is accepted; `None` accepts both.
    pub kind: Option<MessageKind>,
    /// The bytes that the payload must begin with; may be empty.
    pub tag: Vec<u8>,
}

/// A [`Filter`] as a mathematical value.
pub struct FilterModel {
    pub family: AddressFamily,
    pub identifier: u16,
    pub kind: Option<MessageKind>,
    pub tag: Seq<u8>,
}

impl View for Filter {
    type V = FilterModel;

    open spec fn view(&self) -> FilterModel {
        FilterModel {
            family: self.family,
            identifier: self.identifier,
            kind: self.kind,
            tag: self.tag@,
        }
    }
}

/// What a filter makes of one datagram.
pub enum Screening<'a> {
    /// The framing is broken; the exchange cannot go on.
    Fatal(EnvelopeError),
    /// Not the awaited answer; to be dropped.
    Rejected(Rejection),
    /// The awaited answer.
    Accepted(EchoMessage<'a>),
}

/// A [`Screening`] as a mathematical value.
pub enum ScreeningModel {
    Fatal(EnvelopeError),
    Rejected(Rejection),
    Accepted(EchoModel),
}

impl<'a> View for Screening<'a> {
    type V = ScreeningModel;

    open spec fn view(&self) -> ScreeningModel {
        match *self {
            Screening::Fatal(e) => ScreeningModel::Fatal(e),
            Screening::Rejected(r) => ScreeningModel::Rejected(r),
            Screening::Accepted(m) => ScreeningModel::Accepted(m@),
        }
    }
}

/// Why `filter` turns `message` down, if it does. The checks run in a fixed
/// order: kind, identifier, tag.
pub open spec fn objection(filter: FilterModel, message: EchoModel) -> Option<Rejection> {
    if filter.kind is Some && filter.kind != Some(message.kind) {
        Some(Rejection::UnexpectedKind)
    } else if message.identifier != filter.identifier {
        Some(Rejection::IdentifierMismatch)
    } else if !has_prefix(message.payload, filter.tag) {
        Some(Rejection::TagMismatch)
    } else {
        None
    }
}

/// What `filter` makes of `datagram`: the envelope comes off first, and a
/// failure there is fatal; whatever fails after that only rejects.
pub open spec fn screen_model(filter: FilterModel, datagram: Seq<u8>) -> ScreeningModel {
    match strip_envelope(datagram, filter.family) {
        Err(e) => ScreeningModel::Fatal(e),
        Ok(region) => match parse_message(region, filter.family) {
            Err(e) => ScreeningModel::Rejected(Rejection::Classification(e)),
            Ok(message) => match objection(filter, message) {
                Some(rejection) => ScreeningModel::Rejected(rejection),
                None => ScreeningModel::Accepted(message),
            },
        },
    }
}

impl Filter {
    /// Judges one datagram.
    pub fn screen<'a>(&self, datagram: &'a [u8]) -> (s: Screening<'a>)
        ensures
            s@ == screen_model(self@, datagram@),
    {
        let region = match decode_envelope(datagram, self.family) {
            Err(e) => {
                return Screening::Fatal(e);
            },
            Ok(region) => region,
        };
        let message = match decode_message(region, self.family) {
            Err(e) => {
                return Screening::Rejected(Rejection::Classification(e));
            },
            Ok(message) => message,
        };
        let kind_fits = match self.kind {
            None => true,
            Some(MessageKind::Request) => match message.kind {
                MessageKind::Request => true,
                MessageKind::Reply => false,
            },
            Some(MessageKind::Reply) => match message.kind {
                MessageKind::Request => false,
                MessageKind::Reply => true,
            },
        };
        if !kind_fits {
            Screening::Rejected(Rejection::UnexpectedKind)
        } else if message.identifier != self.identifier {
            Screening::Rejected(Rejection::IdentifierMismatch)
        } else if !starts_with(message.payload, self.tag.as_slice()) {
            Screening::Rejected(Rejection::TagMismatch)
        } else {
            Screening::Accepted(message)
        }
    }
}

/// Where an exchange stands.
#[derive(Clone, Copy, Debug, PartialEq, Eq, Structural)]
pub enum Phase {
    /// Nothing has been sent.
    Idle,
    /// The request is encoded and handed over for transmission.
    Sent,
    /// The request is out and an answer is awaited.
    Awaiting,
    /// The awaited answer came.
    Matched,
    /// The budget ran out first.
    TimedOut,
    /// The exchange was given up.
    Fatal,
}

/// What the caller is to do next.
pub enum Step<'a> {
    /// Read one datagram, waiting for at most `budget`.
    Listen { budget: u64 },
    /// Done: `message` is the answer, seen at `elapsed`.
    Matched { elapsed: u64, message: EchoMessage<'a> },
    /// Done: no answer within the budget.
    TimedOut { elapsed: u64 },
    /// Done: the exchange failed.
    Fatal(Error),
}

/// A [`Step`] as a mathematical value.
pub enum StepModel {
    Listen { budget: u64 },
    Matched { elapsed: u64, message: EchoModel },
    TimedOut { elapsed: u64 },
    Fatal(Error),
}

impl<'a> View for Step<'a> {
    type V = StepModel;

    open spec fn view(&self) -> StepModel {
        match *self {
            Step::Listen { budget } => StepModel::Listen { budget },
            Step::Matched { elapsed, message } => StepModel::Matched { elapsed, message: message@ },
            Step::TimedOut { elapsed } => StepModel::TimedOut { elapsed },
            Step::Fatal(e) => StepModel::Fatal(e),
        }
    }
}

impl StepModel {
    /// The phase that an exchange is in after this step.
    pub open spec fn phase(self) -> Phase {
        match self {
            StepModel::Listen { .. } => Phase::Awaiting,
            StepModel::Matched { .. } => Phase::Matched,
            StepModel::TimedOut { .. } => Phase::TimedOut,
            StepModel::Fatal(_) => Phase::Fatal,
        }
    }
}

/// Go on waiting, or give up: with `elapsed` of `timeout` gone, what is left
/// is the budget of the next read, and nothing left is a timeout.
pub open spec fn wait_or_expire(timeout: u64, elapsed: u64) -> StepModel {
    if elapsed >= timeout {
        StepModel::TimedOut { elapsed }
    } else {
        StepModel::Listen { budget: (timeout - elapsed) as u64 }
    }
}

/// The step after the request has gone out.
pub open spec fn after_sent(phase: Phase, timeout: u64, elapsed: u64) -> StepModel {
    if phase == Phase::Sent {
        wait_or_expire(timeout, elapsed)
    } else {
        StepModel::Fatal(Error::InternalError)
    }
}

/// The step after `datagram` was read at `elapsed`.
pub open spec fn after_datagram(
    phase: Phase,
    filter: FilterModel,
    timeout: u64,
    datagram: Seq<u8>,
    elapsed: u64,
) -> StepModel {
    if phase != Phase::Awaiting {
        StepModel::Fatal(Error::InternalError)
    } else {
        match screen_model(filter, datagram) {
            ScreeningModel::Fatal(_) => StepModel::Fatal(Error::DecodeV4Error),
            ScreeningModel::Rejected(_) => wait_or_expire(timeout, elapsed),
            ScreeningModel::Accepted(message) => StepModel::Matched { elapsed, message },
        }
    }
}

/// The step after a read ended at `elapsed` without a datagram.
pub open spec fn after_silence(phase: Phase, timeout: u64, elapsed: u64) -> StepModel {
    if phase == Phase::Awaiting {
        wait_or_expire(timeout, elapsed)
    } else {
        StepModel::Fatal(Error::InternalError)
    }
}

/// What the caller of a waiting exchange can report.
pub enum Event {
    /// A datagram was read at `elapsed`.
    Datagram { bytes: Seq<u8>, elapsed: u64 },
    /// A read ended at `elapsed` without a datagram.
    Silence { elapsed: u64 },
}

impl Event {
    /// The time at which the event was seen.
    pub open spec fn elapsed(self) -> u64 {
        match self {
            Event::Datagram { elapsed, .. } => elapsed,
            Event::Silence { elapsed } => elapsed,
        }
    }
}

/// The step that answers one event.
pub open spec fn after_event(phase: Phase, filter: FilterModel, timeout: u64, event: Event)
    -> StepModel {
    match event {
        Event::Datagram { bytes, elapsed } => after_datagram(phase, filter, timeout, bytes, elapsed),
        Event::Silence { elapsed } => after_silence(phase, timeout, elapsed),
    }
}

/// The phase that a run of events leaves an exchange in.
pub open spec fn phase_after(phase: Phase, filter: FilterModel, timeout: u64, events: Seq<Event>)
    -> Phase
    decreases events.len(),
{
    if events.len() == 0 {
        phase
    } else {
        after_event(
            phase_after(phase, filter, timeout, events.drop_last()),
            filter,
            timeout,
            events.last(),
        ).phase()
    }
}

/// Whether `datagram` holds a well-formed echo message whose identifier is
/// not the one that `filter` asks for.
pub open spec fn carries_other_identifier(filter: FilterModel, datagram: Seq<u8>) -> bool {
    strip_envelope(datagram, filter.family) matches Ok(region) && parse_message(
        region,
        filter.family,
    ) matches Ok(message) && message.identifier != filter.identifier
}

/// Identifier gating. A message with another identifier than the requested
/// one never ends the wait by itself: while the budget lasts the exchange
/// stays in `Awaiting` however many such messages come, and the first one
/// seen with the budget spent turns it to `TimedOut`. It is never `Matched`
/// and never `Fatal`.
pub proof fn lemma_identifier_gating(filter: FilterModel, timeout: u64, events: Seq<Event>)
    requires
        forall|i: int|
            0 <= i < events.len() ==> (#[trigger] events[i] matches Event::Datagram { bytes, .. }
                && carries_other_identifier(filter, bytes)),
        forall|i: int| 0 <= i < events.len() - 1 ==> (#[trigger] events[i]).elapsed() < timeout,
    ensures
        phase_after(Phase::Awaiting, filter, timeout, events) == if events.len() > 0
            && events.last().elapsed() >= timeout {
            Phase::TimedOut
        } else {
            Phase::Awaiting
        },
    decreases events.len(),
{
    if events.len() > 0 {
        let earlier = events.drop_last();
        assert forall|i: int| 0 <= i < earlier.len() implies (#[trigger] earlier[i] matches Event::Datagram {
            bytes,
            ..
        } && carries_other_identifier(filter, bytes)) by {
            assert(earlier[i] == events[i]);
        }
        assert forall|i: int| 0 <= i < earlier.len() - 1 implies (#[trigger] earlier[i]).elapsed()
            < timeout by {
            assert(earlier[i] == events[i]);
        }
        lemma_identifier_gating(filter, timeout, earlier);
        if earlier.len() > 0 {
            assert(earlier.last() == events[events.len() - 2]);
        }
        assert(phase_after(Phase::Awaiting, filter, timeout, earlier) == Phase::Awaiting);
        let last = events.last();
        assert(last == events[events.len() - 1]);
    }
}

/// Timeout bound. Whatever is reported in whatever phase, a timeout is never
/// declared before the budget is spent, and a read is never granted more
/// than what is left of it. With no answer at all, the report of silence at
/// or past the deadline is what ends the wait.
pub proof fn lemma_timeout_bound(phase: Phase, filter: FilterModel, timeout: u64, event: Event)
    ensures
        after_event(phase, filter, timeout, event) matches StepModel::TimedOut { elapsed }
            ==> elapsed == event.elapsed() && elapsed >= timeout,
        after_event(phase, filter, timeout, event) matches StepModel::Listen { budget } ==> budget
            > 0 && event.elapsed() + budget == timeout,
        phase == Phase::Awaiting && event is Silence ==> after_event(phase, filter, timeout, event)
            == wait_or_expire(timeout, event.elapsed()),
{
}

impl<'a> Step<'a> {
    /// The phase that an exchange is in after this step.
    pub fn phase(&self) -> (phase: Phase)
        ensures
            phase == self@.phase(),
    {
        match self {
            Step::Listen { .. } => Phase::Awaiting,
            Step::Matched { .. } => Phase::Matched,
            Step::TimedOut { .. } => Phase::TimedOut,
            Step::Fatal(_) => Phase::Fatal,
        }
    }
}

/// The phase after the request was encoded and handed over for
/// transmission: an exchange takes this once, from `Idle`; from anywhere
/// else it is given up.
pub open spec fn after_begin(phase: Phase) -> Phase {
    if phase == Phase::Idle {
        Phase::Sent
    } else {
        Phase::Fatal
    }
}

/// Records that the request is encoded and handed over.
pub fn begin(phase: Phase) -> (next: Phase)
    ensures
        next == after_begin(phase),
{
    match phase {
        Phase::Idle => Phase::Sent,
        _ => Phase::Fatal,
    }
}

/// Decides between another read and a timeout.
pub fn wait(timeout: u64, elapsed: u64) -> (step: Step<'static>)
    ensures
        step@ == wait_or_expire(timeout, elapsed),
{
    if elapsed >= timeout {
        Step::TimedOut { elapsed }
    } else {
        Step::Listen { budget: timeout - elapsed }
    }
}

/// The request has gone out, `elapsed` after the start.
pub fn on_sent(phase: Phase, timeout: u64, elapsed: u64) -> (step: Step<'static>)
    ensures
        step@ == after_sent(phase, timeout, elapsed),
{
    match phase {
        Phase::Sent => wait(timeout, elapsed),
        _ => Step::Fatal(Error::InternalError),
    }
}

/// A datagram was read, `elapsed` after the start.
pub fn on_datagram<'a>(
    phase: Phase,
    filter: &Filter,
    timeout: u64,
    datagram: &'a [u8],
    elapsed: u64,
) -> (step: Step<'a>)
    ensures
        step@ == after_datagram(phase, filter@, timeout, datagram@, elapsed),
{
    match phase {
        Phase::Awaiting => match filter.screen(datagram) {
            Screening::Fatal(_) => Step::Fatal(Error::DecodeV4Error),
            Screening::Rejected(_) => wait(timeout, elapsed),
            Screening::Accepted(message) => Step::Matched { elapsed, message },
        },
        _ => Step::Fatal(Error::InternalError),
    }
}

/// A read ended without a datagram, `elapsed` after the start.
pub fn on_silence(phase: Phase, timeout: u64, elapsed: u64) -> (step: Step<'static>)
    ensures
        step@ == after_silence(phase, timeout, elapsed),
{
    match phase {
        Phase::Awaiting => wait(timeout, elapsed),
        _ => Step::Fatal(Error::InternalError),
    }
}

} // verus!
