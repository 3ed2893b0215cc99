//! The telemetry exchange: a collector asks an agent for a record of local
//! readings, over the same echo frames that probes use.
//!
//! Two plain tags gate the channel. The collector's request carries the
//! request tag, the agent's answer the reply tag; a frame whose payload does
//! not begin with the awaited tag is dropped without a word. Both directions
//! use request-shaped frames and the one service identifier, so the tag alone
//! tells a question from an answer. The tags are fixed and travel in the
//! clear: whoever sees one exchange can replay it. There is no freshness and
//! no authentication on this channel.

use crate::clock::{local_now, TimeOfDay};
use crate::codec::{
    lemma_round_trip, parse_message, wire_image, AddressFamily, EchoMessage, EchoModel,
    MessageKind, ICMP_HEADER_SIZE,
};
use crate::envelope::{declared_header_len, strip_envelope, IPV4_MIN_HEADER_SIZE};
use crate::errors::{ClassificationError, EncodeError, EnvelopeError, Error, Rejection};
use crate::exchange::{
    after_datagram, after_sent, after_silence, begin, on_datagram, on_sent, on_silence,
    screen_model, Filter, FilterModel, Phase, Screening, ScreeningModel, Step, StepModel,
    MAX_DATAGRAM_SIZE,
};
use crate::probe::{DEFAULT_SEQUENCE, DEFAULT_TIMEOUT};
use crate::text::{
    format_reading, join_fields, join_three, lemma_split_join, reading_text, reading_view,
    separable, split_fields, split_text, string_from_utf8, texts,
};
use vstd::prelude::*;
use vstd::slice::{slice_subrange, slice_to_vec};
use vstd::string::{StringExecFns, StringSliceAdditionalSpecFns};
use vstd::utf8::{
    decode_utf8, encode_utf8, encode_utf8_decode_utf8, encode_utf8_valid_utf8, valid_utf8,
};

verus! {

/// The identifier that every telemetry frame carries.
pub const SERVICE_IDENTIFIER: u16 = 4169;

/// The tag that opens a request: the ASCII bytes of `Suiladmellon`.
pub const REQUEST_TAG: [u8; 12] = [83, 117, 105, 108, 97, 100, 109, 101, 108, 108, 111, 110];

/// The tag that opens a reply: the ASCII bytes of `suilad`.
pub const REPLY_TAG: [u8; 6] = [115, 117, 105, 108, 97, 100];

/// Size in bytes of a request's payload: the tag, then zeros.
pub const REQUEST_PAYLOAD_SIZE: usize = 24;

/// Size in bytes of an encoded request.
pub const REQUEST_FRAME_SIZE: usize = ICMP_HEADER_SIZE + REQUEST_PAYLOAD_SIZE;

/// The pause that an agent makes before it sends a reply: one second.
pub const REPLY_DELAY: u64 = 1_000_000;

/// The most payload bytes that a reply holds; a longer record is cut.
pub const REPLY_CAPACITY: usize = MAX_DATAGRAM_SIZE - ICMP_HEADER_SIZE;

/// The delimiter between the fields of a record: three full stops.
pub open spec fn record_delimiter() -> Seq<char> {
    seq!['.', '.', '.']
}

/// The payload of a request: the request tag at the left, zeros up to the
/// fixed size.
pub open spec fn request_payload() -> Seq<u8> {
    REQUEST_TAG@ + Seq::new((REQUEST_PAYLOAD_SIZE - REQUEST_TAG@.len()) as nat, |i: int| 0u8)
}

/// The request that a collector sends.
pub open spec fn request_message() -> EchoModel {
    EchoModel {
        kind: MessageKind::Request,
        identifier: SERVICE_IDENTIFIER,
        sequence: DEFAULT_SEQUENCE,
        payload: request_payload(),
    }
}

/// The payload of the reply that carries `record`: the reply tag, then the
/// record, cut where the frame is full.
pub open spec fn reply_payload(record: Seq<u8>) -> Seq<u8> {
    let whole = REPLY_TAG@ + record;
    if whole.len() <= REPLY_CAPACITY {
        whole
    } else {
        whole.take(REPLY_CAPACITY as int)
    }
}

/// The reply that an agent sends for `record`. It is request-shaped, as all
/// frames of this channel are.
pub open spec fn reply_message(record: Seq<u8>) -> EchoModel {
    EchoModel {
        kind: MessageKind::Request,
        identifier: SERVICE_IDENTIFIER,
        sequence: DEFAULT_SEQUENCE,
        payload: reply_payload(record),
    }
}

/// What a frame must show to pass on this channel: the service identifier
/// and, at the front of its payload, `tag`. Either kind of echo message will
/// do.
pub open spec fn channel_filter(family: AddressFamily, tag: Seq<u8>) -> FilterModel {
    FilterModel { family, identifier: SERVICE_IDENTIFIER, kind: None, tag }
}

fn make_filter(family: AddressFamily, tag: &[u8]) -> (filter: Filter)
    ensures
        filter@ == channel_filter(family, tag@),
{
    Filter { family, identifier: SERVICE_IDENTIFIER, kind: None, tag: slice_to_vec(tag) }
}

/// The fields of the record that follows the reply tag in `payload`, or
/// `None` where what follows is not UTF-8.
pub open spec fn record_fields(payload: Seq<u8>) -> Option<Seq<Seq<char>>> {
    let body = payload.skip(REPLY_TAG@.len() as int);
    if valid_utf8(body) {
        Some(split_fields(decode_utf8(body), record_delimiter()))
    } else {
        None
    }
}

/// Reads `body` as UTF-8 text and cuts it into its fields. Fails with
/// `DecodeTextError` if and only if the bytes are not UTF-8.
pub fn parse_data(body: &[u8]) -> (r: Result<Vec<String>, Error>)
    ensures
        r is Ok <==> valid_utf8(body@),
        r matches Ok(fields) ==> texts(fields@) == split_fields(
            decode_utf8(body@),
            record_delimiter(),
        ),
        r matches Err(e) ==> e == Error::DecodeTextError,
{
    match string_from_utf8(slice_to_vec(body)) {
        Some(text) => {
            proof {
                reveal_strlit("...");
                assert("..."@ =~= record_delimiter());
            }
            Ok(split_text(text.as_str(), "..."))
        },
        None => Err(Error::DecodeTextError),
    }
}

/// What the caller of a collector is to do next.
#[derive(Debug, PartialEq, Eq)]
pub enum CollectorAction {
    /// Set the read deadline to `budget` and read one datagram.
    Listen { budget: u64 },
    /// The exchange is over, with these fields or this failure.
    Finish(Result<Vec<String>, Error>),
}

/// A [`CollectorAction`] as a mathematical value.
pub enum CollectorOutcome {
    Listen { budget: u64 },
    Fields(Seq<Seq<char>>),
    Failed(Error),
}

impl View for CollectorAction {
    type V = CollectorOutcome;

    open spec fn view(&self) -> CollectorOutcome {
        match *self {
            CollectorAction::Listen { budget } => CollectorOutcome::Listen { budget },
            CollectorAction::Finish(Ok(fields)) => CollectorOutcome::Fields(texts(fields@)),
            CollectorAction::Finish(Err(e)) => CollectorOutcome::Failed(e),
        }
    }
}

/// What a collector's caller is told for a step of the exchange. An accepted
/// reply yields the fields of its record; if the record is not UTF-8 the
/// exchange fails.
pub open spec fn collector_outcome(step: StepModel) -> CollectorOutcome {
    match step {
        StepModel::Listen { budget } => CollectorOutcome::Listen { budget },
        StepModel::Matched { message, .. } => match record_fields(message.payload) {
            Some(fields) => CollectorOutcome::Fields(fields),
            None => CollectorOutcome::Failed(Error::DecodeTextError),
        },
        StepModel::TimedOut { elapsed } => CollectorOutcome::Failed(Error::Timeout { elapsed }),
        StepModel::Fatal(e) => CollectorOutcome::Failed(e),
    }
}

/// The phase that a collector is in after a step: as the exchange, but for
/// an accepted reply whose record is not UTF-8, which is a failure.
pub open spec fn collector_phase(step: StepModel) -> Phase {
    match step {
        StepModel::Matched { message, .. } => if record_fields(message.payload) is Some {
            Phase::Matched
        } else {
            Phase::Fatal
        },
        _ => step.phase(),
    }
}

/// The asking side of one telemetry exchange.
pub struct Collector {
    family: AddressFamily,
    timeout: u64,
    phase: Phase,
}

impl Collector {
    /// The family of the socket that the collector works on.
    pub closed spec fn family(&self) -> AddressFamily {
        self.family
    }

    /// The whole time budget.
    pub closed spec fn timeout(&self) -> u64 {
        self.timeout
    }

    /// Where the exchange stands.
    pub closed spec fn phase(&self) -> Phase {
        self.phase
    }

    /// The filter that replies are held against.
    pub open spec fn filter(&self) -> FilterModel {
        channel_filter(self.family(), REPLY_TAG@)
    }

    /// A collector that has not begun. Without a given budget it waits four
    /// seconds.
    pub fn new(family: AddressFamily, timeout: Option<u64>) -> (collector: Collector)
        ensures
            collector.family() == family,
            collector.timeout() == match timeout {
                Some(t) => t,
                None => DEFAULT_TIMEOUT,
            },
            collector.phase() == Phase::Idle,
    {
        let budget = match timeout {
            Some(t) => t,
            None => DEFAULT_TIMEOUT,
        };
        Collector { family, timeout: budget, phase: Phase::Idle }
    }

    /// Where the exchange stands.
    pub fn current_phase(&self) -> (phase: Phase)
        ensures
            phase == self.phase(),
    {
        self.phase
    }

    /// Writes the request into the front of `buffer`, returns its length and
    /// moves from `Idle` to `Sent`. If the collector has begun before, or the
    /// buffer cannot hold the frame, nothing is written and the exchange is
    /// given up with `InternalError`.
    pub fn encode_request(&mut self, buffer: &mut [u8]) -> (r: Result<usize, Error>)
        ensures
            final(self).family() == old(self).family(),
            final(self).timeout() == old(self).timeout(),
            old(self).phase() == Phase::Idle && old(buffer)@.len() >= REQUEST_FRAME_SIZE ==> {
                &&& r == Ok::<usize, Error>(REQUEST_FRAME_SIZE)
                &&& final(self).phase() == Phase::Sent
                &&& final(buffer)@ == wire_image(request_message(), old(self).family()) + old(
                    buffer,
                )@.skip(REQUEST_FRAME_SIZE as int)
            },
            !(old(self).phase() == Phase::Idle && old(buffer)@.len() >= REQUEST_FRAME_SIZE) ==> {
                &&& r == Err::<usize, Error>(Error::InternalError)
                &&& final(self).phase() == Phase::Fatal
                &&& final(buffer)@ == old(buffer)@
            },
    {
        match self.phase {
            Phase::Idle => {},
            _ => {
                self.phase = Phase::Fatal;
                return Err(Error::InternalError);
            },
        }
        let tag = REQUEST_TAG;
        let mut payload: [u8; 24] = [0;24];
        let mut i: usize = 0;
        while i < tag.len()
            invariant
                i <= 12,
                tag == REQUEST_TAG,
                forall|k: int| 0 <= k < i ==> payload@[k] == tag@[k],
                forall|k: int| i <= k < 24 ==> payload@[k] == 0,
            decreases 12 - i,
        {
            payload[i] = tag[i];
            i = i + 1;
        }
        proof {
            assert(payload@ =~= request_payload());
        }
        let message = EchoMessage {
            kind: MessageKind::Request,
            identifier: SERVICE_IDENTIFIER,
            sequence: DEFAULT_SEQUENCE,
            payload: payload.as_slice(),
        };
        match message.encode(self.family, buffer) {
            Ok(n) => {
                self.phase = begin(self.phase);
                Ok(n)
            },
            Err(_) => {
                self.phase = Phase::Fatal;
                Err(Error::InternalError)
            },
        }
    }

    fn conclude(&mut self, step: Step<'_>) -> (action: CollectorAction)
        requires
            step@ matches StepModel::Matched { message, .. } ==> message.payload.len()
                >= REPLY_TAG@.len(),
        ensures
            final(self).family() == old(self).family(),
            final(self).timeout() == old(self).timeout(),
            action@ == collector_outcome(step@),
            final(self).phase() == collector_phase(step@),
    {
        self.phase = step.phase();
        match step {
            Step::Listen { budget } => CollectorAction::Listen { budget },
            Step::Matched { message, .. } => {
                let tag = REPLY_TAG;
                let body = slice_subrange(message.payload, tag.len(), message.payload.len());
                match parse_data(body) {
                    Ok(fields) => CollectorAction::Finish(Ok(fields)),
                    Err(e) => {
                        self.phase = Phase::Fatal;
                        CollectorAction::Finish(Err(e))
                    },
                }
            },
            Step::TimedOut { elapsed } => CollectorAction::Finish(Err(Error::Timeout { elapsed })),
            Step::Fatal(e) => CollectorAction::Finish(Err(e)),
        }
    }

    /// The request has gone out, `elapsed` after the start.
    pub fn on_sent(&mut self, elapsed: u64) -> (action: CollectorAction)
        ensures
            final(self).family() == old(self).family(),
            final(self).timeout() == old(self).timeout(),
            action@ == collector_outcome(after_sent(old(self).phase(), old(self).timeout(), elapsed)),
            final(self).phase() == after_sent(old(self).phase(), old(self).timeout(), elapsed).phase(),
    {
        let step = on_sent(self.phase, self.timeout, elapsed);
        self.conclude(step)
    }

    /// A datagram was read, `elapsed` after the start. A frame with the
    /// service identifier whose payload begins with the reply tag ends the
    /// exchange: what follows the tag is read as UTF-8 text and cut into its
    /// fields. A datagram with broken IPv4 framing ends the exchange with
    /// `DecodeV4Error`. Anything else is dropped, and the wait goes on with
    /// what is left of the budget, or ends in a timeout.
    pub fn on_datagram(&mut self, datagram: &[u8], elapsed: u64) -> (action: CollectorAction)
        ensures
            final(self).family() == old(self).family(),
            final(self).timeout() == old(self).timeout(),
            action@ == collector_outcome(
                after_datagram(
                    old(self).phase(),
                    old(self).filter(),
                    old(self).timeout(),
                    datagram@,
                    elapsed,
                ),
            ),
            final(self).phase() == collector_phase(
                after_datagram(
                    old(self).phase(),
                    old(self).filter(),
                    old(self).timeout(),
                    datagram@,
                    elapsed,
                ),
            ),
    {
        let tag = REPLY_TAG;
        let filter = make_filter(self.family, tag.as_slice());
        let step = on_datagram(self.phase, &filter, self.timeout, datagram, elapsed);
        self.conclude(step)
    }

    /// A read ended without a datagram, `elapsed` after the start.
    pub fn on_silence(&mut self, elapsed: u64) -> (action: CollectorAction)
        ensures
            final(self).family() == old(self).family(),
            final(self).timeout() == old(self).timeout(),
            action@ == collector_outcome(
                after_silence(old(self).phase(), old(self).timeout(), elapsed),
            ),
            final(self).phase() == after_silence(
                old(self).phase(),
                old(self).timeout(),
                elapsed,
            ).phase(),
    {
        let step = on_silence(self.phase, self.timeout, elapsed);
        self.conclude(step)
    }

    /// The socket failed with the operating system's error `code`. The
    /// exchange is given up at once; nothing is tried again.
    pub fn on_transport_error(&mut self, code: i32) -> (action: CollectorAction)
        ensures
            final(self).family() == old(self).family(),
            final(self).timeout() == old(self).timeout(),
            action@ == CollectorOutcome::Failed(Error::IoError { code }),
            final(self).phase() == Phase::Fatal,
    {
        self.phase = Phase::Fatal;
        CollectorAction::Finish(Err(Error::IoError { code }))
    }
}

/// Why an agent drops a datagram.
#[derive(Clone, Copy, Debug, PartialEq, Eq, Structural)]
pub enum Discard {
    /// Its IPv4 framing is broken.
    Framing(EnvelopeError),
    /// It is not a request of this channel.
    Rejected(Rejection),
}

/// What an agent makes of a datagram.
#[derive(Clone, Copy, Debug, PartialEq, Eq, Structural)]
pub enum AgentVerdict {
    /// Drop it and keep listening.
    Discard(Discard),
    /// Answer it.
    Respond,
}

/// What an agent makes of `datagram`: it answers a frame with the service
/// identifier whose payload begins with the request tag, and drops
/// everything else, whatever is wrong with it.
pub open spec fn agent_verdict(family: AddressFamily, datagram: Seq<u8>) -> AgentVerdict {
    match screen_model(channel_filter(family, REQUEST_TAG@), datagram) {
        ScreeningModel::Fatal(e) => AgentVerdict::Discard(Discard::Framing(e)),
        ScreeningModel::Rejected(r) => AgentVerdict::Discard(Discard::Rejected(r)),
        ScreeningModel::Accepted(_) => AgentVerdict::Respond,
    }
}

/// Tag gating. A frame with the service identifier is answered if and only
/// if its payload begins with the request tag. One byte that differs from
/// the tag, or one that is missing, is enough for the frame to be dropped.
pub proof fn lemma_tag_gating(family: AddressFamily, datagram: Seq<u8>, message: EchoModel)
    requires
        strip_envelope(datagram, family) matches Ok(region) && parse_message(region, family)
            == Ok::<EchoModel, ClassificationError>(message),
        message.identifier == SERVICE_IDENTIFIER,
    ensures
        agent_verdict(family, datagram) == AgentVerdict::Respond <==> (message.payload.len()
            >= REQUEST_TAG@.len() && forall|i: int|
            0 <= i < REQUEST_TAG@.len() ==> message.payload[i] == REQUEST_TAG@[i]),
        forall|i: int|
            0 <= i < REQUEST_TAG@.len() && (i >= message.payload.len() || message.payload[i]
                != REQUEST_TAG@[i]) ==> agent_verdict(family, datagram) == AgentVerdict::Discard(
                Discard::Rejected(Rejection::TagMismatch),
            ),
{
}

/// Whether `header` may stand in front of a frame as what a raw socket of
/// `family` delivers before it: nothing for IPv6, and for IPv4 a header that
/// declares its own length.
pub open spec fn frames_envelope(family: AddressFamily, header: Seq<u8>) -> bool {
    match family {
        AddressFamily::V6 => header.len() == 0,
        AddressFamily::V4 => header.len() >= IPV4_MIN_HEADER_SIZE && declared_header_len(header)
            == header.len(),
    }
}

/// The envelope comes off a delivered frame and leaves the frame.
pub proof fn lemma_envelope_comes_off(family: AddressFamily, header: Seq<u8>, frame: Seq<u8>)
    requires
        frames_envelope(family, header),
    ensures
        strip_envelope(header + frame, family) == Ok::<Seq<u8>, EnvelopeError>(frame),
{
    let datagram = header + frame;
    match family {
        AddressFamily::V6 => {
            assert(datagram =~= frame);
        },
        AddressFamily::V4 => {
            assert(datagram[0] == header[0]);
            assert(datagram.skip(header.len() as int) =~= frame);
        },
    }
}

/// The agent answers the collector: the request that a collector encodes,
/// delivered in any envelope, is one that an agent responds to.
pub proof fn lemma_request_is_answered(family: AddressFamily, header: Seq<u8>)
    requires
        frames_envelope(family, header),
    ensures
        agent_verdict(family, header + wire_image(request_message(), family))
            == AgentVerdict::Respond,
{
    lemma_envelope_comes_off(family, header, wire_image(request_message(), family));
    lemma_round_trip(request_message(), family);
}

/// The collector understands the agent: the reply that an agent encodes for
/// a record that fits the frame, delivered in any envelope to a waiting
/// collector, ends the exchange with the fields of that record.
pub proof fn lemma_reply_is_understood(
    family: AddressFamily,
    header: Seq<u8>,
    record: Seq<char>,
    timeout: u64,
    elapsed: u64,
)
    requires
        frames_envelope(family, header),
        REPLY_TAG@.len() + encode_utf8(record).len() <= REPLY_CAPACITY,
    ensures
        collector_outcome(
            after_datagram(
                Phase::Awaiting,
                channel_filter(family, REPLY_TAG@),
                timeout,
                header + wire_image(reply_message(encode_utf8(record)), family),
                elapsed,
            ),
        ) == CollectorOutcome::Fields(split_fields(record, record_delimiter())),
{
    let message = reply_message(encode_utf8(record));
    lemma_envelope_comes_off(family, header, wire_image(message, family));
    lemma_round_trip(message, family);
    encode_utf8_valid_utf8(record);
    encode_utf8_decode_utf8(record);
    assert(message.payload.skip(REPLY_TAG@.len() as int) =~= encode_utf8(record));
}

/// What the agent joins, the collector tells apart: where the fields of a
/// record are separable and the record fits the frame, the collector ends
/// the exchange with exactly those fields.
pub proof fn lemma_fields_come_back(
    family: AddressFamily,
    header: Seq<u8>,
    fields: Seq<Seq<char>>,
    timeout: u64,
    elapsed: u64,
)
    requires
        frames_envelope(family, header),
        separable(fields, record_delimiter()),
        REPLY_TAG@.len() + encode_utf8(join_fields(fields, record_delimiter())).len()
            <= REPLY_CAPACITY,
    ensures
        collector_outcome(
            after_datagram(
                Phase::Awaiting,
                channel_filter(family, REPLY_TAG@),
                timeout,
                header + wire_image(
                    reply_message(encode_utf8(join_fields(fields, record_delimiter()))),
                    family,
                ),
                elapsed,
            ),
        ) == CollectorOutcome::Fields(fields),
{
    lemma_reply_is_understood(
        family,
        header,
        join_fields(fields, record_delimiter()),
        timeout,
        elapsed,
    );
    lemma_split_join(fields, record_delimiter());
}

/// The answering side of the telemetry channel.
#[derive(Clone, Copy, Debug)]
pub struct Agent {
    family: AddressFamily,
}

impl Agent {
    /// The family of the socket that the agent listens on.
    pub closed spec fn family(&self) -> AddressFamily {
        self.family
    }

    /// An agent for a socket of `family`.
    pub fn new(family: AddressFamily) -> (agent: Agent)
        ensures
            agent.family() == family,
    {
        Agent { family }
    }

    /// Judges one datagram. Nothing that a datagram holds is an error to the
    /// agent: what is not a request is dropped.
    pub fn inspect(&self, datagram: &[u8]) -> (verdict: AgentVerdict)
        ensures
            verdict == agent_verdict(self.family(), datagram@),
    {
        let tag = REQUEST_TAG;
        let filter = make_filter(self.family, tag.as_slice());
        match filter.screen(datagram) {
            Screening::Fatal(e) => AgentVerdict::Discard(Discard::Framing(e)),
            Screening::Rejected(r) => AgentVerdict::Discard(Discard::Rejected(r)),
            Screening::Accepted(_) => AgentVerdict::Respond,
        }
    }

    /// Writes the reply that carries `record` into the front of `buffer` and
    /// returns the frame's length. The payload is the reply tag followed by
    /// the record's bytes; what does not fit the frame is cut off. Fails,
    /// leaving the buffer as it was, if the buffer cannot hold the frame.
    pub fn encode_reply(&self, record: &str, buffer: &mut [u8]) -> (r: Result<usize, EncodeError>)
        ensures
            r is Ok <==> old(buffer)@.len() >= ICMP_HEADER_SIZE + reply_payload(
                record.spec_bytes(),
            ).len(),
            r matches Ok(n) ==> n == ICMP_HEADER_SIZE + reply_payload(record.spec_bytes()).len()
                && final(buffer)@ == wire_image(reply_message(record.spec_bytes()), self.family())
                + old(buffer)@.skip(n as int),
            r is Err ==> final(buffer)@ == old(buffer)@,
    {
        let tag = REPLY_TAG;
        let bytes = record.as_bytes();
        let mut payload: Vec<u8> = Vec::new();
        let mut i: usize = 0;
        while i < tag.len()
            invariant
                i <= 6,
                tag == REPLY_TAG,
                payload@ == tag@.take(i as int),
            decreases 6 - i,
        {
            payload.push(tag[i]);
            assert(payload@ =~= tag@.take(i + 1));
            i = i + 1;
        }
        let mut k: usize = 0;
        while k < bytes.len() && payload.len() < REPLY_CAPACITY
            invariant
                k <= bytes@.len(),
                payload@ == (REPLY_TAG@ + bytes@).take(6 + k),
                payload@.len() == 6 + k,
                payload@.len() <= REPLY_CAPACITY,
            decreases bytes.len() - k,
        {
            payload.push(bytes[k]);
            assert(payload@ =~= (REPLY_TAG@ + bytes@).take(6 + k + 1));
            k = k + 1;
        }
        proof {
            assert((REPLY_TAG@ + bytes@).take((REPLY_TAG@ + bytes@).len() as int) =~= REPLY_TAG@
                + bytes@);
            assert(payload@ =~= reply_payload(record.spec_bytes()));
        }
        let message = EchoMessage {
            kind: MessageKind::Request,
            identifier: SERVICE_IDENTIFIER,
            sequence: DEFAULT_SEQUENCE,
            payload: payload.as_slice(),
        };
        message.encode(self.family, buffer)
    }
}

/// The record of an agent: the time of day, the processor's temperature and
/// its load in percent, joined by the delimiter.
pub open spec fn record_text(
    time: TimeOfDay,
    temperature: Result<Seq<char>, Seq<char>>,
    load: Result<Seq<char>, Seq<char>>,
) -> Seq<char> {
    join_fields(
        seq![time.text(), reading_text(temperature, Seq::empty()), reading_text(load, seq!['%'])],
        record_delimiter(),
    )
}

/// Writes the record for the readings taken at `time`.
pub fn compose_record(
    time: TimeOfDay,
    temperature: &Result<String, String>,
    load: &Result<String, String>,
) -> (record: String)
    ensures
        record@ == record_text(time, reading_view(temperature), reading_view(load)),
{
    proof {
        reveal_strlit("");
        reveal_strlit("%");
        reveal_strlit("...");
    }
    let clock = time.to_text();
    let warmth = format_reading(temperature, "");
    let work = format_reading(load, "%");
    assert(""@ =~= Seq::<char>::empty());
    assert("%"@ =~= seq!['%']);
    assert("..."@ =~= record_delimiter());
    join_three(clock.as_str(), warmth.as_str(), work.as_str(), "...")
}

/// Writes the record for the readings, stamped with the local time of day at
/// which it is called. Which time that is lies with the machine's clock; the
/// record is the one that [`compose_record`] writes for it.
pub fn collect_data(temperature: &Result<String, String>, load: &Result<String, String>) -> (record:
    String)
    ensures
        exists|time: TimeOfDay|
            time.wf() && record@ == record_text(
                time,
                reading_view(temperature),
                reading_view(load),
            ),
{
    let time = local_now().time;
    compose_record(time, temperature, load)
}

} // verus!
