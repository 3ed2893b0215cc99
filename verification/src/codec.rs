//! ICMP echo messages on the wire, for IPv4 and IPv6.
//!
//! A frame is an 8-byte header (type, code, checksum, identifier, sequence;
//! the 16-bit fields in network byte order) followed by the payload.

use crate::checksum::{checksum_of, internet_checksum, lemma_checksum_verifies, with_word};
use crate::errors::{ClassificationError, EncodeError};
use vstd::prelude::*;
use vstd::slice::slice_subrange;

verus! {

/// Size in bytes of the echo header that precedes every payload.
pub const ICMP_HEADER_SIZE: usize = 8;

/// Offset of the checksum field in the echo header.
pub const CHECKSUM_OFFSET: usize = 2;

/// The address family a message travels in; it decides the type codes.
#[derive(Clone, Copy, Debug, PartialEq, Eq, Structural)]
pub enum AddressFamily {
    V4,
    V6,
}

/// Whether an echo message asks or answers.
#[derive(Clone, Copy, Debug, PartialEq, Eq, Structural)]
pub enum MessageKind {
    Request,
    Reply,
}

/// The ICMP type that `family` gives to an echo message of kind `kind`.
pub open spec fn type_byte(family: AddressFamily, kind: MessageKind) -> u8 {
    match (family, kind) {
        (AddressFamily::V4, MessageKind::Request) => 8,
        (AddressFamily::V4, MessageKind::Reply) => 0,
        (AddressFamily::V6, MessageKind::Request) => 128,
        (AddressFamily::V6, MessageKind::Reply) => 129,
    }
}

/// The kind that type and code stand for in `family`, if any. Echo messages
/// carry code zero.
pub open spec fn classify(family: AddressFamily, type_: u8, code: u8) -> Option<MessageKind> {
    if code != 0 {
        None
    } else if type_ == type_byte(family, MessageKind::Request) {
        Some(MessageKind::Request)
    } else if type_ == type_byte(family, MessageKind::Reply) {
        Some(MessageKind::Reply)
    } else {
        None
    }
}

/// The value of two bytes read in network byte order.
pub open spec fn be16(hi: u8, lo: u8) -> u16 {
    (hi as int * 256 + lo as int) as u16
}

/// The number of the ICMP protocol that goes with `family`: 1 for ICMP, 58
/// for ICMPv6.
pub open spec fn protocol_of(family: AddressFamily) -> u8 {
    match family {
        AddressFamily::V4 => 1,
        AddressFamily::V6 => 58,
    }
}

impl AddressFamily {
    /// The number of the ICMP protocol that a raw socket of this family is
    /// opened for.
    pub fn protocol_number(self) -> (number: u8)
        ensures
            number == protocol_of(self),
    {
        match self {
            AddressFamily::V4 => 1,
            AddressFamily::V6 => 58,
        }
    }

    /// The ICMP type of an echo message of kind `kind` in this family.
    pub fn type_of(self, kind: MessageKind) -> (t: u8)
        ensures
            t == type_byte(self, kind),
    {
        match (self, kind) {
            (AddressFamily::V4, MessageKind::Request) => 8,
            (AddressFamily::V4, MessageKind::Reply) => 0,
            (AddressFamily::V6, MessageKind::Request) => 128,
            (AddressFamily::V6, MessageKind::Reply) => 129,
        }
    }

    /// Tells what type and code stand for in this family.
    pub fn kind_of(self, type_: u8, code: u8) -> (kind: Option<MessageKind>)
        ensures
            kind == classify(self, type_, code),
    {
        if code != 0 {
            None
        } else if type_ == self.type_of(MessageKind::Request) {
            Some(MessageKind::Request)
        } else if type_ == self.type_of(MessageKind::Reply) {
            Some(MessageKind::Reply)
        } else {
            None
        }
    }
}

/// An echo message. The payload is borrowed: decoding copies nothing.
#[derive(Clone, Copy, Debug, PartialEq, Eq)]
pub struct EchoMessage<'a> {
    pub kind: MessageKind,
    pub identifier: u16,
    pub sequence: u16,
    pub payload: &'a [u8],
}

/// An echo message as a mathematical value.
pub struct EchoModel {
    pub kind: MessageKind,
    pub identifier: u16,
    pub sequence: u16,
    pub payload: Seq<u8>,
}

impl<'a> View for EchoMessage<'a> {
    type V = EchoModel;

    open spec fn view(&self) -> EchoModel {
        EchoModel {
            kind: self.kind,
            identifier: self.identifier,
            sequence: self.sequence,
            payload: self.payload@,
        }
    }
}

/// The frame of `message` with its checksum field still zero.
pub open spec fn unsealed_frame(message: EchoModel, family: AddressFamily) -> Seq<u8> {
    seq![
        type_byte(family, message.kind),
        0u8,
        0u8,
        0u8,
        (message.identifier / 256) as u8,
        (message.identifier % 256) as u8,
        (message.sequence / 256) as u8,
        (message.sequence % 256) as u8,
    ] + message.payload
}

/// The bytes that `message` is on the wire: the frame with its checksum,
/// taken over header and payload, written into the checksum field.
pub open spec fn wire_image(message: EchoModel, family: AddressFamily) -> Seq<u8> {
    let frame = unsealed_frame(message, family);
    with_word(frame, CHECKSUM_OFFSET as int, checksum_of(frame))
}

/// What `region` decodes to.
pub open spec fn parse_message(region: Seq<u8>, family: AddressFamily) -> Result<
    EchoModel,
    ClassificationError,
> {
    if region.len() < ICMP_HEADER_SIZE {
        Err(ClassificationError::TooShort)
    } else {
        match classify(family, region[0], region[1]) {
            None => Err(ClassificationError::UnknownType),
            Some(kind) => Ok(
                EchoModel {
                    kind,
                    identifier: be16(region[4], region[5]),
                    sequence: be16(region[6], region[7]),
                    payload: region.skip(ICMP_HEADER_SIZE as int),
                },
            ),
        }
    }
}

/// Whether `result` is what `expected` says, the message taken by its view.
pub open spec fn decodes_to(
    result: Result<EchoMessage<'_>, ClassificationError>,
    expected: Result<EchoModel, ClassificationError>,
) -> bool {
    match result {
        Ok(message) => expected == Ok::<EchoModel, ClassificationError>(message@),
        Err(e) => expected == Err::<EchoModel, ClassificationError>(e),
    }
}

/// Decoding undoes encoding: every message, whatever its identifier,
/// sequence and payload, comes back unchanged from its own wire image, in
/// both address families.
pub proof fn lemma_round_trip(message: EchoModel, family: AddressFamily)
    ensures
        parse_message(wire_image(message, family), family) == Ok::<EchoModel, ClassificationError>(
            message,
        ),
{
    let wire = wire_image(message, family);
    assert(wire.skip(ICMP_HEADER_SIZE as int) =~= message.payload);
    let decoded = parse_message(wire, family)->Ok_0;
    assert(decoded.payload == message.payload);
    assert(decoded.identifier == message.identifier);
    assert(decoded.sequence == message.sequence);
    assert(decoded.kind == message.kind);
}

/// An encoded message carries a valid checksum: the ones-complement sum over
/// header and payload, checksum field included, is 0xffff, whose complement
/// is zero.
pub proof fn lemma_wire_image_checksum(message: EchoModel, family: AddressFamily)
    ensures
        checksum_of(wire_image(message, family)) == 0,
{
    lemma_checksum_verifies(unsealed_frame(message, family), CHECKSUM_OFFSET as int);
}

impl<'a> EchoMessage<'a> {
    /// Writes the message into the front of `buffer` and returns the frame's
    /// length. The frame carries its checksum, so that the checksum of the
    /// whole frame is zero. The bytes behind the frame keep their value.
    /// Fails, leaving the buffer as it was, if header and payload do not fit.
    pub fn encode(&self, family: AddressFamily, buffer: &mut [u8]) -> (r: Result<
        usize,
        EncodeError,
    >)
        ensures
            r is Ok <==> old(buffer)@.len() >= ICMP_HEADER_SIZE + self.payload@.len(),
            r matches Ok(n) ==> n == ICMP_HEADER_SIZE + self.payload@.len() && final(buffer)@
                == wire_image(self@, family) + old(buffer)@.skip(n as int),
            r matches Ok(n) ==> checksum_of(final(buffer)@.take(n as int)) == 0,
            r is Err ==> final(buffer)@ == old(buffer)@,
    {
        let len = self.payload.len();
        if buffer.len() < ICMP_HEADER_SIZE || buffer.len() - ICMP_HEADER_SIZE < len {
            return Err(EncodeError::BufferTooSmall);
        }
        let n = ICMP_HEADER_SIZE + len;
        buffer[0] = family.type_of(self.kind);
        buffer[1] = 0;
        buffer[2] = 0;
        buffer[3] = 0;
        buffer[4] = (self.identifier / 256) as u8;
        buffer[5] = (self.identifier % 256) as u8;
        buffer[6] = (self.sequence / 256) as u8;
        buffer[7] = (self.sequence % 256) as u8;
        let mut i: usize = 0;
        while i < len
            invariant
                i <= len,
                len == self.payload@.len(),
                n == ICMP_HEADER_SIZE + len,
                buffer@.len() == old(buffer)@.len(),
                buffer@.len() >= n,
                buffer@.take(ICMP_HEADER_SIZE as int) == unsealed_frame(self@, family).take(
                    ICMP_HEADER_SIZE as int,
                ),
                forall|k: int| 0 <= k < i ==> buffer@[ICMP_HEADER_SIZE + k] == self.payload@[k],
                forall|k: int| n <= k < buffer@.len() ==> buffer@[k] == old(buffer)@[k],
            decreases len - i,
        {
            buffer[ICMP_HEADER_SIZE + i] = self.payload[i];
            i = i + 1;
        }
        proof {
            assert(buffer@.take(n as int) =~= unsealed_frame(self@, family)) by {
                let frame = unsealed_frame(self@, family);
                assert forall|k: int| 0 <= k < n implies buffer@.take(n as int)[k] == frame[k] by {
                    if k < ICMP_HEADER_SIZE {
                        assert(buffer@.take(ICMP_HEADER_SIZE as int)[k] == frame.take(
                            ICMP_HEADER_SIZE as int,
                        )[k]);
                    } else {
                        assert(buffer@[ICMP_HEADER_SIZE + (k - ICMP_HEADER_SIZE)]
                            == self.payload@[k - ICMP_HEADER_SIZE]);
                    }
                }
            }
        }
        let sum = internet_checksum(slice_subrange(buffer, 0, n));
        buffer[CHECKSUM_OFFSET] = (sum / 256) as u8;
        buffer[CHECKSUM_OFFSET + 1] = (sum % 256) as u8;
        proof {
            assert(buffer@ =~= wire_image(self@, family) + old(buffer)@.skip(n as int));
            assert(buffer@.take(n as int) =~= wire_image(self@, family));
            lemma_wire_image_checksum(self@, family);
        }
        Ok(n)
    }
}

/// Reads `region` as an echo message of `family`. The payload is the rest
/// of the region behind the header.
pub fn decode_message<'a>(region: &'a [u8], family: AddressFamily) -> (r: Result<
    EchoMessage<'a>,
    ClassificationError,
>)
    ensures
        decodes_to(r, parse_message(region@, family)),
{
    if region.len() < ICMP_HEADER_SIZE {
        return Err(ClassificationError::TooShort);
    }
    match family.kind_of(region[0], region[1]) {
        None => Err(ClassificationError::UnknownType),
        Some(kind) => {
            let identifier = (region[4] as u16) * 256 + (region[5] as u16);
            let sequence = (region[6] as u16) * 256 + (region[7] as u16);
            let payload = slice_subrange(region, ICMP_HEADER_SIZE, region.len());
            proof {
                assert(payload@ =~= region@.skip(ICMP_HEADER_SIZE as int));
            }
            Ok(EchoMessage { kind, identifier, sequence, payload })
        },
    }
}

} // verus!
