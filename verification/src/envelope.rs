//! The IPv4 header that a raw IPv4 socket delivers in front of each message.
//! A raw IPv6 socket delivers the message alone.

use crate::codec::AddressFamily;
use crate::errors::EnvelopeError;
use vstd::prelude::*;
use vstd::slice::slice_subrange;

verus! {

/// Size in bytes of the smallest IPv4 header.
pub const IPV4_MIN_HEADER_SIZE: usize = 20;

/// The header length that an IPv4 datagram declares of itself: the low four
/// bits of its first byte count 4-byte words.
pub open spec fn declared_header_len(datagram: Seq<u8>) -> int {
    4 * (datagram[0] as int % 16)
}

/// The message region of `datagram`, or why there is none.
pub open spec fn strip_envelope(datagram: Seq<u8>, family: AddressFamily) -> Result<
    Seq<u8>,
    EnvelopeError,
> {
    match family {
        AddressFamily::V6 => Ok(datagram),
        AddressFamily::V4 => if datagram.len() < IPV4_MIN_HEADER_SIZE {
            Err(EnvelopeError::TooShort)
        } else if datagram.len() < declared_header_len(datagram) {
            Err(EnvelopeError::HeaderLength)
        } else {
            Ok(datagram.skip(declared_header_len(datagram)))
        },
    }
}

/// Offset of the sender's address in an IPv4 header.
pub const IPV4_SOURCE_OFFSET: usize = 12;

/// The address that an IPv4 datagram names as its sender: four bytes of its
/// header. A datagram shorter than the smallest header names none.
pub open spec fn source_of(datagram: Seq<u8>) -> Option<Seq<u8>> {
    if datagram.len() < IPV4_MIN_HEADER_SIZE {
        None
    } else {
        Some(datagram.subrange(IPV4_SOURCE_OFFSET as int, IPV4_SOURCE_OFFSET + 4))
    }
}

/// Reads the sender's address off an IPv4 datagram.
pub fn source_address(datagram: &[u8]) -> (source: Option<[u8; 4]>)
    ensures
        match source {
            Some(address) => source_of(datagram@) == Some(address@),
            None => source_of(datagram@) is None,
        },
{
    if datagram.len() < IPV4_MIN_HEADER_SIZE {
        return None;
    }
    let address = [
        datagram[IPV4_SOURCE_OFFSET],
        datagram[IPV4_SOURCE_OFFSET + 1],
        datagram[IPV4_SOURCE_OFFSET + 2],
        datagram[IPV4_SOURCE_OFFSET + 3],
    ];
    proof {
        assert(address@ =~= datagram@.subrange(
            IPV4_SOURCE_OFFSET as int,
            IPV4_SOURCE_OFFSET + 4,
        ));
    }
    Some(address)
}

/// Whether `result` is what `expected` says, the region taken by its view.
pub open spec fn strips_to(
    result: Result<&[u8], EnvelopeError>,
    expected: Result<Seq<u8>, EnvelopeError>,
) -> bool {
    match result {
        Ok(region) => expected == Ok::<Seq<u8>, EnvelopeError>(region@),
        Err(e) => expected == Err::<Seq<u8>, EnvelopeError>(e),
    }
}

/// For every header-length field `words`, a datagram that holds at least the
/// declared header yields exactly the bytes behind it.
pub proof fn lemma_strip_returns_rest(datagram: Seq<u8>, words: int)
    requires
        0 <= words <= 15,
        datagram.len() >= IPV4_MIN_HEADER_SIZE,
        datagram.len() >= 4 * words,
        datagram[0] as int % 16 == words,
    ensures
        strip_envelope(datagram, AddressFamily::V4) == Ok::<Seq<u8>, EnvelopeError>(
            datagram.skip(4 * words),
        ),
        datagram.skip(4 * words).len() == datagram.len() - 4 * words,
{
}

/// Takes the IPv4 header off `datagram` and returns the message region behind
/// it, borrowed from the datagram. For IPv6 the datagram is the region.
pub fn decode_envelope<'a>(datagram: &'a [u8], family: AddressFamily) -> (r: Result<
    &'a [u8],
    EnvelopeError,
>)
    ensures
        strips_to(r, strip_envelope(datagram@, family)),
{
    match family {
        AddressFamily::V6 => Ok(datagram),
        AddressFamily::V4 => {
            if datagram.len() < IPV4_MIN_HEADER_SIZE {
                return Err(EnvelopeError::TooShort);
            }
            let header_len: usize = 4 * ((datagram[0] % 16) as usize);
            if datagram.len() < header_len {
                return Err(EnvelopeError::HeaderLength);
            }
            let region = slice_subrange(datagram, header_len, datagram.len());
            proof {
                assert(region@ =~= datagram@.skip(header_len as int));
            }
            Ok(region)
        },
    }
}

} // verus!
