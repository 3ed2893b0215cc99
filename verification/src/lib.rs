//! ICMP echo probing and a small key-gated telemetry exchange carried over the
//! same wire format.
//!
//! The crate holds the packet codec, the decisions of the probe engine and of
//! the telemetry roles, and the bookkeeping around them. Sockets and files
//! are left to the caller, which feeds the engines with what it read and
//! performs what they answer.
//!
//! Leaves first:
//!
//! - [`checksum`], [`codec`], [`envelope`]: the bytes on the wire.
//! - [`exchange`]: the wait for an answer, as steps from phase to phase.
//! - [`probe`], [`session`]: one echo probe, and a run of probes to a station.
//! - [`telemetry`]: the collector and the agent of the tagged channel.
//! - [`station`], [`hosts`], [`commands`]: the stations and what is asked of
//!   them.
//! - [`text`], [`clock`], [`entropy`], [`pattern`]: text, and what comes
//!   from outside the crate.
//! - [`errors`]: what can go wrong.

pub mod checksum;
pub mod clock;
pub mod codec;
pub mod commands;
pub mod entropy;
pub mod envelope;
pub mod errors;
pub mod exchange;
pub mod hosts;
pub mod pattern;
pub mod probe;
pub mod session;
pub mod station;
pub mod telemetry;
pub mod text;
