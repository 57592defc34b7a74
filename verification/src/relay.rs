//! The decisions of a connection relay.
//!
//! A relay couples an inbound and an outbound connection with three units of
//! work. The capture unit reads chunks from the inbound side, inspects each
//! and puts it on a bounded forwarding queue. The drain unit takes chunks from
//! that queue, first in first out, and writes them to the outbound side. The
//! return unit reads chunks from the outbound side and writes them to the
//! inbound side. Reading, writing and waiting are the caller's business; what
//! a unit does with what has arrived, and whether it goes on after a write,
//! is decided here. No unit ever changes a
//! byte of the traffic.

use crate::inspect::{inspect_chunk, Inspection};
use vstd::prelude::*;

verus! {

/// The number of chunks that the forwarding queue of a relay holds. A capture
/// unit that finds the queue full waits; it drops nothing.
pub const FORWARD_QUEUE_CAPACITY: usize = 32;

/// One end of a connection: a host and a port.
#[derive(Debug, Clone)]
pub struct Endpoint {
    /// The host, by name or by address.
    pub host: String,
    /// The port.
    pub port: u16,
}

/// Where a relay listens and where it forwards to. Both are fixed when the
/// relay starts.
#[derive(Debug, Clone)]
pub struct RelayConfig {
    /// The address on which the relay accepts connections.
    pub listen: Endpoint,
    /// The address of the backend to which each connection is relayed.
    pub destination: Endpoint,
}

impl RelayConfig {
    /// A relay that listens on `listen` and forwards to `destination`.
    pub fn new(listen: Endpoint, destination: Endpoint) -> (config: Self)
        ensures
            config.listen == listen,
            config.destination == destination,
    {
        RelayConfig { listen, destination }
    }

    /// A relay on this machine: it listens on port 7172 of the loopback
    /// address and forwards to port 7173.
    pub fn local() -> (config: Self)
        ensures
            config.listen.host@ == "127.0.0.1"@,
            config.listen.port == 7172,
            config.destination.host@ == "127.0.0.1"@,
            config.destination.port == 7173,
    {
        RelayConfig {
            listen: Endpoint { host: "127.0.0.1".to_owned(), port: 7172 },
            destination: Endpoint { host: "127.0.0.1".to_owned(), port: 7173 },
        }
    }
}

/// What a read from a connection, or a take from the forwarding queue, has
/// brought.
#[derive(Debug)]
pub enum Arrival {
    /// A chunk of bytes, bounded as the transport delivered it.
    Chunk(Vec<u8>),
    /// Nothing more will come: the source is at its end or has failed.
    Closed,
}

/// What a unit that only passes traffic on does next.
#[derive(Debug)]
pub enum Step {
    /// Write these bytes to the other side, then read again.
    Forward(Vec<u8>),
    /// End this unit. The other units of the relay go on.
    Stop,
}

/// What the capture unit does next.
#[derive(Debug)]
pub enum CaptureStep {
    /// Show the inspection to the observer, put the chunk on the forwarding
    /// queue, waiting while the queue is full, then read again.
    Enqueue {
        /// The chunk as it was captured.
        chunk: Vec<u8>,
        /// What the inspection of the chunk has found.
        inspection: Inspection,
    },
    /// End the capture unit. The other units of the relay go on.
    Stop,
}

/// How a write to a connection, or a put on the forwarding queue, has ended.
#[derive(Debug, Clone, Copy, PartialEq, Eq, Structural)]
pub enum Outcome {
    /// All of the chunk was taken.
    Done,
    /// The other side is gone or has failed.
    Failed,
}

/// Decides whether a unit goes on once it has passed a chunk on.
///
/// After a chunk that was taken the unit reads again. After a failure the
/// unit ends, without trying again; the other units of the relay go on.
pub fn after_write(outcome: Outcome) -> (goes_on: bool)
    ensures
        goes_on == (outcome is Done),
{
    match outcome {
        Outcome::Done => true,
        Outcome::Failed => false,
    }
}

/// Decides what the capture unit does with what it has read from the inbound
/// side.
///
/// A chunk is inspected and then queued for the outbound side exactly as it
/// came, whatever the inspection has found. At the end of the inbound side
/// the unit stops.
pub fn capture_step(arrival: Arrival) -> (step: CaptureStep)
    ensures
        match arrival {
            Arrival::Chunk(captured) => {
                &&& step matches CaptureStep::Enqueue { chunk, inspection }
                &&& chunk@ == captured@
                &&& inspection.describes(captured@)
            },
            Arrival::Closed => step is Stop,
        },
{
    match arrival {
        Arrival::Chunk(chunk) => {
            let inspection = inspect_chunk(chunk.as_slice());
            CaptureStep::Enqueue { chunk, inspection }
        },
        Arrival::Closed => CaptureStep::Stop,
    }
}

/// Decides what a unit that only passes traffic on does with what has
/// arrived: the drain unit with what it took from the forwarding queue, the
/// return unit with what it read from the outbound side.
///
/// A chunk is passed on exactly as it came. At the end of the source the
/// unit stops.
pub fn relay_step(arrival: Arrival) -> (step: Step)
    ensures
        match arrival {
            Arrival::Chunk(received) => step matches Step::Forward(chunk) && chunk@ == received@,
            Arrival::Closed => step is Stop,
        },
{
    match arrival {
        Arrival::Chunk(chunk) => Step::Forward(chunk),
        Arrival::Closed => Step::Stop,
    }
}

} // verus!
