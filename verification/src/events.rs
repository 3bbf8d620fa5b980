//! The vocabulary of the connection core: what one socket read reported, what
//! one accumulation pass concluded, which events the runtime feeds to the
//! state machine, and which actions the machine asks the runtime to perform.
//!
//! Each executable type carries its bytes in a `Vec<u8>` and has a ghost
//! model over `Seq<u8>`; contracts and proofs speak of the models.

use vstd::prelude::*;

verus! {

/// Reads are attempted in chunks of this many bytes; a read that returns
/// fewer means the socket has nothing more for this pass.
pub const CHUNK_SIZE: usize = 1024;

/// What one non-blocking read of the socket reported, as the runtime hands
/// it to the core.
pub enum ReadEvent {
    /// The read returned these bytes: at least one, at most `CHUNK_SIZE`.
    Data(Vec<u8>),
    /// The socket has no data available right now; trying again would block.
    WouldBlock,
    /// The peer closed the connection (a read of zero bytes).
    Closed,
    /// The transport failed with some other I/O error.
    IoError,
}

/// Ghost model of a `ReadEvent`.
pub enum ReadEventModel {
    Data(Seq<u8>),
    WouldBlock,
    Closed,
    IoError,
}

impl View for ReadEvent {
    type V = ReadEventModel;

    open spec fn view(&self) -> ReadEventModel {
        match self {
            ReadEvent::Data(chunk) => ReadEventModel::Data(chunk@),
            ReadEvent::WouldBlock => ReadEventModel::WouldBlock,
            ReadEvent::Closed => ReadEventModel::Closed,
            ReadEvent::IoError => ReadEventModel::IoError,
        }
    }
}

/// A data chunk is never empty (an empty read means the peer closed and is
/// reported as `Closed`) and never longer than the chunk buffer.
pub open spec fn valid_read_event(ev: ReadEventModel) -> bool {
    match ev {
        ReadEventModel::Data(chunk) => 0 < chunk.len() <= CHUNK_SIZE,
        _ => true,
    }
}

/// How one accumulation pass ended. Exactly one of these holds per pass.
pub enum TickOutcome {
    /// The pass gathered these bytes; they are to be echoed. Never empty.
    Data(Vec<u8>),
    /// Nothing was available at all: try again on the next readiness event.
    NoDataAvailable,
    /// The connection is gone and nothing was gathered: tear it down.
    Closed,
}

/// Ghost model of a `TickOutcome`.
pub enum TickOutcomeModel {
    Data(Seq<u8>),
    NoDataAvailable,
    Closed,
}

impl View for TickOutcome {
    type V = TickOutcomeModel;

    open spec fn view(&self) -> TickOutcomeModel {
        match self {
            TickOutcome::Data(buf) => TickOutcomeModel::Data(buf@),
            TickOutcome::NoDataAvailable => TickOutcomeModel::NoDataAvailable,
            TickOutcome::Closed => TickOutcomeModel::Closed,
        }
    }
}

/// Ghost model of an `Option<TickOutcome>`, as the accumulator returns it.
pub open spec fn outcome_model(r: Option<TickOutcome>) -> Option<TickOutcomeModel> {
    match r {
        Some(out) => Some(out@),
        None => None,
    }
}

/// One event the runtime reports to the connection state machine: the result
/// of the read or write it was asked to perform.
pub enum Event {
    /// The requested read finished with this result.
    Read(ReadEvent),
    /// The requested write flushed the whole buffer.
    WriteOk,
    /// The requested write failed; the echo cannot be completed.
    WriteErr,
}

/// Ghost model of an `Event`.
pub enum EventModel {
    Read(ReadEventModel),
    WriteOk,
    WriteErr,
}

impl View for Event {
    type V = EventModel;

    open spec fn view(&self) -> EventModel {
        match self {
            Event::Read(ev) => EventModel::Read(ev@),
            Event::WriteOk => EventModel::WriteOk,
            Event::WriteErr => EventModel::WriteErr,
        }
    }
}

/// What the state machine asks the runtime to do next.
pub enum Action {
    /// Attempt another non-blocking read of up to `CHUNK_SIZE` bytes.
    Read,
    /// Write this whole buffer back to the socket, then report the result.
    Write(Vec<u8>),
    /// The tick is over with the connection still alive: yield to the
    /// scheduler and come back when the socket is readable again.
    Pending,
    /// The peer closed and everything was echoed: the connection is complete.
    Complete,
    /// The echo could not be written: tear the connection down.
    Fatal,
}

/// Ghost model of an `Action`.
pub enum ActionModel {
    Read,
    Write(Seq<u8>),
    Pending,
    Complete,
    Fatal,
}

impl View for Action {
    type V = ActionModel;

    open spec fn view(&self) -> ActionModel {
        match self {
            Action::Read => ActionModel::Read,
            Action::Write(buf) => ActionModel::Write(buf@),
            Action::Pending => ActionModel::Pending,
            Action::Complete => ActionModel::Complete,
            Action::Fatal => ActionModel::Fatal,
        }
    }
}

/// Whether the connection, seen from outside, is still alive. The spec knows
/// only these two states; everything else is interior detail of a tick.
#[derive(Clone, Copy, PartialEq, Eq, Structural, Debug)]
pub enum ConnState {
    Active,
    Done,
}

} // verus!
