//! The byte accumulator: drains a socket's currently available bytes into one
//! message buffer, one read result at a time.
//!
//! A pass keeps reading while full chunks arrive. A short chunk, a would-block
//! report, a peer close or an I/O error all end the pass; whatever bytes were
//! gathered are then handed out as one `Data` outcome. Only a pass that ends
//! with nothing gathered distinguishes why: `NoDataAvailable` for would-block
//! (try again later) and `Closed` for a close or an error (tear down). A close
//! or error reached after bytes were gathered still yields `Data` — the bytes
//! are never dropped — and the closure is observed on the following pass.

use vstd::prelude::*;

use crate::events::CHUNK_SIZE;
use crate::events::ReadEvent;
use crate::events::ReadEventModel;
use crate::events::TickOutcome;
use crate::events::TickOutcomeModel;
use crate::events::outcome_model;
use crate::events::valid_read_event;

verus! {

/// What one accumulator step does with the buffer gathered so far: the new
/// buffer contents, and the pass's outcome if this read result ended it.
/// Ending a pass always leaves the buffer empty for the next pass.
pub open spec fn accum_step_model(acc: Seq<u8>, ev: ReadEventModel) -> (Seq<u8>, Option<
    TickOutcomeModel,
>) {
    match ev {
        ReadEventModel::Data(chunk) => if chunk.len() == CHUNK_SIZE {
            (acc + chunk, None)
        } else {
            (Seq::empty(), Some(TickOutcomeModel::Data(acc + chunk)))
        },
        ReadEventModel::WouldBlock => if acc.len() == 0 {
            (acc, Some(TickOutcomeModel::NoDataAvailable))
        } else {
            (Seq::empty(), Some(TickOutcomeModel::Data(acc)))
        },
        ReadEventModel::Closed => if acc.len() == 0 {
            (acc, Some(TickOutcomeModel::Closed))
        } else {
            (Seq::empty(), Some(TickOutcomeModel::Data(acc)))
        },
        ReadEventModel::IoError => if acc.len() == 0 {
            (acc, Some(TickOutcomeModel::Closed))
        } else {
            (Seq::empty(), Some(TickOutcomeModel::Data(acc)))
        },
    }
}

/// Feed one read result to the accumulator. `buf` holds the bytes gathered so
/// far in this pass; `None` means the pass goes on (read again), `Some(out)`
/// means the pass ended with outcome `out` and `buf` is empty again.
pub fn accum_step(buf: &mut Vec<u8>, ev: ReadEvent) -> (r: Option<TickOutcome>)
    requires
        valid_read_event(ev@),
    ensures
        (final(buf)@, outcome_model(r)) == accum_step_model(old(buf)@, ev@),
{
    match ev {
        ReadEvent::Data(chunk) => {
            let full = chunk.len() == CHUNK_SIZE;
            let mut chunk = chunk;
            buf.append(&mut chunk);
            if full {
                None
            } else {
                let mut out: Vec<u8> = Vec::new();
                core::mem::swap(&mut out, buf);
                Some(TickOutcome::Data(out))
            }
        },
        ReadEvent::WouldBlock => {
            if buf.len() == 0 {
                Some(TickOutcome::NoDataAvailable)
            } else {
                let mut out: Vec<u8> = Vec::new();
                core::mem::swap(&mut out, buf);
                Some(TickOutcome::Data(out))
            }
        },
        ReadEvent::Closed => {
            if buf.len() == 0 {
                Some(TickOutcome::Closed)
            } else {
                let mut out: Vec<u8> = Vec::new();
                core::mem::swap(&mut out, buf);
                Some(TickOutcome::Data(out))
            }
        },
        ReadEvent::IoError => {
            if buf.len() == 0 {
                Some(TickOutcome::Closed)
            } else {
                let mut out: Vec<u8> = Vec::new();
                core::mem::swap(&mut out, buf);
                Some(TickOutcome::Data(out))
            }
        },
    }
}

} // verus!
