//! The per-connection state machine.
//!
//! A `Connection` owns no socket; the runtime does. On every scheduling tick
//! the runtime starts by attempting a read and then follows the machine's
//! instructions: it feeds each read or write result in as an `Event` and
//! performs the `Action` handed back, until the action is `Pending` (yield
//! until the socket is readable again), `Complete` (the peer closed, all data
//! echoed) or `Fatal` (an echo could not be written). The machine itself is
//! two states — `Active` and `Done` — with the interior of a tick refined
//! into "gathering bytes" and "waiting for an echo write to finish".

use vstd::prelude::*;

use crate::accumulator::accum_step;
use crate::accumulator::accum_step_model;
use crate::events::Action;
use crate::events::ActionModel;
use crate::events::ConnState;
use crate::events::Event;
use crate::events::EventModel;
use crate::events::ReadEvent;
use crate::events::TickOutcome;
use crate::events::TickOutcomeModel;
use crate::events::valid_read_event;

verus! {

/// Ghost model of a connection. `Reading` carries the bytes gathered so far
/// in the current accumulation pass; `Writing` means an echo write is in
/// flight (the buffer travelled out with the `Write` action); `Done` is
/// terminal.
pub enum ConnModel {
    Reading(Seq<u8>),
    Writing,
    Done,
}

/// The interior phase of a connection.
enum Phase {
    Reading,
    Writing,
    Done,
}

/// One echo connection's state between events. Created `Active` with an
/// empty buffer when the runtime accepts a socket; `Done` once the peer
/// closed or an echo write failed.
pub struct Connection {
    phase: Phase,
    buf: Vec<u8>,
}

impl View for Connection {
    type V = ConnModel;

    closed spec fn view(&self) -> ConnModel {
        match self.phase {
            Phase::Reading => ConnModel::Reading(self.buf@),
            Phase::Writing => ConnModel::Writing,
            Phase::Done => ConnModel::Done,
        }
    }
}

/// Which events the runtime may report in which state: a read result while
/// gathering, a write result while an echo is in flight, nothing once done.
pub open spec fn valid_event(c: ConnModel, ev: EventModel) -> bool {
    match (c, ev) {
        (ConnModel::Reading(_), EventModel::Read(r)) => valid_read_event(r),
        (ConnModel::Writing, EventModel::WriteOk) => true,
        (ConnModel::Writing, EventModel::WriteErr) => true,
        _ => false,
    }
}

/// The transition function: from a state and an event to the next state and
/// the action the runtime is to perform. On a read result the accumulator
/// decides; a finished pass maps `Data` to an echo write, `NoDataAvailable`
/// to yielding, and `Closed` to completion. A successful write resumes
/// reading within the same tick; a failed write is fatal. (The final arm
/// covers event/state pairs the protocol never produces; it changes nothing.)
pub open spec fn conn_step(c: ConnModel, ev: EventModel) -> (ConnModel, ActionModel) {
    match (c, ev) {
        (ConnModel::Reading(acc), EventModel::Read(r)) => {
            let (buf, out) = accum_step_model(acc, r);
            match out {
                None => (ConnModel::Reading(buf), ActionModel::Read),
                Some(TickOutcomeModel::Data(msg)) => (ConnModel::Writing, ActionModel::Write(msg)),
                Some(TickOutcomeModel::NoDataAvailable) => (
                    ConnModel::Reading(buf),
                    ActionModel::Pending,
                ),
                Some(TickOutcomeModel::Closed) => (ConnModel::Done, ActionModel::Complete),
            }
        },
        (ConnModel::Writing, EventModel::WriteOk) => (
            ConnModel::Reading(Seq::empty()),
            ActionModel::Read,
        ),
        (ConnModel::Writing, EventModel::WriteErr) => (ConnModel::Done, ActionModel::Fatal),
        (ConnModel::Done, _) => (ConnModel::Done, ActionModel::Complete),
        (state, _) => (state, ActionModel::Pending),
    }
}

/// Whether every event of the script is valid in the state the machine has
/// reached by the time it arrives.
pub open spec fn valid_script(c: ConnModel, evs: Seq<EventModel>) -> bool
    decreases evs.len(),
{
    evs.len() == 0 || (valid_event(c, evs[0]) && valid_script(
        conn_step(c, evs[0]).0,
        evs.drop_first(),
    ))
}

/// Folding the transition function over a whole script of events: the state
/// reached at the end, and every action handed out along the way, in order.
pub open spec fn run_model(c: ConnModel, evs: Seq<EventModel>) -> (ConnModel, Seq<ActionModel>)
    decreases evs.len(),
{
    if evs.len() == 0 {
        (c, Seq::empty())
    } else {
        let (next, a) = conn_step(c, evs[0]);
        let (end, rest) = run_model(next, evs.drop_first());
        (end, seq![a] + rest)
    }
}

/// The ghost script a vector of events stands for.
pub open spec fn events_model(evs: Seq<Event>) -> Seq<EventModel> {
    evs.map_values(|ev: Event| ev@)
}

/// The ghost trace a vector of actions stands for.
pub open spec fn actions_model(acts: Seq<Action>) -> Seq<ActionModel> {
    acts.map_values(|a: Action| a@)
}

impl Connection {
    /// A fresh connection for a just-accepted socket: alive, with nothing
    /// gathered. Every tick begins with a read.
    pub fn new() -> (c: Connection)
        ensures
            c@ == ConnModel::Reading(Seq::<u8>::empty()),
    {
        Connection { phase: Phase::Reading, buf: Vec::new() }
    }

    /// Whether the connection is still `Active` or already `Done`.
    pub fn state(&self) -> (s: ConnState)
        ensures
            s == ConnState::Done <==> self@ is Done,
    {
        match self.phase {
            Phase::Done => ConnState::Done,
            Phase::Reading => ConnState::Active,
            Phase::Writing => ConnState::Active,
        }
    }

    /// Report the result of the read the machine asked for, and learn what
    /// to do next.
    pub fn on_read(&mut self, ev: ReadEvent) -> (a: Action)
        requires
            old(self)@ is Reading,
            valid_read_event(ev@),
        ensures
            (final(self)@, a@) == conn_step(old(self)@, EventModel::Read(ev@)),
    {
        let out = accum_step(&mut self.buf, ev);
        match out {
            None => Action::Read,
            Some(TickOutcome::Data(msg)) => {
                self.phase = Phase::Writing;
                Action::Write(msg)
            },
            Some(TickOutcome::NoDataAvailable) => Action::Pending,
            Some(TickOutcome::Closed) => {
                self.phase = Phase::Done;
                Action::Complete
            },
        }
    }

    /// Report whether the echo write flushed the whole buffer. Success
    /// resumes the tick with a fresh accumulation pass; failure tears the
    /// connection down.
    pub fn on_write_result(&mut self, ok: bool) -> (a: Action)
        requires
            old(self)@ is Writing,
        ensures
            (final(self)@, a@) == conn_step(
                old(self)@,
                if ok {
                    EventModel::WriteOk
                } else {
                    EventModel::WriteErr
                },
            ),
    {
        if ok {
            self.buf.clear();
            self.phase = Phase::Reading;
            Action::Read
        } else {
            self.phase = Phase::Done;
            Action::Fatal
        }
    }

    /// The single entry point for the runtime: feed the next event, get the
    /// next action.
    pub fn step(&mut self, ev: Event) -> (a: Action)
        requires
            valid_event(old(self)@, ev@),
        ensures
            (final(self)@, a@) == conn_step(old(self)@, ev@),
    {
        match ev {
            Event::Read(r) => self.on_read(r),
            Event::WriteOk => self.on_write_result(true),
            Event::WriteErr => self.on_write_result(false),
        }
    }
}

/// Drive the machine through a whole script of events and collect every
/// action it hands out: the executable mirror of `run_model`, and the shape
/// of the loop a runtime runs around one connection.
pub fn run_script(conn: &mut Connection, events: Vec<Event>) -> (actions: Vec<Action>)
    requires
        valid_script(old(conn)@, events_model(events@)),
    ensures
        (final(conn)@, actions_model(actions@)) == run_model(old(conn)@, events_model(events@)),
{
    let ghost c0 = conn@;
    let ghost evs0 = events_model(events@);
    let mut events = events;
    let mut actions: Vec<Action> = Vec::new();
    while events.len() > 0
        invariant
            valid_script(conn@, events_model(events@)),
            run_model(c0, evs0).0 == run_model(conn@, events_model(events@)).0,
            run_model(c0, evs0).1 == actions_model(actions@) + run_model(
                conn@,
                events_model(events@),
            ).1,
        decreases events.len(),
    {
        let ghost pre = conn@;
        let ghost ems = events_model(events@);
        let ev = events.remove(0);
        proof {
            assert(ems[0] == ev@);
            assert(events_model(events@) =~= ems.drop_first());
        }
        let a = conn.step(ev);
        actions.push(a);
        proof {
            let (end, rest) = run_model(conn@, ems.drop_first());
            assert(run_model(pre, ems).1 == seq![a@] + rest);
            assert(actions_model(actions@) =~= actions_model(actions@.drop_last()) + seq![a@]);
            assert(actions_model(actions@.drop_last()) + (seq![a@] + rest) =~= (actions_model(
                actions@.drop_last(),
            ) + seq![a@]) + rest);
        }
    }
    proof {
        assert(actions_model(actions@) + Seq::<ActionModel>::empty() =~= actions_model(actions@));
    }
    actions
}

} // verus!
