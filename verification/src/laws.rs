//! What holds of the connection state machine, proved once and for all: the
//! echoed bytes are exactly the bytes the peer sent, in order, however the
//! transport chunked them; a pass never splits or merges across the wrong
//! boundary; and a finished connection does nothing further.

use vstd::prelude::*;

use crate::accumulator::accum_step_model;
use crate::connection::ConnModel;
use crate::connection::conn_step;
use crate::connection::run_model;
use crate::connection::valid_event;
use crate::connection::valid_script;
use crate::events::ActionModel;
use crate::events::CHUNK_SIZE;
use crate::events::EventModel;
use crate::events::ReadEventModel;
use crate::events::TickOutcomeModel;
use crate::events::valid_read_event;

verus! {

/// The bytes a connection still holds in its pass buffer: only a gathering
/// connection holds any.
pub open spec fn pending_bytes(c: ConnModel) -> Seq<u8> {
    match c {
        ConnModel::Reading(acc) => acc,
        _ => Seq::empty(),
    }
}

/// The bytes one event delivered from the peer: the payload of a data read,
/// nothing otherwise.
pub open spec fn event_payload(ev: EventModel) -> Seq<u8> {
    match ev {
        EventModel::Read(ReadEventModel::Data(chunk)) => chunk,
        _ => Seq::empty(),
    }
}

/// Everything the peer delivered over a script of events, in order.
pub open spec fn read_payload(evs: Seq<EventModel>) -> Seq<u8>
    decreases evs.len(),
{
    if evs.len() == 0 {
        Seq::empty()
    } else {
        event_payload(evs[0]) + read_payload(evs.drop_first())
    }
}

/// The bytes one action sends back to the peer: the buffer of an echo write,
/// nothing otherwise.
pub open spec fn action_payload(a: ActionModel) -> Seq<u8> {
    match a {
        ActionModel::Write(msg) => msg,
        _ => Seq::empty(),
    }
}

/// Everything a trace of actions echoes back to the peer, in order.
pub open spec fn written_bytes(actions: Seq<ActionModel>) -> Seq<u8>
    decreases actions.len(),
{
    if actions.len() == 0 {
        Seq::empty()
    } else {
        action_payload(actions[0]) + written_bytes(actions.drop_first())
    }
}

/// A run hands out exactly one action per event.
pub proof fn lemma_run_action_count(c: ConnModel, evs: Seq<EventModel>)
    ensures
        run_model(c, evs).1.len() == evs.len(),
    decreases evs.len(),
{
    if evs.len() > 0 {
        lemma_run_action_count(conn_step(c, evs[0]).0, evs.drop_first());
    }
}

/// One step keeps the bytes in balance: what was pending plus what the event
/// delivered equals what the step echoes plus what is pending afterwards.
pub proof fn lemma_step_conserves_bytes(c: ConnModel, ev: EventModel)
    requires
        valid_event(c, ev),
    ensures
        pending_bytes(c) + event_payload(ev) == action_payload(conn_step(c, ev).1) + pending_bytes(
            conn_step(c, ev).0,
        ),
{
    match (c, ev) {
        (ConnModel::Reading(acc), EventModel::Read(r)) => {
            match r {
                ReadEventModel::Data(chunk) => {
                    if chunk.len() == CHUNK_SIZE {
                        assert(acc + chunk =~= Seq::<u8>::empty() + (acc + chunk));
                    } else {
                        assert(acc + chunk =~= (acc + chunk) + Seq::<u8>::empty());
                    }
                },
                _ => {
                    if acc.len() == 0 {
                        assert(acc + Seq::<u8>::empty() =~= Seq::<u8>::empty() + acc);
                    } else {
                        assert(acc + Seq::<u8>::empty() =~= acc + Seq::<u8>::empty());
                    }
                },
            }
        },
        _ => {
            assert(pending_bytes(c) + event_payload(ev) =~= action_payload(conn_step(c, ev).1)
                + pending_bytes(conn_step(c, ev).0));
        },
    }
}

/// Conservation over a whole run: the bytes pending at the start plus
/// everything the peer delivered equal everything echoed back plus the bytes
/// still pending at the end. In particular the echoed bytes are the
/// delivered bytes, in their original order, however the transport chunked
/// them.
pub proof fn lemma_run_conserves_bytes(c: ConnModel, evs: Seq<EventModel>)
    requires
        valid_script(c, evs),
    ensures
        pending_bytes(c) + read_payload(evs) == written_bytes(run_model(c, evs).1)
            + pending_bytes(run_model(c, evs).0),
    decreases evs.len(),
{
    if evs.len() == 0 {
        assert(pending_bytes(c) + Seq::<u8>::empty() =~= Seq::<u8>::empty() + pending_bytes(c));
    } else {
        let ev = evs[0];
        let rest = evs.drop_first();
        let (next, a) = conn_step(c, ev);
        lemma_step_conserves_bytes(c, ev);
        lemma_run_conserves_bytes(next, rest);
        let (end, rest_actions) = run_model(next, rest);
        assert(run_model(c, evs).1 == seq![a] + rest_actions);
        assert((seq![a] + rest_actions).drop_first() =~= rest_actions);
        assert(written_bytes(seq![a] + rest_actions) == action_payload(a) + written_bytes(
            rest_actions,
        ));
        assert(pending_bytes(c) + (event_payload(ev) + read_payload(rest)) =~= (pending_bytes(c)
            + event_payload(ev)) + read_payload(rest));
        assert((action_payload(a) + pending_bytes(next)) + read_payload(rest) =~= action_payload(a)
            + (pending_bytes(next) + read_payload(rest)));
        assert(action_payload(a) + (written_bytes(rest_actions) + pending_bytes(end))
            =~= (action_payload(a) + written_bytes(rest_actions)) + pending_bytes(end));
    }
}

/// A connection that starts a run with nothing pending and ends it with
/// nothing pending has echoed back exactly the payload the peer delivered.
pub proof fn lemma_echo_is_exact(evs: Seq<EventModel>)
    requires
        valid_script(ConnModel::Reading(Seq::<u8>::empty()), evs),
        pending_bytes(run_model(ConnModel::Reading(Seq::<u8>::empty()), evs).0)
            == Seq::<u8>::empty(),
    ensures
        written_bytes(run_model(ConnModel::Reading(Seq::<u8>::empty()), evs).1) == read_payload(
            evs,
        ),
{
    let c = ConnModel::Reading(Seq::<u8>::empty());
    lemma_run_conserves_bytes(c, evs);
    assert(Seq::<u8>::empty() + read_payload(evs) =~= read_payload(evs));
    assert(written_bytes(run_model(c, evs).1) + Seq::<u8>::empty() =~= written_bytes(
        run_model(c, evs).1,
    ));
}

/// A pass never concludes with an empty `Data` outcome, and the machine
/// never asks for an empty echo write: a pass that gathered nothing reports
/// `NoDataAvailable` or `Closed` instead.
pub proof fn lemma_data_outcome_nonempty(acc: Seq<u8>, r: ReadEventModel)
    requires
        valid_read_event(r),
    ensures
        accum_step_model(acc, r).1 matches Some(TickOutcomeModel::Data(msg)) ==> msg.len() > 0,
        conn_step(ConnModel::Reading(acc), EventModel::Read(r)).1 matches ActionModel::Write(msg)
            ==> msg.len() > 0,
{
}

/// A read of exactly the chunk size does not end the pass: the chunk joins
/// the buffer and, when a would-block follows at once, the whole of it goes
/// back in a single echo write, never split into partial echoes.
pub proof fn lemma_boundary_chunk_single_echo(acc: Seq<u8>, chunk: Seq<u8>)
    requires
        chunk.len() == CHUNK_SIZE,
    ensures
        conn_step(ConnModel::Reading(acc), EventModel::Read(ReadEventModel::Data(chunk))) == (
            ConnModel::Reading(acc + chunk),
            ActionModel::Read,
        ),
        run_model(
            ConnModel::Reading(acc),
            seq![
                EventModel::Read(ReadEventModel::Data(chunk)),
                EventModel::Read(ReadEventModel::WouldBlock),
            ],
        ).1 =~= seq![ActionModel::Read, ActionModel::Write(acc + chunk)],
{
    let evs = seq![
        EventModel::Read(ReadEventModel::Data(chunk)),
        EventModel::Read(ReadEventModel::WouldBlock),
    ];
    assert(evs.drop_first() =~= seq![EventModel::Read(ReadEventModel::WouldBlock)]);
    assert(evs.drop_first().drop_first() =~= Seq::<EventModel>::empty());
    reveal_with_fuel(run_model, 3);
}

/// A would-block with nothing gathered concludes the pass as
/// `NoDataAvailable` — never `Closed` — and leaves the connection active and
/// pending: try again later, nothing is torn down.
pub proof fn lemma_would_block_empty_is_no_data()
    ensures
        accum_step_model(Seq::<u8>::empty(), ReadEventModel::WouldBlock) == (
            Seq::<u8>::empty(),
            Some(TickOutcomeModel::NoDataAvailable),
        ),
        conn_step(
            ConnModel::Reading(Seq::<u8>::empty()),
            EventModel::Read(ReadEventModel::WouldBlock),
        ) == (ConnModel::Reading(Seq::<u8>::empty()), ActionModel::Pending),
{
}

/// A closed socket with nothing gathered concludes the pass as `Closed`: the
/// connection is done and reports completion.
pub proof fn lemma_closed_empty_completes()
    ensures
        accum_step_model(Seq::<u8>::empty(), ReadEventModel::Closed) == (
            Seq::<u8>::empty(),
            Some(TickOutcomeModel::Closed),
        ),
        conn_step(
            ConnModel::Reading(Seq::<u8>::empty()),
            EventModel::Read(ReadEventModel::Closed),
        ) == (ConnModel::Done, ActionModel::Complete),
{
}

/// A finished connection stays finished and never issues another write,
/// whatever is fed to it.
pub proof fn lemma_done_writes_nothing(evs: Seq<EventModel>)
    ensures
        run_model(ConnModel::Done, evs).0 == ConnModel::Done,
        written_bytes(run_model(ConnModel::Done, evs).1) == Seq::<u8>::empty(),
        forall|i: int|
            0 <= i < evs.len() ==> run_model(ConnModel::Done, evs).1[i] == ActionModel::Complete,
    decreases evs.len(),
{
    if evs.len() == 0 {
    } else {
        let rest = evs.drop_first();
        lemma_done_writes_nothing(rest);
        lemma_run_action_count(ConnModel::Done, rest);
        let (end, rest_actions) = run_model(ConnModel::Done, rest);
        assert((seq![ActionModel::Complete] + rest_actions).drop_first() =~= rest_actions);
        assert(Seq::<u8>::empty() + Seq::<u8>::empty() =~= Seq::<u8>::empty());
        assert(run_model(ConnModel::Done, evs).1 == seq![ActionModel::Complete] + rest_actions);
        assert forall|i: int| 0 <= i < evs.len() implies run_model(ConnModel::Done, evs).1[i]
            == ActionModel::Complete by {
            if i > 0 {
                assert((seq![ActionModel::Complete] + rest_actions)[i] == rest_actions[i - 1]);
                assert(run_model(ConnModel::Done, rest).1[i - 1] == ActionModel::Complete);
            } else {
                assert((seq![ActionModel::Complete] + rest_actions)[0] == ActionModel::Complete);
            }
        }
    }
}

/// A close observed only after bytes were gathered in the same pass still
/// yields those bytes as one echo; the closure itself is observed on the
/// following pass, which then completes the connection.
pub proof fn lemma_close_after_data(acc: Seq<u8>)
    requires
        acc.len() > 0,
    ensures
        conn_step(ConnModel::Reading(acc), EventModel::Read(ReadEventModel::Closed)) == (
            ConnModel::Writing,
            ActionModel::Write(acc),
        ),
        run_model(
            ConnModel::Reading(acc),
            seq![
                EventModel::Read(ReadEventModel::Closed),
                EventModel::WriteOk,
                EventModel::Read(ReadEventModel::Closed),
            ],
        ) == ((
            ConnModel::Done,
            seq![ActionModel::Write(acc), ActionModel::Read, ActionModel::Complete],
        )),
{
    let evs = seq![
        EventModel::Read(ReadEventModel::Closed),
        EventModel::WriteOk,
        EventModel::Read(ReadEventModel::Closed),
    ];
    assert(evs.drop_first() =~= seq![
        EventModel::WriteOk,
        EventModel::Read(ReadEventModel::Closed),
    ]);
    assert(evs.drop_first().drop_first() =~= seq![EventModel::Read(ReadEventModel::Closed)]);
    assert(evs.drop_first().drop_first().drop_first() =~= Seq::<EventModel>::empty());
    reveal_with_fuel(run_model, 4);
    assert(run_model(ConnModel::Reading(acc), evs).1 =~= seq![
        ActionModel::Write(acc),
        ActionModel::Read,
        ActionModel::Complete,
    ]);
}

/// Two payloads delivered in two passes come back as two separate echoes in
/// order — never concatenated into one write across ticks.
pub proof fn lemma_two_payloads_two_echoes(a: Seq<u8>, b: Seq<u8>)
    requires
        0 < a.len() < CHUNK_SIZE,
        0 < b.len() < CHUNK_SIZE,
    ensures
        run_model(
            ConnModel::Reading(Seq::<u8>::empty()),
            seq![
                EventModel::Read(ReadEventModel::Data(a)),
                EventModel::WriteOk,
                EventModel::Read(ReadEventModel::Data(b)),
                EventModel::WriteOk,
            ],
        ) == ((
            ConnModel::Reading(Seq::<u8>::empty()),
            seq![
                ActionModel::Write(a),
                ActionModel::Read,
                ActionModel::Write(b),
                ActionModel::Read,
            ],
        )),
{
    let evs = seq![
        EventModel::Read(ReadEventModel::Data(a)),
        EventModel::WriteOk,
        EventModel::Read(ReadEventModel::Data(b)),
        EventModel::WriteOk,
    ];
    assert(evs.drop_first() =~= seq![
        EventModel::WriteOk,
        EventModel::Read(ReadEventModel::Data(b)),
        EventModel::WriteOk,
    ]);
    assert(evs.drop_first().drop_first() =~= seq![
        EventModel::Read(ReadEventModel::Data(b)),
        EventModel::WriteOk,
    ]);
    assert(evs.drop_first().drop_first().drop_first() =~= seq![EventModel::WriteOk]);
    assert(evs.drop_first().drop_first().drop_first().drop_first() =~= Seq::<EventModel>::empty());
    assert(Seq::<u8>::empty() + a =~= a);
    assert(Seq::<u8>::empty() + b =~= b);
    reveal_with_fuel(run_model, 5);
    assert(run_model(ConnModel::Reading(Seq::<u8>::empty()), evs).1 =~= seq![
        ActionModel::Write(a),
        ActionModel::Read,
        ActionModel::Write(b),
        ActionModel::Read,
    ]);
}

} // verus!
