//! Whole runs of the pump: what it has sent and reported after any number of
//! rounds, and what a sink that fails makes of the run.

use vstd::prelude::*;
use crate::order::OrderView;
use crate::pump::{
    actions_after, next, state_after, stopped_pump_does_nothing, PumpActionView, PumpEventView,
    PumpStateView, StopReason, PACING_MILLIS,
};

verus! {

/// How many texts a pump asked to send, and how many orders it reported.
pub struct Tally {
    pub sends: nat,
    pub reports: nat,
}

/// The tally of a run of actions.
pub open spec fn tally(actions: Seq<PumpActionView>) -> Tally
    decreases actions.len(),
{
    if actions.len() == 0 {
        Tally { sends: 0, reports: 0 }
    } else {
        let rest = tally(actions.subrange(1, actions.len() as int));
        Tally {
            sends: rest.sends + if actions[0] is Send {
                1nat
            } else {
                0nat
            },
            reports: rest.reports + if actions[0] is Report {
                1nat
            } else {
                0nat
            },
        }
    }
}

/// The events of one round in which the sink takes the text.
pub open spec fn good_round(order: OrderView, text: Seq<char>) -> Seq<PumpEventView> {
    seq![
        PumpEventView::Made(Ok(order)),
        PumpEventView::Encoded(Some(text)),
        PumpEventView::Delivered,
        PumpEventView::Woke,
    ]
}

/// The events of one round in which the sink fails.
pub open spec fn failing_round(order: OrderView, text: Seq<char>) -> Seq<PumpEventView> {
    seq![
        PumpEventView::Made(Ok(order)),
        PumpEventView::Encoded(Some(text)),
        PumpEventView::SendFailed,
    ]
}

/// The events of one good round after the other, one for each order and its
/// text.
pub open spec fn good_rounds(orders: Seq<(OrderView, Seq<char>)>) -> Seq<PumpEventView>
    decreases orders.len(),
{
    if orders.len() == 0 {
        Seq::empty()
    } else {
        good_round(orders[0].0, orders[0].1) + good_rounds(
            orders.subrange(1, orders.len() as int),
        )
    }
}

/// One good round brings the pump from `Ready` back to `Ready`, and the pump
/// has asked, in this order, to encode, to send the text, to report the order
/// with the pacing interval, and to draw again.
pub proof fn good_round_returns_to_ready(order: OrderView, text: Seq<char>)
    ensures
        state_after(PumpStateView::Ready, good_round(order, text)) == PumpStateView::Ready,
        actions_after(PumpStateView::Ready, good_round(order, text)) == seq![
            PumpActionView::Encode,
            PumpActionView::Send(text),
            PumpActionView::Report(order, PACING_MILLIS),
            PumpActionView::Draw,
        ],
{
    let round = good_round(order, text);
    let e1 = round.subrange(1, 4);
    let e2 = e1.subrange(1, 3);
    let e3 = e2.subrange(1, 2);
    let e4 = e3.subrange(1, 1);
    assert(e4.len() == 0);
    reveal_with_fuel(state_after, 5);
    reveal_with_fuel(actions_after, 5);
    assert(actions_after(PumpStateView::Ready, round) =~= seq![
        PumpActionView::Encode,
        PumpActionView::Send(text),
        PumpActionView::Report(order, PACING_MILLIS),
        PumpActionView::Draw,
    ]);
}

/// A run may be cut anywhere: the pump goes through the second part from the
/// state in which the first part left it, and its actions are those of the
/// first part followed by those of the second.
pub proof fn run_splits(
    state: PumpStateView,
    first: Seq<PumpEventView>,
    second: Seq<PumpEventView>,
)
    ensures
        state_after(state, first + second) == state_after(state_after(state, first), second),
        actions_after(state, first + second) == actions_after(state, first) + actions_after(
            state_after(state, first),
            second,
        ),
    decreases first.len(),
{
    if first.len() == 0 {
        assert(first + second =~= second);
        assert(actions_after(state, first) + actions_after(state, second) =~= actions_after(
            state,
            second,
        ));
    } else {
        let whole = first + second;
        let tail = first.subrange(1, first.len() as int);
        assert(whole[0] == first[0]);
        assert(whole.subrange(1, whole.len() as int) =~= tail + second);
        let then = next(state, first[0]).state;
        run_splits(then, tail, second);
        assert(actions_after(state, whole) =~= actions_after(state, first) + actions_after(
            state_after(state, first),
            second,
        ));
    }
}

/// The tally of two runs of actions, one after the other, is the sum of their
/// tallies.
pub proof fn tally_adds(first: Seq<PumpActionView>, second: Seq<PumpActionView>)
    ensures
        tally(first + second).sends == tally(first).sends + tally(second).sends,
        tally(first + second).reports == tally(first).reports + tally(second).reports,
    decreases first.len(),
{
    if first.len() == 0 {
        assert(first + second =~= second);
    } else {
        let whole = first + second;
        let tail = first.subrange(1, first.len() as int);
        assert(whole[0] == first[0]);
        assert(whole.subrange(1, whole.len() as int) =~= tail + second);
        tally_adds(tail, second);
    }
}

/// A run of actions that are all `Nothing` sends nothing and reports nothing.
pub proof fn idle_run_tallies_nothing(actions: Seq<PumpActionView>)
    requires
        forall|i: int| 0 <= i < actions.len() ==> actions[i] == PumpActionView::Nothing,
    ensures
        tally(actions) == (Tally { sends: 0, reports: 0 }),
    decreases actions.len(),
{
    if actions.len() > 0 {
        let tail = actions.subrange(1, actions.len() as int);
        assert forall|i: int| 0 <= i < tail.len() implies tail[i] == PumpActionView::Nothing by {
            assert(tail[i] == actions[i + 1]);
        }
        idle_run_tallies_nothing(tail);
    }
}

/// Any number of good rounds leaves the pump in `Ready`, with one text sent
/// and one order reported for each round.
pub proof fn good_rounds_send_and_report_each(orders: Seq<(OrderView, Seq<char>)>)
    ensures
        state_after(PumpStateView::Ready, good_rounds(orders)) == PumpStateView::Ready,
        tally(actions_after(PumpStateView::Ready, good_rounds(orders))) == (Tally {
            sends: orders.len(),
            reports: orders.len(),
        }),
    decreases orders.len(),
{
    if orders.len() > 0 {
        let ready = PumpStateView::Ready;
        let round = good_round(orders[0].0, orders[0].1);
        let others = orders.subrange(1, orders.len() as int);
        let acts = seq![
            PumpActionView::Encode,
            PumpActionView::Send(orders[0].1),
            PumpActionView::Report(orders[0].0, PACING_MILLIS),
            PumpActionView::Draw,
        ];
        good_round_returns_to_ready(orders[0].0, orders[0].1);
        assert(tally(acts) == (Tally { sends: 1, reports: 1 })) by {
            let a1 = acts.subrange(1, 4);
            let a2 = a1.subrange(1, 3);
            let a3 = a2.subrange(1, 2);
            let a4 = a3.subrange(1, 1);
            assert(a4.len() == 0);
            reveal_with_fuel(tally, 5);
        }
        good_rounds_send_and_report_each(others);
        run_splits(ready, round, good_rounds(others));
        tally_adds(acts, actions_after(ready, good_rounds(others)));
    }
}

/// A sink that fails in some round stops the pump there. Every round before
/// it was sent and reported; the failing round was attempted and not reported;
/// and whatever happens afterwards, no further text is sent.
pub proof fn failing_sink_stops_the_pump(
    done: Seq<(OrderView, Seq<char>)>,
    order: OrderView,
    text: Seq<char>,
    later: Seq<PumpEventView>,
)
    ensures
        ({
            let events = good_rounds(done) + failing_round(order, text) + later;
            &&& state_after(PumpStateView::Ready, events) == PumpStateView::Stopped(
                StopReason::Send,
            )
            &&& tally(actions_after(PumpStateView::Ready, events)) == (Tally {
                sends: done.len() + 1,
                reports: done.len(),
            })
        }),
{
    let ready = PumpStateView::Ready;
    let stopped = PumpStateView::Stopped(StopReason::Send);
    let failing = failing_round(order, text);
    let acts = seq![
        PumpActionView::Encode,
        PumpActionView::Send(text),
        PumpActionView::Abort(StopReason::Send),
    ];
    assert(state_after(ready, failing) == stopped && actions_after(ready, failing) =~= acts) by {
        let e1 = failing.subrange(1, 3);
        let e2 = e1.subrange(1, 2);
        let e3 = e2.subrange(1, 1);
        assert(e3.len() == 0);
        reveal_with_fuel(state_after, 4);
        reveal_with_fuel(actions_after, 4);
    }
    assert(tally(acts) == (Tally { sends: 1, reports: 0 })) by {
        let a1 = acts.subrange(1, 3);
        let a2 = a1.subrange(1, 2);
        let a3 = a2.subrange(1, 1);
        assert(a3.len() == 0);
        reveal_with_fuel(tally, 4);
    }
    good_rounds_send_and_report_each(done);
    stopped_pump_does_nothing(StopReason::Send, later);
    idle_run_tallies_nothing(actions_after(stopped, later));
    run_splits(ready, good_rounds(done), failing);
    run_splits(ready, good_rounds(done) + failing, later);
    tally_adds(actions_after(ready, good_rounds(done)), acts);
    tally_adds(actions_after(ready, good_rounds(done) + failing), actions_after(stopped, later));
}

} // verus!
