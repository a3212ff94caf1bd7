//! The sending side: an endless round of making an order, encoding it, sending
//! it, reporting it and pausing.
//!
//! The pump is a state machine. The program performs each action that the pump
//! asks for and hands back what came of it as an event. A failure to make, to
//! encode or to send an order stops the pump for good, and so does the news
//! that the session has ended: once the receiving side has seen the server
//! close, the pump is not left to find that out from a failed send.

use vstd::prelude::*;
use crate::order::{price_in_bounds, side_of, Order, OrderError, OrderView};
use crate::source::is_hyphenated_id;

verus! {

/// The pause between one order and the next, in milliseconds.
pub const PACING_MILLIS: u64 = 100;

/// Why the pump stopped.
#[derive(Debug, Clone, Copy, PartialEq, Eq, Structural)]
pub enum StopReason {
    /// The draws made no order.
    Draw(OrderError),
    /// The order could not be encoded as text.
    Encode,
    /// The text could not be sent.
    Send,
    /// The receiving side reported that the session is over.
    SessionEnded,
}

/// Where the pump stands.
#[derive(Debug, Clone, PartialEq, Eq)]
pub enum PumpState {
    /// About to make an order.
    Ready,
    /// An order is made and waits for its text.
    Encoding(Order),
    /// The order's text is with the sink.
    Sending(Order),
    /// The order is sent; the pause runs.
    Pausing,
    /// The pump has stopped and does nothing more.
    Stopped(StopReason),
}

/// What came of the action that the pump asked for.
#[derive(Debug, PartialEq, Eq)]
pub enum PumpEvent {
    /// The draws were made, and gave this order or none.
    Made(Result<Order, OrderError>),
    /// The order was encoded as this text, or could not be.
    Encoded(Option<String>),
    /// The sink took the text.
    Delivered,
    /// The sink failed.
    SendFailed,
    /// The pause is over.
    Woke,
    /// The receiving side has ended: the session is over.
    SessionEnded,
}

/// What the pump asks the program to do next.
#[derive(Debug, Clone, PartialEq, Eq)]
pub enum PumpAction {
    /// Draw a side and a price, and make an order of them.
    Draw,
    /// Encode the order that the state holds.
    Encode,
    /// Send this text.
    Send(String),
    /// Log that this order was sent, then pause for so many milliseconds.
    Report(Order, u64),
    /// Stop for this reason. Every reason but `SessionEnded` is a failure.
    Abort(StopReason),
    /// Nothing: the event did not belong to the state, or the pump has stopped.
    Nothing,
}

/// The pump's state after an event, and the action that it asks for.
#[derive(Debug, Clone, PartialEq, Eq)]
pub struct Turn {
    pub state: PumpState,
    pub action: PumpAction,
}

/// A state as plain mathematical values.
pub enum PumpStateView {
    Ready,
    Encoding(OrderView),
    Sending(OrderView),
    Pausing,
    Stopped(StopReason),
}

/// An event as plain mathematical values.
pub enum PumpEventView {
    Made(Result<OrderView, OrderError>),
    Encoded(Option<Seq<char>>),
    Delivered,
    SendFailed,
    Woke,
    SessionEnded,
}

/// An action as plain mathematical values.
pub enum PumpActionView {
    Draw,
    Encode,
    Send(Seq<char>),
    Report(OrderView, u64),
    Abort(StopReason),
    Nothing,
}

/// A turn as plain mathematical values.
pub struct TurnView {
    pub state: PumpStateView,
    pub action: PumpActionView,
}

impl View for PumpState {
    type V = PumpStateView;

    open spec fn view(&self) -> PumpStateView {
        match *self {
            PumpState::Ready => PumpStateView::Ready,
            PumpState::Encoding(order) => PumpStateView::Encoding(order@),
            PumpState::Sending(order) => PumpStateView::Sending(order@),
            PumpState::Pausing => PumpStateView::Pausing,
            PumpState::Stopped(why) => PumpStateView::Stopped(why),
        }
    }
}

impl View for PumpEvent {
    type V = PumpEventView;

    open spec fn view(&self) -> PumpEventView {
        match *self {
            PumpEvent::Made(Ok(order)) => PumpEventView::Made(Ok(order@)),
            PumpEvent::Made(Err(why)) => PumpEventView::Made(Err(why)),
            PumpEvent::Encoded(Some(text)) => PumpEventView::Encoded(Some(text@)),
            PumpEvent::Encoded(None) => PumpEventView::Encoded(None),
            PumpEvent::Delivered => PumpEventView::Delivered,
            PumpEvent::SendFailed => PumpEventView::SendFailed,
            PumpEvent::Woke => PumpEventView::Woke,
            PumpEvent::SessionEnded => PumpEventView::SessionEnded,
        }
    }
}

impl View for PumpAction {
    type V = PumpActionView;

    open spec fn view(&self) -> PumpActionView {
        match *self {
            PumpAction::Draw => PumpActionView::Draw,
            PumpAction::Encode => PumpActionView::Encode,
            PumpAction::Send(text) => PumpActionView::Send(text@),
            PumpAction::Report(order, millis) => PumpActionView::Report(order@, millis),
            PumpAction::Abort(why) => PumpActionView::Abort(why),
            PumpAction::Nothing => PumpActionView::Nothing,
        }
    }
}

impl View for Turn {
    type V = TurnView;

    open spec fn view(&self) -> TurnView {
        TurnView { state: self.state@, action: self.action@ }
    }
}

/// The pump's rule.
///
/// From `Ready`, an order that was made is to be encoded. From `Encoding`, its
/// text is to be sent. From `Sending`, a delivered order is to be reported and
/// followed by the pause. From `Pausing`, the end of the pause leads back to
/// `Ready` and the next draw. A failure at any of the first three steps stops
/// the pump with an `Abort`, and so does the end of the session, in whatever
/// state it finds a pump that has not stopped. Any other pair leaves the state
/// as it is and asks for nothing.
pub open spec fn next(state: PumpStateView, event: PumpEventView) -> TurnView {
    match (state, event) {
        (PumpStateView::Stopped(_), _) => TurnView { state, action: PumpActionView::Nothing },
        (_, PumpEventView::SessionEnded) => TurnView {
            state: PumpStateView::Stopped(StopReason::SessionEnded),
            action: PumpActionView::Abort(StopReason::SessionEnded),
        },
        (PumpStateView::Ready, PumpEventView::Made(Ok(order))) => TurnView {
            state: PumpStateView::Encoding(order),
            action: PumpActionView::Encode,
        },
        (PumpStateView::Ready, PumpEventView::Made(Err(why))) => TurnView {
            state: PumpStateView::Stopped(StopReason::Draw(why)),
            action: PumpActionView::Abort(StopReason::Draw(why)),
        },
        (PumpStateView::Encoding(order), PumpEventView::Encoded(Some(text))) => TurnView {
            state: PumpStateView::Sending(order),
            action: PumpActionView::Send(text),
        },
        (PumpStateView::Encoding(_), PumpEventView::Encoded(None)) => TurnView {
            state: PumpStateView::Stopped(StopReason::Encode),
            action: PumpActionView::Abort(StopReason::Encode),
        },
        (PumpStateView::Sending(order), PumpEventView::Delivered) => TurnView {
            state: PumpStateView::Pausing,
            action: PumpActionView::Report(order, PACING_MILLIS),
        },
        (PumpStateView::Sending(_), PumpEventView::SendFailed) => TurnView {
            state: PumpStateView::Stopped(StopReason::Send),
            action: PumpActionView::Abort(StopReason::Send),
        },
        (PumpStateView::Pausing, PumpEventView::Woke) => TurnView {
            state: PumpStateView::Ready,
            action: PumpActionView::Draw,
        },
        _ => TurnView { state, action: PumpActionView::Nothing },
    }
}

/// The state in which every pump begins. Its first action is to draw.
pub fn start() -> (state: PumpState)
    ensures
        state@ == PumpStateView::Ready,
{
    PumpState::Ready
}

/// Makes the event that answers a `Draw`: an order of the side and the price
/// that the caller drew, with an identifier and a quantity drawn here.
///
/// The event is always `Made`. It holds an order exactly when the price is in
/// bounds, and otherwise the error `PriceOutOfRange`; the order has the given
/// side and price, a quantity in bounds and a hyphenated identifier.
pub fn drawn(buy: bool, price_tenths: u32) -> (event: PumpEvent)
    ensures
        match event@ {
            PumpEventView::Made(Ok(order)) => {
                &&& price_in_bounds(price_tenths as nat)
                &&& order.side == side_of(buy)
                &&& order.price_tenths == price_tenths
                &&& order.in_bounds()
                &&& is_hyphenated_id(order.id)
            },
            PumpEventView::Made(Err(why)) => {
                &&& !price_in_bounds(price_tenths as nat)
                &&& why == OrderError::PriceOutOfRange
            },
            _ => false,
        },
{
    PumpEvent::Made(Order::generate(buy, price_tenths))
}

/// Takes the pump one event further.
pub fn advance(state: PumpState, event: PumpEvent) -> (turn: Turn)
    ensures
        turn@ == next(state@, event@),
{
    if let PumpEvent::SessionEnded = event {
        return match state {
            PumpState::Stopped(why) => Turn {
                state: PumpState::Stopped(why),
                action: PumpAction::Nothing,
            },
            _ => Turn {
                state: PumpState::Stopped(StopReason::SessionEnded),
                action: PumpAction::Abort(StopReason::SessionEnded),
            },
        };
    }
    match state {
        PumpState::Ready => match event {
            PumpEvent::Made(Ok(order)) => Turn {
                state: PumpState::Encoding(order),
                action: PumpAction::Encode,
            },
            PumpEvent::Made(Err(why)) => Turn {
                state: PumpState::Stopped(StopReason::Draw(why)),
                action: PumpAction::Abort(StopReason::Draw(why)),
            },
            _ => Turn { state: PumpState::Ready, action: PumpAction::Nothing },
        },
        PumpState::Encoding(order) => match event {
            PumpEvent::Encoded(Some(text)) => Turn {
                state: PumpState::Sending(order),
                action: PumpAction::Send(text),
            },
            PumpEvent::Encoded(None) => Turn {
                state: PumpState::Stopped(StopReason::Encode),
                action: PumpAction::Abort(StopReason::Encode),
            },
            _ => Turn { state: PumpState::Encoding(order), action: PumpAction::Nothing },
        },
        PumpState::Sending(order) => match event {
            PumpEvent::Delivered => Turn {
                state: PumpState::Pausing,
                action: PumpAction::Report(order, PACING_MILLIS),
            },
            PumpEvent::SendFailed => Turn {
                state: PumpState::Stopped(StopReason::Send),
                action: PumpAction::Abort(StopReason::Send),
            },
            _ => Turn { state: PumpState::Sending(order), action: PumpAction::Nothing },
        },
        PumpState::Pausing => match event {
            PumpEvent::Woke => Turn { state: PumpState::Ready, action: PumpAction::Draw },
            _ => Turn { state: PumpState::Pausing, action: PumpAction::Nothing },
        },
        PumpState::Stopped(why) => Turn {
            state: PumpState::Stopped(why),
            action: PumpAction::Nothing,
        },
    }
}

/// The order that the program is to encode or has handed to the sink, while
/// the pump is in `Encoding` or `Sending`.
pub fn order_in_hand(state: &PumpState) -> (order: Option<&Order>)
    ensures
        match state@ {
            PumpStateView::Encoding(held) => order.is_some() && order.unwrap()@ == held,
            PumpStateView::Sending(held) => order.is_some() && order.unwrap()@ == held,
            _ => order.is_none(),
        },
{
    match state {
        PumpState::Encoding(order) => Some(order),
        PumpState::Sending(order) => Some(order),
        _ => None,
    }
}

/// The state that a pump reaches from `state` on `events`, taken in order.
pub open spec fn state_after(state: PumpStateView, events: Seq<PumpEventView>) -> PumpStateView
    decreases events.len(),
{
    if events.len() == 0 {
        state
    } else {
        state_after(next(state, events[0]).state, events.subrange(1, events.len() as int))
    }
}

/// The actions that a pump asks for from `state` on `events`, one for each
/// event.
pub open spec fn actions_after(state: PumpStateView, events: Seq<PumpEventView>) -> Seq<
    PumpActionView,
>
    decreases events.len(),
{
    if events.len() == 0 {
        Seq::empty()
    } else {
        seq![next(state, events[0]).action] + actions_after(
            next(state, events[0]).state,
            events.subrange(1, events.len() as int),
        )
    }
}

/// A stopped pump stays stopped, for the same reason, and asks for nothing,
/// whatever events it is given: after a failure nothing more is sent.
pub proof fn stopped_pump_does_nothing(why: StopReason, events: Seq<PumpEventView>)
    ensures
        state_after(PumpStateView::Stopped(why), events) == PumpStateView::Stopped(why),
        actions_after(PumpStateView::Stopped(why), events).len() == events.len(),
        forall|i: int|
            0 <= i < events.len() ==> #[trigger] actions_after(
                PumpStateView::Stopped(why),
                events,
            )[i] == PumpActionView::Nothing,
    decreases events.len(),
{
    if events.len() > 0 {
        let stopped = PumpStateView::Stopped(why);
        let rest = events.subrange(1, events.len() as int);
        stopped_pump_does_nothing(why, rest);
        assert(next(stopped, events[0]).state == stopped);
        assert(next(stopped, events[0]).action == PumpActionView::Nothing);
        assert forall|i: int| 0 <= i < events.len() implies #[trigger] actions_after(
            stopped,
            events,
        )[i] == PumpActionView::Nothing by {
            if i > 0 {
                assert(actions_after(stopped, events)[i] == actions_after(stopped, rest)[i - 1]);
            }
        }
    }
}

/// A text is sent only from `Encoding`, it is the text that the event brought,
/// and the pump is in `Sending` afterwards: no second text is sent before the
/// sink has answered for the first.
pub proof fn sends_are_sequential(state: PumpStateView, event: PumpEventView)
    ensures
        next(state, event).action is Send ==> {
            &&& state is Encoding
            &&& event == PumpEventView::Encoded(Some(next(state, event).action->Send_0))
            &&& next(state, event).state == PumpStateView::Sending(state->Encoding_0)
        },
        state is Sending ==> !(next(state, event).action is Send),
{
}

/// The pump stops exactly on a failure to make an order from `Ready`, to
/// encode it from `Encoding`, or to send it from `Sending`, and on the end of
/// the session; and whenever it stops it asks for an `Abort` with the reason
/// for which it stopped.
pub proof fn pump_stops_on_failure_only(state: PumpStateView, event: PumpEventView)
    requires
        !(state is Stopped),
    ensures
        next(state, event).state is Stopped <==> {
            ||| (state is Ready && event is Made && event->Made_0 is Err)
            ||| (state is Encoding && event == PumpEventView::Encoded(None))
            ||| (state is Sending && event is SendFailed)
            ||| event is SessionEnded
        },
        next(state, event).state is Stopped ==> next(state, event).action
            == PumpActionView::Abort(next(state, event).state->Stopped_0),
{
}

} // verus!
