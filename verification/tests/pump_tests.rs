use order_feed::order::{Order, OrderError};
use order_feed::pump::{
    advance, drawn, order_in_hand, start, PumpAction, PumpEvent, PumpState, StopReason, Turn,
    PACING_MILLIS,
};

fn sample(n: u32) -> Order {
    Order::assemble(format!("order-{}", n), n % 2 == 0, 980 + n, 5 + n).unwrap()
}

/// Drives the pump against a sink that fails on the send attempt numbered
/// `failing` (from 1) and gives up after `limit` events. Returns the number of
/// send attempts, the orders reported, and the state at the end.
fn run_against_sink(failing: u32, limit: u32) -> (u32, Vec<Order>, PumpState) {
    let mut state = start();
    let mut action = PumpAction::Draw;
    let mut attempts = 0;
    let mut made = 0;
    let mut reported = Vec::new();
    for _ in 0..limit {
        let event = match action {
            PumpAction::Draw => {
                made += 1;
                PumpEvent::Made(Ok(sample(made)))
            }
            PumpAction::Encode => {
                let order = order_in_hand(&state).unwrap();
                PumpEvent::Encoded(Some(format!("{:?}", order.to_record())))
            }
            PumpAction::Send(_) => {
                attempts += 1;
                if attempts == failing {
                    PumpEvent::SendFailed
                } else {
                    PumpEvent::Delivered
                }
            }
            PumpAction::Report(order, millis) => {
                assert_eq!(millis, 100);
                reported.push(order);
                PumpEvent::Woke
            }
            PumpAction::Abort(_) | PumpAction::Nothing => break,
        };
        let Turn { state: next_state, action: next_action } = advance(state, event);
        state = next_state;
        action = next_action;
    }
    (attempts, reported, state)
}

#[test]
fn pacing_interval_is_a_tenth_of_a_second() {
    assert_eq!(PACING_MILLIS, 100);
}

#[test]
fn pump_starts_ready() {
    assert_eq!(start(), PumpState::Ready);
    assert_eq!(order_in_hand(&start()), None);
}

#[test]
fn one_round_encodes_sends_reports_and_draws_again() {
    let turn = advance(start(), PumpEvent::Made(Ok(sample(1))));
    assert_eq!(turn.action, PumpAction::Encode);
    assert_eq!(turn.state, PumpState::Encoding(sample(1)));
    assert_eq!(order_in_hand(&turn.state), Some(&sample(1)));

    let turn = advance(turn.state, PumpEvent::Encoded(Some("{}".to_string())));
    assert_eq!(turn.action, PumpAction::Send("{}".to_string()));
    assert_eq!(turn.state, PumpState::Sending(sample(1)));
    assert_eq!(order_in_hand(&turn.state), Some(&sample(1)));

    let turn = advance(turn.state, PumpEvent::Delivered);
    assert_eq!(turn.action, PumpAction::Report(sample(1), 100));
    assert_eq!(turn.state, PumpState::Pausing);
    assert_eq!(order_in_hand(&turn.state), None);

    let turn = advance(turn.state, PumpEvent::Woke);
    assert_eq!(turn.action, PumpAction::Draw);
    assert_eq!(turn.state, PumpState::Ready);
}

#[test]
fn sink_failing_on_third_send_stops_the_pump() {
    let (attempts, reported, state) = run_against_sink(3, 1000);
    assert_eq!(attempts, 3);
    assert_eq!(reported, vec![sample(1), sample(2)]);
    assert_eq!(state, PumpState::Stopped(StopReason::Send));
    let turn = advance(state, PumpEvent::Woke);
    assert_eq!(turn.state, PumpState::Stopped(StopReason::Send));
    assert_eq!(turn.action, PumpAction::Nothing);
}

#[test]
fn pump_runs_on_while_the_sink_holds() {
    let (attempts, reported, state) = run_against_sink(0, 40);
    assert_eq!(attempts, 10);
    assert_eq!(reported.len(), 10);
    assert_eq!(state, PumpState::Ready);
}

#[test]
fn failed_send_aborts() {
    let turn = advance(PumpState::Sending(sample(3)), PumpEvent::SendFailed);
    assert_eq!(turn.action, PumpAction::Abort(StopReason::Send));
    assert_eq!(turn.state, PumpState::Stopped(StopReason::Send));
}

#[test]
fn failed_encoding_aborts_before_any_send() {
    let turn = advance(PumpState::Encoding(sample(3)), PumpEvent::Encoded(None));
    assert_eq!(turn.action, PumpAction::Abort(StopReason::Encode));
    assert_eq!(turn.state, PumpState::Stopped(StopReason::Encode));
}

#[test]
fn failed_draw_aborts() {
    let turn = advance(start(), PumpEvent::Made(Err(OrderError::PriceOutOfRange)));
    assert_eq!(turn.action, PumpAction::Abort(StopReason::Draw(OrderError::PriceOutOfRange)));
    assert_eq!(turn.state, PumpState::Stopped(StopReason::Draw(OrderError::PriceOutOfRange)));
}

#[test]
fn stopped_pump_ignores_every_event() {
    let events = || {
        vec![
            PumpEvent::Made(Ok(sample(2))),
            PumpEvent::Made(Err(OrderError::QuantityOutOfRange)),
            PumpEvent::Encoded(Some("x".to_string())),
            PumpEvent::Encoded(None),
            PumpEvent::Delivered,
            PumpEvent::SendFailed,
            PumpEvent::Woke,
            PumpEvent::SessionEnded,
        ]
    };
    for event in events() {
        let turn = advance(PumpState::Stopped(StopReason::Encode), event);
        assert_eq!(turn.state, PumpState::Stopped(StopReason::Encode));
        assert_eq!(turn.action, PumpAction::Nothing);
    }
}

#[test]
fn event_out_of_turn_changes_nothing() {
    let turn = advance(start(), PumpEvent::Delivered);
    assert_eq!(turn, Turn { state: PumpState::Ready, action: PumpAction::Nothing });
    let turn = advance(PumpState::Encoding(sample(1)), PumpEvent::Woke);
    assert_eq!(turn, Turn { state: PumpState::Encoding(sample(1)), action: PumpAction::Nothing });
    let turn = advance(PumpState::Sending(sample(1)), PumpEvent::Encoded(Some("again".to_string())));
    assert_eq!(turn, Turn { state: PumpState::Sending(sample(1)), action: PumpAction::Nothing });
    let turn = advance(PumpState::Pausing, PumpEvent::Made(Ok(sample(2))));
    assert_eq!(turn, Turn { state: PumpState::Pausing, action: PumpAction::Nothing });
}

#[test]
fn end_of_session_stops_a_running_pump() {
    for state in [
        PumpState::Ready,
        PumpState::Encoding(sample(1)),
        PumpState::Sending(sample(1)),
        PumpState::Pausing,
    ] {
        let turn = advance(state, PumpEvent::SessionEnded);
        assert_eq!(turn.state, PumpState::Stopped(StopReason::SessionEnded));
        assert_eq!(turn.action, PumpAction::Abort(StopReason::SessionEnded));
    }
}

#[test]
fn drawn_event_holds_an_order_of_the_given_draws() {
    match drawn(false, 1020) {
        PumpEvent::Made(Ok(order)) => {
            assert_eq!(order.order_type(), "Sell");
            assert_eq!(order.price_tenths(), 1020);
            assert!((5..=25).contains(&order.quantity()));
            assert_eq!(order.id().len(), 36);
        }
        other => panic!("{:?}", other),
    }
}

#[test]
fn drawn_event_reports_a_price_out_of_bounds() {
    assert_eq!(drawn(true, 1021), PumpEvent::Made(Err(OrderError::PriceOutOfRange)));
    assert_eq!(drawn(true, 0), PumpEvent::Made(Err(OrderError::PriceOutOfRange)));
}

#[test]
fn sink_failing_in_any_round_stops_the_pump_there() {
    for failing in 1..8u32 {
        let (attempts, reported, state) = run_against_sink(failing, 1000);
        assert_eq!(attempts, failing);
        assert_eq!(reported.len() as u32, failing - 1);
        for (done, order) in reported.iter().enumerate() {
            assert_eq!(*order, sample(done as u32 + 1));
        }
        assert_eq!(state, PumpState::Stopped(StopReason::Send));
    }
}

#[test]
fn sink_failing_at_once_reports_nothing() {
    let (attempts, reported, state) = run_against_sink(1, 1000);
    assert_eq!(attempts, 1);
    assert!(reported.is_empty());
    assert_eq!(state, PumpState::Stopped(StopReason::Send));
}
