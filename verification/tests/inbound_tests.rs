use order_feed::inbound::{classify, dispatch_all, Arrival, CloseInfo, InboundAck, Notice, Reaction};

fn ack(status: &str) -> Arrival {
    Arrival::Text(Some(InboundAck { status: status.to_string() }))
}

fn parsed(text: &str) -> Arrival {
    let value: Option<serde_json::Value> = serde_json::from_str(text).ok();
    let status = value
        .as_ref()
        .and_then(|v| v.as_object())
        .and_then(|o| o.get("status"))
        .and_then(|s| s.as_str())
        .map(|s| InboundAck { status: s.to_string() });
    Arrival::Text(status)
}

#[test]
fn close_with_code_and_reason_is_logged_and_ends() {
    let close = Arrival::Close(Some(CloseInfo { code: 1000, reason: "normal".to_string() }));
    assert_eq!(
        classify(&close),
        Reaction { notice: Some(Notice::Closed(1000, "normal".to_string())), proceed: false }
    );
    let log = dispatch_all(&vec![close, ack("late"), Arrival::Other]);
    assert_eq!(log, vec![Notice::Closed(1000, "normal".to_string()), Notice::Completed]);
}

#[test]
fn close_without_payload_is_logged_and_ends() {
    assert_eq!(
        classify(&Arrival::Close(None)),
        Reaction { notice: Some(Notice::ClosedWithoutInfo), proceed: false }
    );
    let log = dispatch_all(&vec![Arrival::Close(None), Arrival::Binary(vec![1])]);
    assert_eq!(log, vec![Notice::ClosedWithoutInfo, Notice::Completed]);
}

#[test]
fn status_text_is_logged_and_other_text_is_not() {
    let ok = parsed("{\"status\":\"ok\"}");
    assert_eq!(ok, ack("ok"));
    assert_eq!(
        classify(&ok),
        Reaction { notice: Some(Notice::Status("ok".to_string())), proceed: true }
    );
    let bogus = parsed("{\"bogus\":1}");
    assert_eq!(bogus, Arrival::Text(None));
    assert_eq!(classify(&bogus), Reaction { notice: None, proceed: true });
    let log = dispatch_all(&vec![bogus, ok]);
    assert_eq!(log, vec![Notice::Status("ok".to_string()), Notice::Completed]);
}

#[test]
fn same_text_twice_is_logged_alike() {
    let text = ack("filled");
    let first = classify(&text);
    let second = classify(&text);
    assert_eq!(first, second);
    assert_eq!(text, ack("filled"));
    let log = dispatch_all(&vec![ack("filled"), ack("filled"), Arrival::Ping(vec![])]);
    assert_eq!(
        log,
        vec![
            Notice::Status("filled".to_string()),
            Notice::Status("filled".to_string()),
            Notice::PingSeen(vec![]),
            Notice::Completed,
        ]
    );
}

#[test]
fn payloads_are_logged_as_they_came() {
    assert_eq!(
        classify(&Arrival::Binary(vec![1, 2, 3])),
        Reaction { notice: Some(Notice::BinaryData(vec![1, 2, 3])), proceed: true }
    );
    assert_eq!(
        classify(&Arrival::Ping(vec![9])),
        Reaction { notice: Some(Notice::PingSeen(vec![9])), proceed: true }
    );
    assert_eq!(
        classify(&Arrival::Pong(vec![7, 7])),
        Reaction { notice: Some(Notice::PongSeen(vec![7, 7])), proceed: true }
    );
    assert_eq!(
        classify(&Arrival::Binary(vec![])),
        Reaction { notice: Some(Notice::BinaryData(vec![])), proceed: true }
    );
}

#[test]
fn unknown_unit_is_logged_and_passed_over() {
    assert_eq!(
        classify(&Arrival::Other),
        Reaction { notice: Some(Notice::Unrecognized), proceed: true }
    );
}

#[test]
fn failed_read_is_logged_and_ends() {
    let failed = Arrival::Failed("connection reset".to_string());
    assert_eq!(
        classify(&failed),
        Reaction {
            notice: Some(Notice::ReceiveFailed("connection reset".to_string())),
            proceed: false,
        }
    );
    let log = dispatch_all(&vec![Arrival::Other, failed, ack("never")]);
    assert_eq!(
        log,
        vec![
            Notice::Unrecognized,
            Notice::ReceiveFailed("connection reset".to_string()),
            Notice::Completed,
        ]
    );
}

#[test]
fn end_of_stream_only_completes() {
    assert_eq!(dispatch_all(&vec![]), vec![Notice::Completed]);
    assert_eq!(dispatch_all(&vec![Arrival::Text(None)]), vec![Notice::Completed]);
}

#[test]
fn units_are_logged_in_arrival_order() {
    let log = dispatch_all(&vec![
        Arrival::Pong(vec![2]),
        ack("a"),
        Arrival::Text(None),
        Arrival::Binary(vec![5]),
        ack("b"),
        Arrival::Close(Some(CloseInfo { code: 1001, reason: String::new() })),
        ack("c"),
    ]);
    assert_eq!(
        log,
        vec![
            Notice::PongSeen(vec![2]),
            Notice::Status("a".to_string()),
            Notice::BinaryData(vec![5]),
            Notice::Status("b".to_string()),
            Notice::Closed(1001, String::new()),
            Notice::Completed,
        ]
    );
}
