use serde_json::Value;
use xi_term::bridge::{keep_reading, Bridge, CallError, Policy, Routed};
use xi_term::codec::{classify, decode_line, frame_notification, frame_request, DecodeError, Incoming};
use xi_term::commands;

fn text(v: &str) -> Value {
    Value::String(v.to_string())
}

#[test]
fn new_view_call_receives_view_id() {
    let mut b: Bridge<u32> = Bridge::new();
    let params = commands::new_view_params("a.txt");
    let (id, line) = b.start_request("new_view", &params, 7).unwrap();
    assert_eq!(id, 1);
    assert_eq!(line, r#"{"id":1,"method":"new_view","params":{"filename":"a.txt"}}"#);
    assert_eq!(b.outstanding(), 1);
    match b.handle_line(r#"{"id":1,"result":"view-1"}"#) {
        Ok(Routed::Deliver { waiter, result }) => {
            assert_eq!(waiter, 7);
            assert_eq!(result, text("view-1"));
        }
        _ => panic!("the response did not reach its waiter"),
    }
    assert_eq!(b.outstanding(), 0);
}

#[test]
fn notification_registers_no_waiter() {
    let b: Bridge<u32> = Bridge::new();
    let line = commands::insert("view-1", "x");
    assert_eq!(
        line,
        r#"{"method":"edit","params":{"method":"insert","params":{"chars":"x"},"view_id":"view-1"}}"#
    );
    assert_eq!(b.outstanding(), 0);
}

#[test]
fn event_before_any_request_goes_to_stream() {
    let mut b: Bridge<u32> = Bridge::new();
    match b.handle_line(r#"{"method":"update","params":{"rev":3}}"#) {
        Ok(Routed::Emit { message }) => {
            assert_eq!(message.get("method"), Some(&text("update")));
        }
        _ => panic!("the event was not emitted"),
    }
    assert_eq!(b.outstanding(), 0);
}

#[test]
fn closing_fails_outstanding_and_later_calls() {
    let mut b: Bridge<u32> = Bridge::new();
    let (id, _) = b.start_request("new_view", "{}", 5).unwrap();
    let released = b.close();
    assert_eq!(released.len(), 1);
    assert_eq!(released.get(&id), Some(&5));
    assert!(b.closed());
    assert_eq!(b.outstanding(), 0);
    assert_eq!(b.start_request("new_view", "{}", 6).unwrap_err(), CallError::Closed);
    assert_eq!(b.begin_call(6).unwrap_err(), CallError::Closed);
}

#[test]
fn close_releases_every_outstanding_waiter() {
    let mut b: Bridge<u32> = Bridge::new();
    for w in 0..4u32 {
        b.begin_call(w).unwrap();
    }
    let released = b.close();
    assert_eq!(released.len(), 4);
    let mut ws: Vec<u32> = released.values().copied().collect();
    ws.sort();
    assert_eq!(ws, vec![0, 1, 2, 3]);
}

#[test]
fn out_of_order_responses_reach_their_own_waiters() {
    let mut b: Bridge<&str> = Bridge::new();
    let a = b.begin_call("first").unwrap();
    let c = b.begin_call("second").unwrap();
    assert_eq!((a, c), (1, 2));
    match b.handle_line(r#"{"id":2,"result":"two"}"#) {
        Ok(Routed::Deliver { waiter, result }) => {
            assert_eq!(waiter, "second");
            assert_eq!(result, text("two"));
        }
        _ => panic!("second response lost"),
    }
    match b.handle_line(r#"{"id":1,"result":[1,2]}"#) {
        Ok(Routed::Deliver { waiter, result }) => {
            assert_eq!(waiter, "first");
            assert_eq!(result, serde_json::from_str::<Value>("[1,2]").unwrap());
        }
        _ => panic!("first response lost"),
    }
}

#[test]
fn a_second_response_for_one_id_is_unmatched() {
    let mut b: Bridge<u32> = Bridge::new();
    b.begin_call(1).unwrap();
    assert!(matches!(b.handle_line(r#"{"id":1,"result":null}"#), Ok(Routed::Deliver { .. })));
    match b.handle_line(r#"{"id":1,"result":null}"#) {
        Ok(Routed::Unmatched { id, .. }) => assert_eq!(id, 1),
        _ => panic!("a repeated response was delivered"),
    }
}

#[test]
fn ids_are_fresh_and_increasing() {
    let mut b: Bridge<u32> = Bridge::new();
    let mut last = 0u64;
    for w in 0..10u32 {
        let id = b.begin_call(w).unwrap();
        assert_eq!(id, last + 1);
        last = id;
    }
    assert_eq!(b.outstanding(), 10);
    assert_eq!(b.resolve(3), Some(2));
    assert_eq!(b.resolve(3), None);
    assert_eq!(b.begin_call(99).unwrap(), 11);
}

#[test]
fn events_keep_their_order_among_responses() {
    let mut b: Bridge<u32> = Bridge::new();
    b.begin_call(1).unwrap();
    b.begin_call(2).unwrap();
    let lines = [
        r#"{"method":"update","params":{"n":1}}"#,
        r#"{"id":2,"result":0}"#,
        r#"{"method":"scroll_to","params":{"n":2}}"#,
        r#"{"id":1,"result":0}"#,
        r#"{"method":"update","params":{"n":3}}"#,
    ];
    let mut events = Vec::new();
    for l in lines.iter() {
        if let Ok(Routed::Emit { message }) = b.handle_line(l) {
            events.push(message["params"]["n"].as_u64().unwrap());
        }
    }
    assert_eq!(events, vec![1, 2, 3]);
    assert_eq!(b.outstanding(), 0);
}

#[test]
fn response_round_trip_keeps_result() {
    let mut b: Bridge<u32> = Bridge::new();
    let (id, line) = b.start_request("probe", "[1]", 42).unwrap();
    assert_eq!(line, r#"{"id":1,"method":"probe","params":[1]}"#);
    let result = serde_json::from_str::<Value>(r#"{"a":[true,null,"s"],"b":1.5}"#).unwrap();
    let reply = format!(r#"{{"id":{},"result":{}}}"#, id, result);
    match b.handle_line(&reply) {
        Ok(Routed::Deliver { waiter, result: got }) => {
            assert_eq!(waiter, 42);
            assert_eq!(got, result);
        }
        _ => panic!("round trip failed"),
    }
}

#[test]
fn malformed_line_is_rejected() {
    assert!(matches!(decode_line("{not json"), Err(DecodeError::Malformed)));
    assert!(matches!(decode_line(""), Err(DecodeError::Malformed)));
    let mut b: Bridge<u32> = Bridge::new();
    b.begin_call(1).unwrap();
    assert!(matches!(b.handle_line("}"), Err(DecodeError::Malformed)));
    assert_eq!(b.outstanding(), 1);
}

#[test]
fn unrecognized_shapes_are_rejected() {
    assert!(matches!(decode_line(r#"{"foo":1}"#), Err(DecodeError::UnrecognizedShape)));
    assert!(matches!(decode_line("[1,2]"), Err(DecodeError::UnrecognizedShape)));
    assert!(matches!(decode_line(r#"{"id":"x","result":1}"#), Err(DecodeError::UnrecognizedShape)));
    assert!(matches!(decode_line(r#"{"id":1,"method":"m","params":{}}"#), Err(DecodeError::UnrecognizedShape)));
    assert!(matches!(decode_line(r#"{"method":"m"}"#), Err(DecodeError::UnrecognizedShape)));
}

#[test]
fn decode_classifies_responses_and_events() {
    match decode_line(r#"{"id":9,"result":{"k":"v"}}"#) {
        Ok(Incoming::Response { id, result }) => {
            assert_eq!(id, 9);
            assert_eq!(result["k"], text("v"));
        }
        _ => panic!("not a response"),
    }
    match decode_line(r#"{"method":"update","params":[]}"#) {
        Ok(Incoming::Event { message }) => assert_eq!(message["method"], text("update")),
        _ => panic!("not an event"),
    }
}

#[test]
fn classify_by_members() {
    assert!(matches!(
        classify(Some(Some(3)), Some(Value::Null), true, true, Value::Null),
        Ok(Incoming::Response { id: 3, .. })
    ));
    assert!(matches!(
        classify(Some(None), Some(Value::Null), false, false, Value::Null),
        Err(DecodeError::UnrecognizedShape)
    ));
    assert!(matches!(classify(None, None, true, true, Value::Null), Ok(Incoming::Event { .. })));
    assert!(matches!(classify(None, None, true, false, Value::Null), Err(DecodeError::UnrecognizedShape)));
    assert!(matches!(classify(Some(Some(1)), None, true, true, Value::Null), Err(DecodeError::UnrecognizedShape)));
}

#[test]
fn request_and_notification_framing() {
    assert_eq!(frame_request(0, "m", "{}"), r#"{"id":0,"method":"m","params":{}}"#);
    assert_eq!(
        frame_request(u64::MAX, "m", "[]"),
        r#"{"id":18446744073709551615,"method":"m","params":[]}"#
    );
    assert_eq!(frame_request(1207, "m", "null"), r#"{"id":1207,"method":"m","params":null}"#);
    assert_eq!(frame_notification("save", "{}"), r#"{"method":"save","params":{}}"#);
}

#[test]
fn strings_are_escaped() {
    assert_eq!(frame_notification("a\"b", "1"), r#"{"method":"a\"b","params":1}"#);
    assert_eq!(
        commands::insert("v\\1", "line\n"),
        r#"{"method":"edit","params":{"method":"insert","params":{"chars":"line\n"},"view_id":"v\\1"}}"#
    );
}

#[test]
fn register_refuses_duplicates_and_zero() {
    let mut b: Bridge<u32> = Bridge::new();
    assert_eq!(b.register(0, 1), Err(1));
    assert_eq!(b.register(5, 2), Ok(()));
    assert_eq!(b.register(5, 3), Err(3));
    assert_eq!(b.outstanding(), 1);
    assert_eq!(b.begin_call(4).unwrap(), 6);
    assert_eq!(b.resolve(5), Some(2));
}

#[test]
fn reading_policy() {
    let bad: Result<Routed<u32>, DecodeError> = Err(DecodeError::Malformed);
    assert!(!keep_reading(Policy::Strict, &bad));
    assert!(keep_reading(Policy::Relaxed, &bad));
    let unmatched: Result<Routed<u32>, DecodeError> = Ok(Routed::Unmatched { id: 4, result: Value::Null });
    assert!(!keep_reading(Policy::Strict, &unmatched));
    assert!(keep_reading(Policy::Relaxed, &unmatched));
    let event: Result<Routed<u32>, DecodeError> = Ok(Routed::Emit { message: Value::Null });
    assert!(keep_reading(Policy::Strict, &event));
    let delivered: Result<Routed<u32>, DecodeError> = Ok(Routed::Deliver { waiter: 1, result: Value::Null });
    assert!(keep_reading(Policy::Strict, &delivered));
}

#[test]
fn encoded_lines_hold_no_line_break() {
    let line = commands::insert("a\nb", "\r\n\n");
    assert!(!line.contains('\n'));
    assert_eq!(
        line,
        r#"{"method":"edit","params":{"method":"insert","params":{"chars":"\r\n\n"},"view_id":"a\nb"}}"#
    );
}
