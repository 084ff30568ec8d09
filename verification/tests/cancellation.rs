use mcp_sdk::error::MCPError;
use mcp_sdk::registry::{CancellationRegistry, SubscriptionSet};
use mcp_sdk::request::MCPRequest;
use mcp_sdk::routing::CapabilityCall;
use mcp_sdk::server::{
    settle, CallEvent, CallHandles, Dispatch, PendingCall, ServerBuilder, SystemMCPServer,
};
use serde_json::Value;
use tokio::sync::oneshot;
use tokio::sync::oneshot::error::TryRecvError;

fn json(text: &str) -> Value {
    serde_json::from_str(text).unwrap()
}

fn request(id: Option<&str>, method: &str, params: Option<&str>) -> MCPRequest {
    MCPRequest {
        jsonrpc: Some("2.0".into()),
        id: id.map(json),
        method: method.into(),
        params: params.map(json),
        meta: None,
    }
}

fn server() -> SystemMCPServer {
    ServerBuilder::new().build()
}

fn tool_call(server: &mut SystemMCPServer, id: &str) -> (PendingCall, CallHandles) {
    match server.handle(request(Some(id), "tools/call", Some(r#"{"name":"bash"}"#))) {
        Dispatch::Invoke { pending, handles: Some(handles) } => (pending, handles),
        other => panic!("{:?}", other),
    }
}

fn cancel(server: &mut SystemMCPServer, params: &str) -> Option<(String, Option<String>)> {
    match server.handle(request(None, "notifications/cancelled", Some(params))) {
        Dispatch::Silent { cancelled } => cancelled.map(|n| (n.request_id, n.reason)),
        other => panic!("{:?}", other),
    }
}

#[test]
fn a_call_in_flight_is_cancelled_by_its_notification() {
    let mut s = server();
    let (pending, mut handles) = tool_call(&mut s, "2");
    assert!(s.is_in_flight("2"));
    assert!(matches!(handles.cancel.try_recv(), Err(TryRecvError::Empty)));

    let cancelled = cancel(&mut s, r#"{"requestId":"2"}"#);
    assert_eq!(cancelled, Some(("2".to_string(), None)));
    assert!(!s.is_in_flight("2"));
    assert_eq!(handles.cancel.try_recv(), Ok(()));

    let response = s.complete(pending, CallEvent::Cancelled);
    assert_eq!(response.id, Some(Value::from(2)));
    assert!(response.result.is_none());
    let error = response.error.unwrap();
    assert_eq!(error.code, -32800);
    assert_eq!(error.message, "Request was cancelled: 2");
}

#[test]
fn the_reason_of_a_cancellation_goes_to_the_hook() {
    let mut s = server();
    let _call = tool_call(&mut s, "7");
    let cancelled = cancel(&mut s, r#"{"requestId":"7","reason":"user abort"}"#);
    assert_eq!(cancelled, Some(("7".to_string(), Some("user abort".to_string()))));
}

#[test]
fn a_second_cancellation_does_nothing() {
    let mut s = server();
    let (_pending, mut handles) = tool_call(&mut s, "2");
    assert!(cancel(&mut s, r#"{"requestId":"2"}"#).is_some());
    assert_eq!(handles.cancel.try_recv(), Ok(()));
    assert!(cancel(&mut s, r#"{"requestId":"2"}"#).is_none());
    assert!(!s.is_in_flight("2"));
}

#[test]
fn ending_a_cancelled_call_does_nothing() {
    let mut s = server();
    let (pending, _handles) = tool_call(&mut s, "2");
    let (_other, _other_handles) = tool_call(&mut s, "3");
    assert!(cancel(&mut s, r#"{"requestId":"2"}"#).is_some());
    s.complete(pending, CallEvent::Cancelled);
    assert!(!s.is_in_flight("2"));
    assert!(s.is_in_flight("3"));
}

#[test]
fn a_cancellation_for_no_call_in_flight_does_nothing() {
    let mut s = server();
    let (_pending, mut handles) = tool_call(&mut s, "2");
    for params in [
        r#"{"requestId":"3"}"#,
        r#"{"requestId":2}"#,
        r#"{"requestId":"\"2\""}"#,
        r#"{"reason":"x"}"#,
        "{}",
        "[]",
    ] {
        assert!(cancel(&mut s, params).is_none());
    }
    match s.handle(request(None, "notifications/cancelled", None)) {
        Dispatch::Silent { cancelled } => assert!(cancelled.is_none()),
        other => panic!("{:?}", other),
    }
    assert!(s.is_in_flight("2"));
    assert!(matches!(handles.cancel.try_recv(), Err(TryRecvError::Empty)));
}

#[test]
fn a_cancellation_after_the_call_has_ended_does_nothing() {
    let mut s = server();
    let (pending, _handles) = tool_call(&mut s, "2");
    let response = s.complete(pending, CallEvent::Finished(Ok(json(r#"{"content":[]}"#))));
    assert!(response.is_success());
    assert_eq!(response.result, Some(json(r#"{"content":[]}"#)));
    assert!(!s.is_in_flight("2"));
    assert!(cancel(&mut s, r#"{"requestId":"2"}"#).is_none());
}

#[test]
fn a_string_id_is_registered_under_its_json_text() {
    let mut s = server();
    let (_pending, _handles) = tool_call(&mut s, "\"abc\"");
    assert!(s.is_in_flight("\"abc\""));
    assert!(!s.is_in_flight("abc"));
    assert!(cancel(&mut s, r#"{"requestId":"abc"}"#).is_none());
    assert_eq!(
        cancel(&mut s, r#"{"requestId":"\"abc\""}"#),
        Some(("\"abc\"".to_string(), None))
    );
}

#[test]
fn a_finished_call_wins_the_race() {
    let outcome = settle(CallEvent::Both(Ok(json("[1]"))), "2");
    assert_eq!(outcome.unwrap(), json("[1]"));
    match settle(CallEvent::Both(Err(MCPError::UnknownTool("t".into()))), "2") {
        Err(MCPError::UnknownTool(name)) => assert_eq!(name, "t"),
        other => panic!("{:?}", other),
    }
    let outcome = settle(CallEvent::Finished(Ok(json("[1]"))), "2");
    assert_eq!(outcome.unwrap(), json("[1]"));
    match settle(CallEvent::Cancelled, "2") {
        Err(MCPError::RequestCancelled(key)) => assert_eq!(key, "2"),
        other => panic!("{:?}", other),
    }
}

#[test]
fn what_the_runtime_saw_decides_the_event() {
    assert!(CallEvent::observed(None, false).is_none());
    assert!(matches!(CallEvent::observed(None, true), Some(CallEvent::Cancelled)));
    match CallEvent::observed(Some(Ok(json("1"))), false) {
        Some(CallEvent::Finished(Ok(result))) => assert_eq!(result, json("1")),
        other => panic!("{:?}", other),
    }
    match CallEvent::observed(Some(Ok(json("1"))), true) {
        Some(CallEvent::Both(Ok(result))) => assert_eq!(result, json("1")),
        other => panic!("{:?}", other),
    }
    match CallEvent::observed(Some(Err(MCPError::CommandTimeout)), true) {
        Some(CallEvent::Both(Err(MCPError::CommandTimeout))) => {}
        other => panic!("{:?}", other),
    }
    for fired in [false, true] {
        let event = CallEvent::observed(Some(Ok(json("[2]"))), fired).unwrap();
        assert_eq!(settle(event, "9").unwrap(), json("[2]"));
    }
}

#[test]
fn a_call_that_finished_while_it_was_cancelled_keeps_its_result() {
    let mut s = server();
    let (pending, mut handles) = tool_call(&mut s, "2");
    assert!(cancel(&mut s, r#"{"requestId":"2"}"#).is_some());
    assert_eq!(handles.cancel.try_recv(), Ok(()));
    let response = s.complete(pending, CallEvent::Both(Ok(json(r#"{"content":[]}"#))));
    assert!(response.is_success());
    assert_eq!(response.result, Some(json(r#"{"content":[]}"#)));
    assert!(!s.is_in_flight("2"));
}

#[test]
fn a_tool_call_that_cannot_be_planned_is_not_left_in_flight() {
    let mut s = server();
    match s.handle(request(Some("2"), "tools/call", None)) {
        Dispatch::Reply(response) => {
            let error = response.error.unwrap();
            assert_eq!(error.code, -32602);
            assert_eq!(error.message, "Missing parameters: Missing 'params' for tools/call");
        }
        other => panic!("{:?}", other),
    }
    assert!(!s.is_in_flight("2"));
    match s.handle(request(Some("2"), "tools/call", Some("{}"))) {
        Dispatch::Reply(response) => {
            let error = response.error.unwrap();
            assert_eq!(error.code, -32602);
            assert_eq!(error.message, "Missing tool name");
        }
        other => panic!("{:?}", other),
    }
    assert!(!s.is_in_flight("2"));
}

#[test]
fn a_second_call_under_the_same_id_replaces_the_first() {
    let mut s = server();
    let (first, mut first_handles) = tool_call(&mut s, "2");
    let (_second, mut second_handles) = tool_call(&mut s, "2");
    assert!(s.is_in_flight("2"));
    assert!(matches!(first_handles.cancel.try_recv(), Err(TryRecvError::Closed)));
    assert!(matches!(second_handles.cancel.try_recv(), Err(TryRecvError::Empty)));
    s.complete(first, CallEvent::Cancelled);
    assert!(!s.is_in_flight("2"));
    assert!(matches!(second_handles.cancel.try_recv(), Err(TryRecvError::Closed)));
}

#[test]
fn the_tool_call_is_handed_out_with_its_name_and_arguments() {
    let mut s = server();
    let params = r#"{"name":"bash","arguments":{"command":"ls","timeout":5}}"#;
    match s.handle(request(Some("11"), "tools/call", Some(params))) {
        Dispatch::Invoke { pending, handles } => {
            assert!(handles.is_some());
            assert_eq!(pending.key.as_deref(), Some("11"));
            assert_eq!(pending.id, Some(Value::from(11)));
            match pending.call {
                CapabilityCall::CallTool { name, arguments } => {
                    assert_eq!(name, "bash");
                    assert_eq!(arguments, json(r#"{"command":"ls","timeout":5}"#));
                }
                other => panic!("{:?}", other),
            }
        }
        other => panic!("{:?}", other),
    }
}

#[test]
fn the_registry_holds_one_entry_for_an_id() {
    let mut registry = CancellationRegistry::new();
    assert!(!registry.is_active("a"));
    let (tx_a, mut rx_a) = oneshot::channel();
    let (tx_b, mut rx_b) = oneshot::channel();
    let (tx_a2, mut rx_a2) = oneshot::channel();
    registry.begin("a".into(), tx_a);
    registry.begin("b".into(), tx_b);
    assert!(registry.is_active("a") && registry.is_active("b"));
    registry.begin("a".into(), tx_a2);
    assert!(matches!(rx_a.try_recv(), Err(TryRecvError::Closed)));

    assert!(registry.cancel("a"));
    assert_eq!(rx_a2.try_recv(), Ok(()));
    assert!(!registry.is_active("a"));
    assert!(registry.is_active("b"));
    assert!(!registry.cancel("a"));
    registry.end("a");
    assert!(registry.is_active("b"));

    registry.end("b");
    assert!(!registry.is_active("b"));
    assert!(matches!(rx_b.try_recv(), Err(TryRecvError::Closed)));
    registry.end("b");
    assert!(!registry.cancel("b"));
}

#[test]
fn the_subscription_set_holds_a_uri_once() {
    let mut set = SubscriptionSet::new();
    assert!(!set.contains("a"));
    set.insert("a".into());
    set.insert("b".into());
    set.insert("a".into());
    assert!(set.contains("a") && set.contains("b"));
    set.remove("a");
    assert!(!set.contains("a"));
    assert!(set.contains("b"));
    set.remove("a");
    set.remove("c");
    assert!(set.contains("b"));
    set.insert("".into());
    assert!(set.contains(""));
}
