use mcp_sdk::notifications::{ProgressSender, ServerNotification};
use mcp_sdk::request::{MCPRequest, ProgressToken, RequestMeta};
use mcp_sdk::server::{Dispatch, ServerBuilder};
use serde_json::Value;
use tokio::sync::mpsc;
use tokio::sync::mpsc::error::TryRecvError;

fn half() -> u64 {
    0.5f64.to_bits()
}

#[test]
fn a_report_without_a_token_is_dropped() {
    let (tx, mut rx) = mpsc::unbounded_channel();
    let sender = ProgressSender::new(None, tx);
    for i in 0..100u32 {
        let progress = (f64::from(i) / 100.0).to_bits();
        assert!(sender.notification(progress, Some("step".into())).is_none());
        assert!(!sender.send(progress, Some("step".into())));
        assert!(!sender.send(progress, None));
    }
    assert!(matches!(rx.try_recv(), Err(TryRecvError::Empty)));
}

#[test]
fn a_report_with_a_token_becomes_a_notification() {
    let (tx, mut rx) = mpsc::unbounded_channel();
    let sender = ProgressSender::new(Some(ProgressToken::Text("tok".into())), tx);
    assert!(sender.send(half(), Some("Command spawned".into())));
    match rx.try_recv().unwrap() {
        ServerNotification::Progress { progress_token, progress, message, total } => {
            assert!(matches!(progress_token, ProgressToken::Text(t) if t == "tok"));
            assert_eq!(f64::from_bits(progress), 0.5);
            assert_eq!(message.as_deref(), Some("Command spawned"));
            assert_eq!(total, None);
        }
        other => panic!("{:?}", other),
    }
    assert!(matches!(rx.try_recv(), Err(TryRecvError::Empty)));
}

#[test]
fn the_notification_of_a_report_carries_what_was_reported() {
    let (tx, _rx) = mpsc::unbounded_channel();
    let sender = ProgressSender::new(Some(ProgressToken::Integer(-3)), tx);
    match sender.notification(1.0f64.to_bits(), None) {
        Some(ServerNotification::Progress { progress_token, progress, message, total }) => {
            assert!(matches!(progress_token, ProgressToken::Integer(-3)));
            assert_eq!(progress, 0x3FF0_0000_0000_0000);
            assert!(message.is_none());
            assert!(total.is_none());
        }
        other => panic!("{:?}", other),
    }
}

#[test]
fn reports_arrive_in_the_order_in_which_they_were_made() {
    let (tx, mut rx) = mpsc::unbounded_channel();
    let first = ProgressSender::new(Some(ProgressToken::Integer(1)), tx);
    let second = first.clone();
    for i in 0..10u32 {
        let sender = if i % 2 == 0 { &first } else { &second };
        assert!(sender.send(u64::from(i), Some(format!("{}", i))));
    }
    for i in 0..10u32 {
        match rx.try_recv().unwrap() {
            ServerNotification::Progress { progress, message, .. } => {
                assert_eq!(progress, u64::from(i));
                assert_eq!(message, Some(format!("{}", i)));
            }
            other => panic!("{:?}", other),
        }
    }
    assert!(matches!(rx.try_recv(), Err(TryRecvError::Empty)));
}

#[test]
fn a_report_into_a_closed_queue_is_not_taken() {
    let (tx, rx) = mpsc::unbounded_channel();
    let sender = ProgressSender::new(Some(ProgressToken::Integer(1)), tx);
    drop(rx);
    assert!(!sender.send(half(), None));
}

#[test]
fn the_kinds_of_notification_are_told_apart() {
    let progress = ServerNotification::Progress {
        progress_token: ProgressToken::Integer(1),
        progress: half(),
        message: None,
        total: Some(4),
    };
    let updated = ServerNotification::ResourceUpdated { uri: "file:///a".into() };
    assert!(progress.is_progress() && !progress.is_resource_update());
    assert!(updated.is_resource_update() && !updated.is_progress());
}

#[test]
fn the_stream_is_given_out_once() {
    let mut server = ServerBuilder::new().build();
    assert!(server.take_notification_stream().is_some());
    assert!(server.take_notification_stream().is_none());
    assert!(server.take_notification_stream().is_none());
}

#[test]
fn a_tool_call_reports_into_the_queue_of_its_server() {
    let mut server = ServerBuilder::new().build();
    let mut stream = server.take_notification_stream().unwrap().into_inner();
    let call = |id: i64, token: Option<ProgressToken>| MCPRequest {
        jsonrpc: Some("2.0".into()),
        id: Some(Value::from(id)),
        method: "tools/call".into(),
        params: Some(serde_json::from_str(r#"{"name":"bash"}"#).unwrap()),
        meta: Some(RequestMeta { progress_token: token }),
    };

    let with_token = match server.handle(call(1, Some(ProgressToken::Text("p1".into())))) {
        Dispatch::Invoke { handles: Some(handles), .. } => handles.progress,
        other => panic!("{:?}", other),
    };
    let without_token = match server.handle(call(2, None)) {
        Dispatch::Invoke { handles: Some(handles), .. } => handles.progress,
        other => panic!("{:?}", other),
    };
    assert!(!without_token.send(half(), Some("ignored".into())));
    assert!(with_token.send(half(), Some("half way".into())));
    assert!(!without_token.send(1.0f64.to_bits(), None));
    assert!(server.progress_sender(Some(ProgressToken::Integer(9))).send(0, None));

    match stream.try_recv().unwrap() {
        ServerNotification::Progress { progress_token, message, .. } => {
            assert!(matches!(progress_token, ProgressToken::Text(t) if t == "p1"));
            assert_eq!(message.as_deref(), Some("half way"));
        }
        other => panic!("{:?}", other),
    }
    match stream.try_recv().unwrap() {
        ServerNotification::Progress { progress_token, .. } => {
            assert!(matches!(progress_token, ProgressToken::Integer(9)));
        }
        other => panic!("{:?}", other),
    }
    assert!(matches!(stream.try_recv(), Err(TryRecvError::Empty)));
}

#[test]
fn a_request_without_meta_has_no_token() {
    let mut server = ServerBuilder::new().build();
    let mut stream = server.take_notification_stream().unwrap().into_inner();
    let request = MCPRequest {
        jsonrpc: None,
        id: Some(Value::from(1)),
        method: "tools/call".into(),
        params: Some(serde_json::from_str(r#"{"name":"bash"}"#).unwrap()),
        meta: None,
    };
    match server.handle(request) {
        Dispatch::Invoke { handles: Some(handles), .. } => {
            assert!(!handles.progress.send(half(), None));
        }
        other => panic!("{:?}", other),
    }
    assert!(matches!(stream.try_recv(), Err(TryRecvError::Empty)));
}
