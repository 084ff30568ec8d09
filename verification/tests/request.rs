use mcp_sdk::request::{MCPRequest, RequestParams};
use serde_json::Value;

fn request(jsonrpc: Option<&str>, id: Option<Value>) -> MCPRequest {
    MCPRequest {
        jsonrpc: jsonrpc.map(String::from),
        id,
        method: "ping".into(),
        params: None,
        meta: None,
    }
}

fn json(text: &str) -> Value {
    serde_json::from_str(text).unwrap()
}

#[test]
fn the_version_tag_is_read_as_it_stands() {
    assert_eq!(request(None, None).jsonrpc_version(), None);
    assert_eq!(request(Some("2.0"), None).jsonrpc_version(), Some("2.0"));
    assert_eq!(request(Some("9.9"), None).jsonrpc_version(), Some("9.9"));
}

#[test]
fn version_two_needs_its_tag() {
    assert!(request(Some("2.0"), None).is_v2());
    assert!(!request(Some("1.0"), None).is_v2());
    assert!(!request(None, None).is_v2());
    assert!(!request(Some("2.00"), None).is_v2());
}

#[test]
fn version_one_is_the_tag_or_none() {
    assert!(request(Some("1.0"), None).is_v1());
    assert!(request(None, None).is_v1());
    assert!(!request(Some("2.0"), None).is_v1());
    assert!(!request(Some(""), None).is_v1());
}

#[test]
fn a_message_without_an_id_is_a_notification() {
    assert!(request(Some("2.0"), None).is_notification());
    assert!(!request(Some("2.0"), Some(Value::from(1))).is_notification());
    assert!(!request(None, Some(Value::Null)).is_notification());
}

#[test]
fn the_members_of_params_are_read_by_name() {
    let params = RequestParams::read(json(
        r#"{"cursor":"c1","uri":"file:///a","name":"bash","level":"debug",
            "requestId":"2","reason":"user","arguments":{"command":"ls"}}"#,
    ));
    assert_eq!(params.cursor.as_deref(), Some("c1"));
    assert_eq!(params.uri.as_deref(), Some("file:///a"));
    assert_eq!(params.name.as_deref(), Some("bash"));
    assert_eq!(params.level.as_deref(), Some("debug"));
    assert_eq!(params.request_id.as_deref(), Some("2"));
    assert_eq!(params.reason.as_deref(), Some("user"));
    assert_eq!(params.arguments, json(r#"{"command":"ls"}"#));
    assert_eq!(params.document.get("name"), Some(&Value::from("bash")));
}

#[test]
fn a_member_that_is_no_string_is_not_read_as_one() {
    let params = RequestParams::read(json(r#"{"uri":17,"name":null,"requestId":2,"cursor":["a"]}"#));
    assert!(params.uri.is_none());
    assert!(params.name.is_none());
    assert!(params.request_id.is_none());
    assert!(params.cursor.is_none());
    assert_eq!(params.arguments, Value::Null);
}

#[test]
fn params_that_are_no_object_have_no_members() {
    for text in ["[\"uri\"]", "\"uri\"", "3", "null", "true"] {
        let params = RequestParams::read(json(text));
        assert!(params.uri.is_none());
        assert!(params.cursor.is_none());
        assert_eq!(params.arguments, Value::Null);
        assert_eq!(params.document, json(text));
    }
}

#[test]
fn an_empty_string_is_still_a_string() {
    let params = RequestParams::read(json(r#"{"uri":""}"#));
    assert_eq!(params.uri.as_deref(), Some(""));
}
