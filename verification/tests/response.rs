use mcp_sdk::error::JsonRpcError;
use mcp_sdk::response::MCPResponse;
use serde_json::Value;

#[test]
fn test_success_response() {
    let resp = MCPResponse::success(Some(Value::from(1)), Value::from("test"));
    assert!(resp.is_success());
    assert_eq!(resp.result, Some(Value::from("test")));
    assert!(resp.error.is_none());
}

#[test]
fn test_error_response() {
    let error = JsonRpcError { code: -32601, message: "Method not found".into(), data: None };
    let resp = MCPResponse::error(Some(Value::from(1)), error);
    assert!(resp.is_error());
    assert!(resp.error.is_some());
}

#[test]
fn test_v2_success_response() {
    let resp = MCPResponse::v2_success(Some(Value::from(1)), Value::from("test"));
    assert!(resp.is_v2());
    assert!(resp.is_success());
    assert_eq!(resp.result, Some(Value::from("test")));
    assert!(resp.error.is_none());
}

#[test]
fn test_v2_error_response() {
    let error = JsonRpcError { code: -32601, message: "Method not found".into(), data: None };
    let resp = MCPResponse::v2_error(Some(Value::from(1)), error);
    assert!(resp.is_v2());
    assert!(resp.is_error());
    assert!(resp.error.is_some());
}

#[test]
fn test_v1_success_response() {
    let resp = MCPResponse::v1_success(Some(Value::from(1)), Value::from("test"));
    assert!(resp.is_v1());
    assert!(resp.is_success());
    assert_eq!(resp.result, Some(Value::from("test")));
    assert!(resp.error.is_none());
}

#[test]
fn test_v1_error_response() {
    let error = JsonRpcError { code: -32601, message: "Method not found".into(), data: None };
    let resp = MCPResponse::v1_error(Some(Value::from(1)), error);
    assert!(resp.is_v1());
    assert!(resp.is_error());
    assert_eq!(resp.result, Some(Value::Null)); // 1.0 style: null result on error
    assert!(resp.error.is_some());
}

#[test]
fn test_parse_error_helper() {
    let resp = MCPResponse::parse_error();
    assert!(resp.is_error());
    assert!(resp.error.is_some());
    if let Some(error) = &resp.error {
        assert_eq!(error.code, -32700);
    }
}

#[test]
fn test_too_large_helper() {
    let resp = MCPResponse::too_large();
    assert!(resp.is_error());
    assert!(resp.error.is_some());
    if let Some(error) = &resp.error {
        assert_eq!(error.code, -32700);
    }
}

#[test]
fn the_ready_made_responses_are_in_the_shape_of_version_one() {
    for resp in [MCPResponse::parse_error(), MCPResponse::too_large()] {
        assert!(resp.is_v1());
        assert!(!resp.is_v2());
        assert!(resp.jsonrpc.is_none());
        assert!(resp.id.is_none());
        assert_eq!(resp.result, Some(Value::Null));
        assert!(resp.error.as_ref().unwrap().data.is_none());
    }
    assert_eq!(MCPResponse::parse_error().error.unwrap().message, "Parse error");
    assert_eq!(MCPResponse::too_large().error.unwrap().message, "Request too large");
}

#[test]
fn a_version_two_response_has_the_tag_and_one_of_result_and_error() {
    let ok = MCPResponse::v2_success(Some(Value::from(7)), Value::from(true));
    assert_eq!(ok.jsonrpc.as_deref(), Some("2.0"));
    assert_eq!(ok.id, Some(Value::from(7)));
    assert!(ok.result.is_some() && ok.error.is_none());
    assert!(!ok.is_v1());

    let error = JsonRpcError { code: -32602, message: "Missing tool name".into(), data: None };
    let failed = MCPResponse::v2_error(Some(Value::from("a")), error);
    assert_eq!(failed.jsonrpc.as_deref(), Some("2.0"));
    assert_eq!(failed.id, Some(Value::from("a")));
    assert!(failed.result.is_none() && failed.error.is_some());
    assert_eq!(failed.error.unwrap().code, -32602);
}

#[test]
fn a_version_one_response_has_no_tag() {
    let ok = MCPResponse::v1_success(None, Value::from(1));
    assert!(ok.jsonrpc.is_none());
    assert!(ok.id.is_none());
    assert!(!ok.is_v2());
    let error = JsonRpcError { code: -32603, message: "IO error: x".into(), data: None };
    let failed = MCPResponse::error(Some(Value::from(3)), error);
    assert!(failed.jsonrpc.is_none());
    assert_eq!(failed.id, Some(Value::from(3)));
    assert_eq!(failed.error.as_ref().unwrap().message, "IO error: x");
}

#[test]
fn a_tag_of_version_one_counts_as_version_one() {
    let tagged = MCPResponse {
        jsonrpc: Some("1.0".into()),
        id: None,
        result: Some(Value::from(1)),
        error: None,
    };
    assert!(tagged.is_v1());
    assert!(!tagged.is_v2());
    let other = MCPResponse { jsonrpc: Some("3.0".into()), id: None, result: None, error: None };
    assert!(!other.is_v1());
    assert!(!other.is_v2());
}

#[test]
fn the_wire_shape_follows_the_version() {
    let error = || JsonRpcError { code: -32601, message: "Method not found: x".into(), data: None };

    let shape = MCPResponse::v1_success(Some(Value::from(1)), Value::from("test")).wire_shape();
    assert_eq!((shape.jsonrpc, shape.result, shape.error), (false, true, true));
    let shape = MCPResponse::v1_error(Some(Value::from(1)), error()).wire_shape();
    assert_eq!((shape.jsonrpc, shape.result, shape.error), (false, true, true));

    let shape = MCPResponse::v2_success(Some(Value::from(1)), Value::from("test")).wire_shape();
    assert_eq!((shape.jsonrpc, shape.result, shape.error), (true, true, false));
    let shape = MCPResponse::v2_error(Some(Value::from(1)), error()).wire_shape();
    assert_eq!((shape.jsonrpc, shape.result, shape.error), (true, false, true));
}

#[test]
fn a_notification_has_no_response() {
    assert!(MCPResponse::notification().is_none());
}
