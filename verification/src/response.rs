//! The response envelope, in the shape of either JSON-RPC version.
//!
//! A JSON-RPC 2.0 response carries the version tag and exactly one of
//! `result` and `error`. A JSON-RPC 1.0 response carries no tag and always
//! both members: on failure `result` is JSON null, on success `error` is
//! absent from the value and written as null.

use crate::error::{JsonRpcError, JsonRpcErrorView, PARSE_ERROR};
use crate::json::{json_text, null_text, null_value};
use serde_json::Value;
use vstd::prelude::*;

verus! {

/// A response to a request.
#[derive(Debug)]
pub struct MCPResponse {
    /// `Some("2.0")` in a JSON-RPC 2.0 response, `None` in a 1.0 response.
    pub jsonrpc: Option<String>,
    /// The id of the request, or `None` where none could be read.
    pub id: Option<Value>,
    pub result: Option<Value>,
    pub error: Option<JsonRpcError>,
}

/// An [`MCPResponse`] with its strings as characters and its documents as
/// their compact text.
pub struct MCPResponseView {
    pub jsonrpc: Option<Seq<char>>,
    pub id: Option<Seq<char>>,
    pub result: Option<Seq<char>>,
    pub error: Option<JsonRpcErrorView>,
}

/// The compact text of an optional document.
pub open spec fn text_of(v: Option<Value>) -> Option<Seq<char>> {
    match v {
        Some(v) => Some(json_text(v)),
        None => None,
    }
}

impl View for MCPResponse {
    type V = MCPResponseView;

    open spec fn view(&self) -> MCPResponseView {
        MCPResponseView {
            jsonrpc: match self.jsonrpc {
                Some(tag) => Some(tag@),
                None => None,
            },
            id: text_of(self.id),
            result: text_of(self.result),
            error: match self.error {
                Some(e) => Some(e@),
                None => None,
            },
        }
    }
}

/// The members besides `id` that a response has on the wire.
#[derive(Debug, Clone, Copy, PartialEq, Eq, Structural)]
pub struct WireShape {
    /// Whether the version tag is written.
    pub jsonrpc: bool,
    /// Whether `result` is written; where the response has none, as null.
    pub result: bool,
    /// Whether `error` is written; where the response has none, as null.
    pub error: bool,
}

/// The members that a response has on the wire. A JSON-RPC 1.0 response
/// always has both `result` and `error`; a 2.0 response has the tag, and
/// `result` and `error` only where they are set.
pub open spec fn wire_shape_of(response: MCPResponseView) -> WireShape {
    let v1 = response.jsonrpc is None || response.jsonrpc == Some("1.0"@);
    WireShape {
        jsonrpc: response.jsonrpc is Some,
        result: v1 || response.result is Some,
        error: v1 || response.error is Some,
    }
}

/// The JSON-RPC 1.0 response that reports success.
pub open spec fn v1_success_view(id: Option<Seq<char>>, result: Seq<char>) -> MCPResponseView {
    MCPResponseView { jsonrpc: None, id, result: Some(result), error: None }
}

/// The JSON-RPC 1.0 response that reports a failure: `result` is JSON null.
pub open spec fn v1_error_view(id: Option<Seq<char>>, error: JsonRpcErrorView) -> MCPResponseView {
    MCPResponseView { jsonrpc: None, id, result: Some(null_text()), error: Some(error) }
}

/// The JSON-RPC 2.0 response that reports success.
pub open spec fn v2_success_view(id: Option<Seq<char>>, result: Seq<char>) -> MCPResponseView {
    MCPResponseView { jsonrpc: Some("2.0"@), id, result: Some(result), error: None }
}

/// The JSON-RPC 2.0 response that reports a failure: there is no `result`.
pub open spec fn v2_error_view(id: Option<Seq<char>>, error: JsonRpcErrorView) -> MCPResponseView {
    MCPResponseView { jsonrpc: Some("2.0"@), id, result: None, error: Some(error) }
}

/// The error object of a parse failure with the given message.
pub open spec fn parse_failure(message: Seq<char>) -> JsonRpcErrorView {
    JsonRpcErrorView { code: PARSE_ERROR, message, data: None }
}

impl MCPResponse {
    /// The response to input that is too large to be read as a request.
    pub fn too_large() -> (r: MCPResponse)
        ensures
            r@ == v1_error_view(None, parse_failure("Request too large"@)),
    {
        MCPResponse {
            jsonrpc: None,
            id: None,
            result: Some(null_value()),
            error: Some(
                JsonRpcError {
                    code: PARSE_ERROR,
                    message: "Request too large".to_owned(),
                    data: None,
                },
            ),
        }
    }

    /// The response to input that is not a well-formed request.
    pub fn parse_error() -> (r: MCPResponse)
        ensures
            r@ == v1_error_view(None, parse_failure("Parse error"@)),
    {
        MCPResponse {
            jsonrpc: None,
            id: None,
            result: Some(null_value()),
            error: Some(
                JsonRpcError { code: PARSE_ERROR, message: "Parse error".to_owned(), data: None },
            ),
        }
    }

    /// A JSON-RPC 1.0 success response.
    pub fn v1_success(id: Option<Value>, result: Value) -> (r: MCPResponse)
        ensures
            r@ == v1_success_view(text_of(id), json_text(result)),
            r.id == id,
            r.result == Some(result),
    {
        MCPResponse { jsonrpc: None, id, result: Some(result), error: None }
    }

    /// A JSON-RPC 1.0 error response.
    pub fn v1_error(id: Option<Value>, error: JsonRpcError) -> (r: MCPResponse)
        ensures
            r@ == v1_error_view(text_of(id), error@),
            r.id == id,
            r.error == Some(error),
    {
        MCPResponse { jsonrpc: None, id, result: Some(null_value()), error: Some(error) }
    }

    /// A JSON-RPC 2.0 success response.
    pub fn v2_success(id: Option<Value>, result: Value) -> (r: MCPResponse)
        ensures
            r@ == v2_success_view(text_of(id), json_text(result)),
            r.id == id,
            r.result == Some(result),
    {
        MCPResponse { jsonrpc: Some("2.0".to_owned()), id, result: Some(result), error: None }
    }

    /// A JSON-RPC 2.0 error response.
    pub fn v2_error(id: Option<Value>, error: JsonRpcError) -> (r: MCPResponse)
        ensures
            r@ == v2_error_view(text_of(id), error@),
            r.id == id,
            r.error == Some(error),
    {
        MCPResponse { jsonrpc: Some("2.0".to_owned()), id, result: None, error: Some(error) }
    }

    /// A success response where no version was asked for: JSON-RPC 1.0.
    pub fn success(id: Option<Value>, result: Value) -> (r: MCPResponse)
        ensures
            r@ == v1_success_view(text_of(id), json_text(result)),
            r.id == id,
            r.result == Some(result),
    {
        MCPResponse::v1_success(id, result)
    }

    /// An error response where no version was asked for: JSON-RPC 1.0.
    pub fn error(id: Option<Value>, error: JsonRpcError) -> (r: MCPResponse)
        ensures
            r@ == v1_error_view(text_of(id), error@),
            r.id == id,
            r.error == Some(error),
    {
        MCPResponse::v1_error(id, error)
    }

    /// The response to a notification: there is none.
    pub fn notification() -> (r: Option<MCPResponse>)
        ensures
            r is None,
    {
        None
    }

    /// Whether this is a JSON-RPC 2.0 response.
    pub fn is_v2(&self) -> (b: bool)
        ensures
            b == (self@.jsonrpc == Some("2.0"@)),
    {
        match &self.jsonrpc {
            Some(tag) => tag.as_str().eq("2.0"),
            None => false,
        }
    }

    /// Whether this is a JSON-RPC 1.0 response.
    pub fn is_v1(&self) -> (b: bool)
        ensures
            b == (self@.jsonrpc is None || self@.jsonrpc == Some("1.0"@)),
    {
        match &self.jsonrpc {
            Some(tag) => tag.as_str().eq("1.0"),
            None => true,
        }
    }

    /// The members besides `id` that the response has on the wire.
    pub fn wire_shape(&self) -> (shape: WireShape)
        ensures
            shape == wire_shape_of(self@),
    {
        let v1 = self.is_v1();
        WireShape {
            jsonrpc: self.jsonrpc.is_some(),
            result: v1 || self.result.is_some(),
            error: v1 || self.error.is_some(),
        }
    }

    /// Whether the response reports success.
    pub fn is_success(&self) -> (b: bool)
        ensures
            b == (self@.error is None),
    {
        self.error.is_none()
    }

    /// Whether the response reports a failure.
    pub fn is_error(&self) -> (b: bool)
        ensures
            b == (self@.error is Some),
    {
        self.error.is_some()
    }
}

} // verus!
