//! The error taxonomy and its mapping to JSON-RPC error objects.
//!
//! | failure | code |
//! |---|---|
//! | a version tag that is not understood | -32600 |
//! | a method that is not in the routing table | -32601 |
//! | missing `params`, a missing member, a missing tool name | -32602 |
//! | an unknown prompt, an unknown or missing resource | -32602 |
//! | a cancelled request | -32800 |
//! | anything else, an unknown tool among it | -32603 |
//!
//! Input that cannot be read as a request at all is answered with -32700.

use serde_json::Value;
use vstd::prelude::*;
use vstd::string::StringExecFns;

verus! {

/// What can go wrong while a request is handled.
#[derive(Debug)]
pub enum MCPError {
    /// The request names a JSON-RPC version other than "1.0" and "2.0".
    InvalidJsonRpcVersion(String),
    /// The method is not in the routing table.
    MethodNotFound(String),
    /// The `params` object, or a required member of it, is missing.
    MissingParameters(String),
    /// `tools/call` without a tool name.
    MissingToolName,
    UnknownTool(String),
    UnknownPrompt(String),
    UnknownResource(String),
    ResourceNotFound(String),
    CommandTimeout,
    OutputTooLarge,
    StreamError(String),
    /// The call lost the race against its cancellation; holds the registry key.
    RequestCancelled(String),
    /// An I/O failure, by its description.
    IoError(String),
    /// A serialization failure, by its description.
    JsonError(String),
}

/// An [`MCPError`] with its strings as sequences of characters.
pub enum MCPErrorView {
    InvalidJsonRpcVersion(Seq<char>),
    MethodNotFound(Seq<char>),
    MissingParameters(Seq<char>),
    MissingToolName,
    UnknownTool(Seq<char>),
    UnknownPrompt(Seq<char>),
    UnknownResource(Seq<char>),
    ResourceNotFound(Seq<char>),
    CommandTimeout,
    OutputTooLarge,
    StreamError(Seq<char>),
    RequestCancelled(Seq<char>),
    IoError(Seq<char>),
    JsonError(Seq<char>),
}

impl View for MCPError {
    type V = MCPErrorView;

    open spec fn view(&self) -> MCPErrorView {
        match self {
            MCPError::InvalidJsonRpcVersion(s) => MCPErrorView::InvalidJsonRpcVersion(s@),
            MCPError::MethodNotFound(s) => MCPErrorView::MethodNotFound(s@),
            MCPError::MissingParameters(s) => MCPErrorView::MissingParameters(s@),
            MCPError::MissingToolName => MCPErrorView::MissingToolName,
            MCPError::UnknownTool(s) => MCPErrorView::UnknownTool(s@),
            MCPError::UnknownPrompt(s) => MCPErrorView::UnknownPrompt(s@),
            MCPError::UnknownResource(s) => MCPErrorView::UnknownResource(s@),
            MCPError::ResourceNotFound(s) => MCPErrorView::ResourceNotFound(s@),
            MCPError::CommandTimeout => MCPErrorView::CommandTimeout,
            MCPError::OutputTooLarge => MCPErrorView::OutputTooLarge,
            MCPError::StreamError(s) => MCPErrorView::StreamError(s@),
            MCPError::RequestCancelled(s) => MCPErrorView::RequestCancelled(s@),
            MCPError::IoError(s) => MCPErrorView::IoError(s@),
            MCPError::JsonError(s) => MCPErrorView::JsonError(s@),
        }
    }
}

/// Invalid request: the version tag is not understood.
pub const INVALID_REQUEST: i32 = -32600;

/// The method does not exist.
pub const METHOD_NOT_FOUND: i32 = -32601;

/// Invalid method parameters.
pub const INVALID_PARAMS: i32 = -32602;

/// Internal error: every failure without a code of its own.
pub const INTERNAL_ERROR: i32 = -32603;

/// Malformed or oversized input.
pub const PARSE_ERROR: i32 = -32700;

/// The request was cancelled. The code lies outside the reserved range.
pub const REQUEST_CANCELLED: i32 = -32800;

/// The JSON-RPC code of an error.
pub open spec fn error_code(e: MCPErrorView) -> i32 {
    match e {
        MCPErrorView::InvalidJsonRpcVersion(_) => INVALID_REQUEST,
        MCPErrorView::MethodNotFound(_) => METHOD_NOT_FOUND,
        MCPErrorView::MissingParameters(_) | MCPErrorView::MissingToolName => INVALID_PARAMS,
        MCPErrorView::UnknownPrompt(_)
        | MCPErrorView::UnknownResource(_)
        | MCPErrorView::ResourceNotFound(_) => INVALID_PARAMS,
        MCPErrorView::RequestCancelled(_) => REQUEST_CANCELLED,
        _ => INTERNAL_ERROR,
    }
}

/// The human-readable message of an error.
pub open spec fn error_message(e: MCPErrorView) -> Seq<char> {
    match e {
        MCPErrorView::InvalidJsonRpcVersion(s) => "Invalid JSON-RPC version: "@ + s,
        MCPErrorView::MethodNotFound(s) => "Method not found: "@ + s,
        MCPErrorView::MissingParameters(s) => "Missing parameters: "@ + s,
        MCPErrorView::MissingToolName => "Missing tool name"@,
        MCPErrorView::UnknownTool(s) => "Unknown tool: "@ + s,
        MCPErrorView::UnknownPrompt(s) => "Unknown prompt: "@ + s,
        MCPErrorView::UnknownResource(s) => "Unknown resource: "@ + s,
        MCPErrorView::ResourceNotFound(s) => "Resource not found: "@ + s,
        MCPErrorView::CommandTimeout => "Command timeout"@,
        MCPErrorView::OutputTooLarge => "Output too large"@,
        MCPErrorView::StreamError(s) => "Stream error: "@ + s,
        MCPErrorView::RequestCancelled(s) => "Request was cancelled: "@ + s,
        MCPErrorView::IoError(s) => "IO error: "@ + s,
        MCPErrorView::JsonError(s) => "JSON error: "@ + s,
    }
}

/// A JSON-RPC error object.
#[derive(Debug)]
pub struct JsonRpcError {
    pub code: i32,
    pub message: String,
    pub data: Option<Value>,
}

/// A [`JsonRpcError`] with its message as characters and its data as text.
pub struct JsonRpcErrorView {
    pub code: i32,
    pub message: Seq<char>,
    pub data: Option<Seq<char>>,
}

impl View for JsonRpcError {
    type V = JsonRpcErrorView;

    open spec fn view(&self) -> JsonRpcErrorView {
        JsonRpcErrorView {
            code: self.code,
            message: self.message@,
            data: match self.data {
                Some(d) => Some(crate::json::json_text(d)),
                None => None,
            },
        }
    }
}

/// The error object that reports `e`: its code and message, and no data.
pub open spec fn json_rpc_error_of(e: MCPErrorView) -> JsonRpcErrorView {
    JsonRpcErrorView { code: error_code(e), message: error_message(e), data: None }
}

/// `prefix` followed by `detail`.
fn prefixed(prefix: &str, detail: &str) -> (text: String)
    ensures
        text@ == prefix@ + detail@,
{
    let mut text = prefix.to_owned();
    text.append(detail);
    text
}

impl MCPError {
    /// The JSON-RPC code under which the error is reported.
    pub fn code(&self) -> (code: i32)
        ensures
            code == error_code(self@),
    {
        match self {
            MCPError::InvalidJsonRpcVersion(_) => INVALID_REQUEST,
            MCPError::MethodNotFound(_) => METHOD_NOT_FOUND,
            MCPError::MissingParameters(_) | MCPError::MissingToolName => INVALID_PARAMS,
            MCPError::UnknownPrompt(_)
            | MCPError::UnknownResource(_)
            | MCPError::ResourceNotFound(_) => INVALID_PARAMS,
            MCPError::RequestCancelled(_) => REQUEST_CANCELLED,
            _ => INTERNAL_ERROR,
        }
    }

    /// The message of the error, as it is shown to the peer.
    pub fn message(&self) -> (text: String)
        ensures
            text@ == error_message(self@),
    {
        match self {
            MCPError::InvalidJsonRpcVersion(s) => prefixed("Invalid JSON-RPC version: ", s.as_str()),
            MCPError::MethodNotFound(s) => prefixed("Method not found: ", s.as_str()),
            MCPError::MissingParameters(s) => prefixed("Missing parameters: ", s.as_str()),
            MCPError::MissingToolName => "Missing tool name".to_owned(),
            MCPError::UnknownTool(s) => prefixed("Unknown tool: ", s.as_str()),
            MCPError::UnknownPrompt(s) => prefixed("Unknown prompt: ", s.as_str()),
            MCPError::UnknownResource(s) => prefixed("Unknown resource: ", s.as_str()),
            MCPError::ResourceNotFound(s) => prefixed("Resource not found: ", s.as_str()),
            MCPError::CommandTimeout => "Command timeout".to_owned(),
            MCPError::OutputTooLarge => "Output too large".to_owned(),
            MCPError::StreamError(s) => prefixed("Stream error: ", s.as_str()),
            MCPError::RequestCancelled(s) => prefixed("Request was cancelled: ", s.as_str()),
            MCPError::IoError(s) => prefixed("IO error: ", s.as_str()),
            MCPError::JsonError(s) => prefixed("JSON error: ", s.as_str()),
        }
    }

    /// The error object that reports this error to the peer.
    pub fn to_json_rpc_error(&self) -> (error: JsonRpcError)
        ensures
            error@ == json_rpc_error_of(self@),
    {
        JsonRpcError { code: self.code(), message: self.message(), data: None }
    }
}

} // verus!
