//! The request envelope.

use crate::json::{
    json_member_text, json_string_member, json_text, member, null_value, string_member,
};
use serde_json::Value;
use vstd::prelude::*;

verus! {

/// The value by which a caller correlates progress notifications with the
/// call that raised them.
#[derive(Debug)]
pub enum ProgressToken {
    Integer(i64),
    Text(String),
}

/// A [`ProgressToken`] with its text as characters.
pub enum ProgressTokenView {
    Integer(i64),
    Text(Seq<char>),
}

impl View for ProgressToken {
    type V = ProgressTokenView;

    open spec fn view(&self) -> ProgressTokenView {
        match self {
            ProgressToken::Integer(n) => ProgressTokenView::Integer(*n),
            ProgressToken::Text(s) => ProgressTokenView::Text(s@),
        }
    }
}

impl Clone for ProgressToken {
    fn clone(&self) -> (copy: ProgressToken)
        ensures
            copy@ == self@,
    {
        match self {
            ProgressToken::Integer(n) => ProgressToken::Integer(*n),
            ProgressToken::Text(s) => ProgressToken::Text(s.clone()),
        }
    }
}

/// The `_meta` extension of a request.
#[derive(Debug)]
pub struct RequestMeta {
    /// Present where the caller asks for progress notifications.
    pub progress_token: Option<ProgressToken>,
}

/// A request or, where `id` is absent, a notification.
#[derive(Debug)]
pub struct MCPRequest {
    /// The JSON-RPC version tag, if the message carries one.
    pub jsonrpc: Option<String>,
    /// The correlation value, echoed in the response. A message without one
    /// is a notification and is never answered.
    pub id: Option<Value>,
    pub method: String,
    pub params: Option<Value>,
    pub meta: Option<RequestMeta>,
}

/// What the dispatcher reads in the `params` of a request: the string members
/// that methods ask for, the `arguments` of a call, and the document itself.
#[derive(Debug)]
pub struct RequestParams {
    pub cursor: Option<String>,
    pub uri: Option<String>,
    pub name: Option<String>,
    pub level: Option<String>,
    /// `requestId`
    pub request_id: Option<String>,
    pub reason: Option<String>,
    /// The member `arguments`, or JSON null where there is none.
    pub arguments: Value,
    /// The whole of `params`.
    pub document: Value,
}

/// [`RequestParams`] with its strings as characters and its documents as
/// their compact text.
pub struct RequestParamsView {
    pub cursor: Option<Seq<char>>,
    pub uri: Option<Seq<char>>,
    pub name: Option<Seq<char>>,
    pub level: Option<Seq<char>>,
    pub request_id: Option<Seq<char>>,
    pub reason: Option<Seq<char>>,
    pub arguments: Seq<char>,
    pub document: Seq<char>,
}

/// The characters of an optional string.
pub open spec fn chars_of(s: Option<String>) -> Option<Seq<char>> {
    match s {
        Some(s) => Some(s@),
        None => None,
    }
}

impl View for RequestParams {
    type V = RequestParamsView;

    open spec fn view(&self) -> RequestParamsView {
        RequestParamsView {
            cursor: chars_of(self.cursor),
            uri: chars_of(self.uri),
            name: chars_of(self.name),
            level: chars_of(self.level),
            request_id: chars_of(self.request_id),
            reason: chars_of(self.reason),
            arguments: json_text(self.arguments),
            document: json_text(self.document),
        }
    }
}

/// What the dispatcher reads in a `params` document.
pub open spec fn params_of(document: Value) -> RequestParamsView {
    RequestParamsView {
        cursor: json_string_member(document, "cursor"@),
        uri: json_string_member(document, "uri"@),
        name: json_string_member(document, "name"@),
        level: json_string_member(document, "level"@),
        request_id: json_string_member(document, "requestId"@),
        reason: json_string_member(document, "reason"@),
        arguments: json_member_text(document, "arguments"@),
        document: json_text(document),
    }
}

impl RequestParams {
    /// Reads a `params` document.
    pub fn read(document: Value) -> (params: RequestParams)
        ensures
            params@ == params_of(document),
    {
        RequestParams {
            cursor: string_member(&document, "cursor"),
            uri: string_member(&document, "uri"),
            name: string_member(&document, "name"),
            level: string_member(&document, "level"),
            request_id: string_member(&document, "requestId"),
            reason: string_member(&document, "reason"),
            arguments: match member(&document, "arguments") {
                Some(found) => found,
                None => null_value(),
            },
            document,
        }
    }
}

impl MCPRequest {
    /// The version tag as characters.
    pub open spec fn version_tag(&self) -> Option<Seq<char>> {
        match self.jsonrpc {
            Some(tag) => Some(tag@),
            None => None,
        }
    }

    /// The compact text of the id.
    pub open spec fn id_text(&self) -> Option<Seq<char>> {
        match self.id {
            Some(id) => Some(json_text(id)),
            None => None,
        }
    }

    /// What the dispatcher reads in the `params`, where the request has any.
    pub open spec fn params_view(&self) -> Option<RequestParamsView> {
        match self.params {
            Some(document) => Some(params_of(document)),
            None => None,
        }
    }

    /// The progress token that the request carries.
    pub open spec fn progress_token(&self) -> Option<ProgressTokenView> {
        match self.meta {
            Some(meta) => match meta.progress_token {
                Some(token) => Some(token@),
                None => None,
            },
            None => None,
        }
    }

    /// The version tag, whether or not the message carries one.
    pub fn jsonrpc_version(&self) -> (tag: Option<&str>)
        ensures
            tag is Some <==> self.version_tag() is Some,
            tag matches Some(t) ==> self.version_tag() == Some(t@),
    {
        match &self.jsonrpc {
            Some(tag) => Some(tag.as_str()),
            None => None,
        }
    }

    /// Whether the message is tagged as JSON-RPC 2.0.
    pub fn is_v2(&self) -> (b: bool)
        ensures
            b == (self.version_tag() == Some("2.0"@)),
    {
        match self.jsonrpc_version() {
            Some(tag) => tag.eq("2.0"),
            None => false,
        }
    }

    /// Whether the message is JSON-RPC 1.0: tagged "1.0", or not tagged.
    pub fn is_v1(&self) -> (b: bool)
        ensures
            b == (self.version_tag() is None || self.version_tag() == Some("1.0"@)),
    {
        match self.jsonrpc_version() {
            None => true,
            Some(tag) => tag.eq("1.0"),
        }
    }

    /// Whether the message is a notification: it has no id.
    pub fn is_notification(&self) -> (b: bool)
        ensures
            b == (self.id is None),
    {
        self.id.is_none()
    }
}

} // verus!
