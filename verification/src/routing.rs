//! The routing table: which capability operation a method asks for, and
//! what a request must hold for it.

use crate::error::{error_code, MCPError, MCPErrorView, METHOD_NOT_FOUND};
use crate::json::json_text;
use crate::request::{chars_of, RequestParams, RequestParamsView};
use crate::tools::ServerCapabilities;
use serde_json::Value;
use vstd::prelude::*;

verus! {

/// A capability operation, with what it is called on.
#[derive(Debug)]
pub enum CapabilityCall {
    Initialize { capabilities: ServerCapabilities },
    Ping,
    ListTools { cursor: Option<String> },
    CallTool { name: String, arguments: Value },
    ListResources { cursor: Option<String> },
    ReadResource { uri: String },
    ListResourceTemplates { cursor: Option<String> },
    Subscribe { uri: String },
    Unsubscribe { uri: String },
    ListPrompts { cursor: Option<String> },
    GetPrompt { name: String, arguments: Value },
    SetLogLevel { level: String },
    Complete { params: Value },
}

/// A [`CapabilityCall`] with its strings as characters and its documents as
/// their compact text.
pub enum CapabilityCallView {
    Initialize { capabilities: ServerCapabilities },
    Ping,
    ListTools { cursor: Option<Seq<char>> },
    CallTool { name: Seq<char>, arguments: Seq<char> },
    ListResources { cursor: Option<Seq<char>> },
    ReadResource { uri: Seq<char> },
    ListResourceTemplates { cursor: Option<Seq<char>> },
    Subscribe { uri: Seq<char> },
    Unsubscribe { uri: Seq<char> },
    ListPrompts { cursor: Option<Seq<char>> },
    GetPrompt { name: Seq<char>, arguments: Seq<char> },
    SetLogLevel { level: Seq<char> },
    Complete { params: Seq<char> },
}

impl View for CapabilityCall {
    type V = CapabilityCallView;

    open spec fn view(&self) -> CapabilityCallView {
        match self {
            CapabilityCall::Initialize { capabilities } => CapabilityCallView::Initialize {
                capabilities: *capabilities,
            },
            CapabilityCall::Ping => CapabilityCallView::Ping,
            CapabilityCall::ListTools { cursor } => CapabilityCallView::ListTools {
                cursor: chars_of(*cursor),
            },
            CapabilityCall::CallTool { name, arguments } => CapabilityCallView::CallTool {
                name: name@,
                arguments: json_text(*arguments),
            },
            CapabilityCall::ListResources { cursor } => CapabilityCallView::ListResources {
                cursor: chars_of(*cursor),
            },
            CapabilityCall::ReadResource { uri } => CapabilityCallView::ReadResource { uri: uri@ },
            CapabilityCall::ListResourceTemplates { cursor } => {
                CapabilityCallView::ListResourceTemplates { cursor: chars_of(*cursor) }
            },
            CapabilityCall::Subscribe { uri } => CapabilityCallView::Subscribe { uri: uri@ },
            CapabilityCall::Unsubscribe { uri } => CapabilityCallView::Unsubscribe { uri: uri@ },
            CapabilityCall::ListPrompts { cursor } => CapabilityCallView::ListPrompts {
                cursor: chars_of(*cursor),
            },
            CapabilityCall::GetPrompt { name, arguments } => CapabilityCallView::GetPrompt {
                name: name@,
                arguments: json_text(*arguments),
            },
            CapabilityCall::SetLogLevel { level } => CapabilityCallView::SetLogLevel {
                level: level@,
            },
            CapabilityCall::Complete { params } => CapabilityCallView::Complete {
                params: json_text(*params),
            },
        }
    }
}

/// What routing gives: the operation to run, or the error to report.
pub type Routed = Result<CapabilityCallView, MCPErrorView>;

/// The view of what an executable routing function returns.
pub open spec fn routed_view(routed: Result<CapabilityCall, MCPError>) -> Routed {
    match routed {
        Ok(call) => Ok(call@),
        Err(e) => Err(e@),
    }
}

/// The cursor of a listing request: the `cursor` of its `params`, if any.
pub open spec fn cursor_of(params: Option<RequestParamsView>) -> Option<Seq<char>> {
    match params {
        Some(p) => p.cursor,
        None => None,
    }
}

/// `tools/call`: needs `params` with a `name`; the `arguments` default to
/// JSON null.
pub open spec fn tool_call_plan(params: Option<RequestParamsView>) -> Routed {
    match params {
        None => Err(MCPErrorView::MissingParameters("Missing 'params' for tools/call"@)),
        Some(p) => match p.name {
            None => Err(MCPErrorView::MissingToolName),
            Some(name) => Ok(CapabilityCallView::CallTool { name, arguments: p.arguments }),
        },
    }
}

/// `resources/read`: needs `params` with a `uri`.
pub open spec fn resource_read_plan(params: Option<RequestParamsView>) -> Routed {
    match params {
        None => Err(MCPErrorView::MissingParameters("Missing 'params' for resources/read"@)),
        Some(p) => match p.uri {
            None => Err(MCPErrorView::MissingParameters("Missing 'uri' for resources/read"@)),
            Some(uri) => Ok(CapabilityCallView::ReadResource { uri }),
        },
    }
}

/// `prompts/get`: needs `params` with a `name`; the `arguments` default to
/// JSON null.
pub open spec fn prompt_get_plan(params: Option<RequestParamsView>) -> Routed {
    match params {
        None => Err(MCPErrorView::MissingParameters("Missing 'params' for prompts/get"@)),
        Some(p) => match p.name {
            None => Err(
                MCPErrorView::MissingParameters("Missing 'name' in params for prompts/get"@),
            ),
            Some(name) => Ok(CapabilityCallView::GetPrompt { name, arguments: p.arguments }),
        },
    }
}

/// `resources/subscribe` and `resources/unsubscribe`: need `params` with a
/// `uri`.
pub open spec fn subscription_plan(params: Option<RequestParamsView>, subscribe: bool) -> Routed {
    match params {
        None => Err(MCPErrorView::MissingParameters("params object"@)),
        Some(p) => match p.uri {
            None => Err(MCPErrorView::MissingParameters("uri"@)),
            Some(uri) => if subscribe {
                Ok(CapabilityCallView::Subscribe { uri })
            } else {
                Ok(CapabilityCallView::Unsubscribe { uri })
            },
        },
    }
}

/// `logging/setLevel`: needs `params` with a `level`.
pub open spec fn log_level_plan(params: Option<RequestParamsView>) -> Routed {
    match params {
        None => Err(MCPErrorView::MissingParameters("params object"@)),
        Some(p) => match p.level {
            None => Err(MCPErrorView::MissingParameters("level"@)),
            Some(level) => Ok(CapabilityCallView::SetLogLevel { level }),
        },
    }
}

/// `completion/complete`: needs `params`, which it hands on whole.
pub open spec fn completion_plan(params: Option<RequestParamsView>) -> Routed {
    match params {
        None => Err(MCPErrorView::MissingParameters("params object"@)),
        Some(p) => Ok(CapabilityCallView::Complete { params: p.document }),
    }
}

/// Whether the routing table has the method.
pub open spec fn is_known_method(method: Seq<char>) -> bool {
    ||| method == "initialize"@
    ||| method == "ping"@
    ||| method == "tools/list"@
    ||| method == "tools/call"@
    ||| method == "resources/list"@
    ||| method == "resources/read"@
    ||| method == "resources/templates/list"@
    ||| method == "resources/subscribe"@
    ||| method == "resources/unsubscribe"@
    ||| method == "prompts/list"@
    ||| method == "prompts/get"@
    ||| method == "logging/setLevel"@
    ||| method == "completion/complete"@
}

/// The routing table: the operation that a method with the given `params`
/// asks for, or the error that the request earns.
pub open spec fn routed(
    method: Seq<char>,
    params: Option<RequestParamsView>,
    capabilities: ServerCapabilities,
) -> Routed {
    if method == "initialize"@ {
        Ok(CapabilityCallView::Initialize { capabilities })
    } else if method == "ping"@ {
        Ok(CapabilityCallView::Ping)
    } else if method == "tools/list"@ {
        Ok(CapabilityCallView::ListTools { cursor: cursor_of(params) })
    } else if method == "tools/call"@ {
        tool_call_plan(params)
    } else if method == "resources/list"@ {
        Ok(CapabilityCallView::ListResources { cursor: cursor_of(params) })
    } else if method == "resources/read"@ {
        resource_read_plan(params)
    } else if method == "resources/templates/list"@ {
        Ok(CapabilityCallView::ListResourceTemplates { cursor: cursor_of(params) })
    } else if method == "resources/subscribe"@ {
        subscription_plan(params, true)
    } else if method == "resources/unsubscribe"@ {
        subscription_plan(params, false)
    } else if method == "prompts/list"@ {
        Ok(CapabilityCallView::ListPrompts { cursor: cursor_of(params) })
    } else if method == "prompts/get"@ {
        prompt_get_plan(params)
    } else if method == "logging/setLevel"@ {
        log_level_plan(params)
    } else if method == "completion/complete"@ {
        completion_plan(params)
    } else {
        Err(MCPErrorView::MethodNotFound(method))
    }
}

/// A method that is not in the routing table earns "method not found",
/// whatever the request holds besides.
pub proof fn lemma_unknown_method(
    method: Seq<char>,
    params: Option<RequestParamsView>,
    capabilities: ServerCapabilities,
)
    requires
        !is_known_method(method),
    ensures
        routed(method, params, capabilities) == Routed::Err(MCPErrorView::MethodNotFound(method)),
        error_code(MCPErrorView::MethodNotFound(method)) == METHOD_NOT_FOUND,
{
}

/// A method of the routing table never earns "method not found": it is
/// routed, or the request lacks what the method needs.
pub proof fn lemma_known_method(
    method: Seq<char>,
    params: Option<RequestParamsView>,
    capabilities: ServerCapabilities,
)
    requires
        is_known_method(method),
    ensures
        !(routed(method, params, capabilities) matches Err(MCPErrorView::MethodNotFound(_))),
        routed(method, params, capabilities) matches Err(e) ==> e is MissingParameters
            || e is MissingToolName,
{
}

/// `tools/call` is routed by its own plan.
pub proof fn lemma_tool_call_route(
    params: Option<RequestParamsView>,
    capabilities: ServerCapabilities,
)
    ensures
        routed("tools/call"@, params, capabilities) == tool_call_plan(params),
{
    reveal_strlit("tools/call");
    reveal_strlit("initialize");
    reveal_strlit("ping");
    reveal_strlit("tools/list");
    assert("tools/call"@[0] != "initialize"@[0]);
    assert("tools/call"@.len() != "ping"@.len());
    assert("tools/call"@[6] != "tools/list"@[6]);
}

/// The views of optional `params`.
pub open spec fn params_view(params: Option<RequestParams>) -> Option<RequestParamsView> {
    match params {
        Some(p) => Some(p@),
        None => None,
    }
}

/// The cursor of a listing request.
fn take_cursor(params: Option<RequestParams>) -> (cursor: Option<String>)
    ensures
        chars_of(cursor) == cursor_of(params_view(params)),
{
    match params {
        Some(p) => p.cursor,
        None => None,
    }
}

/// Plans a `tools/call`.
pub fn handle_tool_call(params: Option<RequestParams>) -> (planned: Result<CapabilityCall, MCPError>)
    ensures
        routed_view(planned) == tool_call_plan(params_view(params)),
{
    match params {
        None => Err(MCPError::MissingParameters("Missing 'params' for tools/call".to_owned())),
        Some(p) => match p.name {
            None => Err(MCPError::MissingToolName),
            Some(name) => Ok(CapabilityCall::CallTool { name, arguments: p.arguments }),
        },
    }
}

/// Plans a `resources/read`.
pub fn handle_resource_read(params: Option<RequestParams>) -> (planned: Result<
    CapabilityCall,
    MCPError,
>)
    ensures
        routed_view(planned) == resource_read_plan(params_view(params)),
{
    match params {
        None => Err(MCPError::MissingParameters("Missing 'params' for resources/read".to_owned())),
        Some(p) => match p.uri {
            None => Err(MCPError::MissingParameters("Missing 'uri' for resources/read".to_owned())),
            Some(uri) => Ok(CapabilityCall::ReadResource { uri }),
        },
    }
}

/// Plans a `prompts/get`.
pub fn handle_prompt_get(params: Option<RequestParams>) -> (planned: Result<CapabilityCall, MCPError>)
    ensures
        routed_view(planned) == prompt_get_plan(params_view(params)),
{
    match params {
        None => Err(MCPError::MissingParameters("Missing 'params' for prompts/get".to_owned())),
        Some(p) => match p.name {
            None => Err(
                MCPError::MissingParameters("Missing 'name' in params for prompts/get".to_owned()),
            ),
            Some(name) => Ok(CapabilityCall::GetPrompt { name, arguments: p.arguments }),
        },
    }
}

/// Plans a `resources/subscribe` or, with `subscribe` false, a
/// `resources/unsubscribe`.
fn handle_subscription(params: Option<RequestParams>, subscribe: bool) -> (planned: Result<
    CapabilityCall,
    MCPError,
>)
    ensures
        routed_view(planned) == subscription_plan(params_view(params), subscribe),
{
    match params {
        None => Err(MCPError::MissingParameters("params object".to_owned())),
        Some(p) => match p.uri {
            None => Err(MCPError::MissingParameters("uri".to_owned())),
            Some(uri) => if subscribe {
                Ok(CapabilityCall::Subscribe { uri })
            } else {
                Ok(CapabilityCall::Unsubscribe { uri })
            },
        },
    }
}

/// Plans a `logging/setLevel`.
fn handle_log_level(params: Option<RequestParams>) -> (planned: Result<CapabilityCall, MCPError>)
    ensures
        routed_view(planned) == log_level_plan(params_view(params)),
{
    match params {
        None => Err(MCPError::MissingParameters("params object".to_owned())),
        Some(p) => match p.level {
            None => Err(MCPError::MissingParameters("level".to_owned())),
            Some(level) => Ok(CapabilityCall::SetLogLevel { level }),
        },
    }
}

/// Plans a `completion/complete`.
fn handle_completion(params: Option<RequestParams>) -> (planned: Result<CapabilityCall, MCPError>)
    ensures
        routed_view(planned) == completion_plan(params_view(params)),
{
    match params {
        None => Err(MCPError::MissingParameters("params object".to_owned())),
        Some(p) => Ok(CapabilityCall::Complete { params: p.document }),
    }
}

/// Routes a method onto the capability operation that it asks for.
pub fn route(
    method: &str,
    params: Option<RequestParams>,
    capabilities: &ServerCapabilities,
) -> (planned: Result<CapabilityCall, MCPError>)
    ensures
        routed_view(planned) == routed(method@, params_view(params), *capabilities),
{
    if method.eq("initialize") {
        Ok(CapabilityCall::Initialize { capabilities: capabilities.clone() })
    } else if method.eq("ping") {
        Ok(CapabilityCall::Ping)
    } else if method.eq("tools/list") {
        Ok(CapabilityCall::ListTools { cursor: take_cursor(params) })
    } else if method.eq("tools/call") {
        handle_tool_call(params)
    } else if method.eq("resources/list") {
        Ok(CapabilityCall::ListResources { cursor: take_cursor(params) })
    } else if method.eq("resources/read") {
        handle_resource_read(params)
    } else if method.eq("resources/templates/list") {
        Ok(CapabilityCall::ListResourceTemplates { cursor: take_cursor(params) })
    } else if method.eq("resources/subscribe") {
        handle_subscription(params, true)
    } else if method.eq("resources/unsubscribe") {
        handle_subscription(params, false)
    } else if method.eq("prompts/list") {
        Ok(CapabilityCall::ListPrompts { cursor: take_cursor(params) })
    } else if method.eq("prompts/get") {
        handle_prompt_get(params)
    } else if method.eq("logging/setLevel") {
        handle_log_level(params)
    } else if method.eq("completion/complete") {
        handle_completion(params)
    } else {
        Err(MCPError::MethodNotFound(method.to_owned()))
    }
}

} // verus!
