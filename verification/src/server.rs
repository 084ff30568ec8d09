//! The dispatcher: version detection, the race between a call and its
//! cancellation, and the shaping of responses.
//!
//! The dispatcher decides and never waits. [`SystemMCPServer::handle`] turns
//! a message into a [`Dispatch`]: nothing to send, a response that is ready,
//! or a capability operation to run. The runtime runs the operation and
//! gives its outcome to [`SystemMCPServer::complete`], which returns the
//! response.

use crate::error::{json_rpc_error_of, MCPError, MCPErrorView, METHOD_NOT_FOUND};
use crate::json::{json_text, null_text, value_text};
use crate::notifications::{ProgressSender, ServerNotification};
use crate::registry::{
    after_begin, after_cancel, after_end, lemma_cancel_is_idempotent, lemma_end_after_cancel,
    ActiveCalls, CancellationRegistry, SubscriptionSet,
};
use crate::request::{
    chars_of, MCPRequest, ProgressToken, ProgressTokenView, RequestParams, RequestParamsView,
};
use crate::response::{
    text_of, v1_error_view, v1_success_view, v2_error_view, v2_success_view, wire_shape_of,
    MCPResponse, MCPResponseView,
};
use crate::routing::{
    handle_tool_call, is_known_method, lemma_tool_call_route, lemma_unknown_method, params_view,
    route, routed, tool_call_plan, CapabilityCall, CapabilityCallView,
};
use crate::tools::{no_capabilities, ServerCapabilities};
use serde_json::Value;
use vstd::prelude::*;

verus! {

/// The two versions of JSON-RPC that the server speaks.
#[derive(Debug, Clone, Copy, PartialEq, Eq, Structural)]
pub enum JsonRpcVersion {
    V1_0,
    V2_0,
}

/// The version that a tag stands for: "2.0" for 2.0, "1.0" or no tag for
/// 1.0. Any other tag is an error.
pub open spec fn detected_version(tag: Option<Seq<char>>) -> Result<JsonRpcVersion, MCPErrorView> {
    match tag {
        Some(t) => if t == "2.0"@ {
            Ok(JsonRpcVersion::V2_0)
        } else if t == "1.0"@ {
            Ok(JsonRpcVersion::V1_0)
        } else {
            Err(MCPErrorView::InvalidJsonRpcVersion(t))
        },
        None => Ok(JsonRpcVersion::V1_0),
    }
}

/// The version in whose shape a request is answered: the detected one, or
/// 2.0 where the tag is not understood.
pub open spec fn response_version(tag: Option<Seq<char>>) -> JsonRpcVersion {
    match detected_version(tag) {
        Ok(version) => version,
        Err(_) => JsonRpcVersion::V2_0,
    }
}

/// The response with the given id that reports `outcome` in the shape of
/// `version`.
pub open spec fn shaped(
    version: JsonRpcVersion,
    id: Option<Seq<char>>,
    outcome: Result<Seq<char>, MCPErrorView>,
) -> MCPResponseView {
    match version {
        JsonRpcVersion::V1_0 => match outcome {
            Ok(result) => v1_success_view(id, result),
            Err(e) => v1_error_view(id, json_rpc_error_of(e)),
        },
        JsonRpcVersion::V2_0 => match outcome {
            Ok(result) => v2_success_view(id, result),
            Err(e) => v2_error_view(id, json_rpc_error_of(e)),
        },
    }
}

/// The outcome of an operation with its result as compact text.
pub open spec fn outcome_view(outcome: Result<Value, MCPError>) -> Result<Seq<char>, MCPErrorView> {
    match outcome {
        Ok(result) => Ok(json_text(result)),
        Err(e) => Err(e@),
    }
}

/// The version that a request asks for.
pub fn validate_and_detect_version(req: &MCPRequest) -> (detected: Result<JsonRpcVersion, MCPError>)
    ensures
        (match detected {
            Ok(version) => Ok(version),
            Err(e) => Err(e@),
        }) == detected_version(req.version_tag()),
{
    match req.jsonrpc_version() {
        Some(tag) => {
            if tag.eq("2.0") {
                Ok(JsonRpcVersion::V2_0)
            } else if tag.eq("1.0") {
                Ok(JsonRpcVersion::V1_0)
            } else {
                Err(MCPError::InvalidJsonRpcVersion(tag.to_owned()))
            }
        },
        None => Ok(JsonRpcVersion::V1_0),
    }
}

/// The response with the given id that reports `outcome` in the shape of
/// `version`.
pub fn shape_response(
    version: JsonRpcVersion,
    id: Option<Value>,
    outcome: Result<Value, MCPError>,
) -> (response: MCPResponse)
    ensures
        response@ == shaped(version, text_of(id), outcome_view(outcome)),
        response.id == id,
        outcome matches Ok(result) ==> response.result == Some(result),
{
    match version {
        JsonRpcVersion::V1_0 => match outcome {
            Ok(result) => MCPResponse::v1_success(id, result),
            Err(e) => MCPResponse::v1_error(id, e.to_json_rpc_error()),
        },
        JsonRpcVersion::V2_0 => match outcome {
            Ok(result) => MCPResponse::v2_success(id, result),
            Err(e) => MCPResponse::v2_error(id, e.to_json_rpc_error()),
        },
    }
}

/// A response in the shape of JSON-RPC 2.0 carries the tag and exactly one
/// of `result` and `error`, in the value and on the wire. A response in the
/// shape of 1.0 carries no tag and has both members on the wire; on failure
/// its `result` is JSON null and its `error` is set, on success its `result`
/// is set and its `error` is null. A tag that is not understood is answered
/// in the shape of 2.0.
pub proof fn lemma_version_shape(
    tag: Option<Seq<char>>,
    id: Option<Seq<char>>,
    outcome: Result<Seq<char>, MCPErrorView>,
)
    ensures
        ({
            let response = shaped(response_version(tag), id, outcome);
            let wire = wire_shape_of(response);
            &&& response.id == id
            &&& response.error is Some <==> outcome is Err
            &&& outcome matches Err(e) ==> response.error == Some(json_rpc_error_of(e))
            &&& tag == Some("2.0"@) || detected_version(tag) is Err ==> {
                &&& response.jsonrpc == Some("2.0"@)
                &&& response.result is Some <==> response.error is None
                &&& outcome matches Ok(result) ==> response.result == Some(result)
                &&& wire.jsonrpc
                &&& wire.result <==> !wire.error
            }
            &&& tag is None || tag == Some("1.0"@) ==> {
                &&& response.jsonrpc is None
                &&& outcome is Err ==> response.result == Some(null_text())
                &&& outcome matches Ok(result) ==> response.result == Some(result)
                &&& !wire.jsonrpc
                &&& wire.result
                &&& wire.error
            }
        }),
{
    reveal_strlit("1.0");
    reveal_strlit("2.0");
    assert("1.0"@[0] != "2.0"@[0]);
}

/// The key under which the call for a request is registered: the compact
/// text of the request's id.
pub open spec fn request_key_of(id: Option<Seq<char>>) -> Seq<char> {
    match id {
        Some(text) => text,
        None => "unknown"@,
    }
}

/// The key under which the call for a request is registered.
pub fn request_key(id: &Option<Value>) -> (key: String)
    ensures
        key@ == request_key_of(text_of(*id)),
{
    match id {
        Some(id) => value_text(id),
        None => "unknown".to_owned(),
    }
}

/// What the runtime reports of a capability operation that it has run.
#[derive(Debug)]
pub enum CallEvent {
    /// The operation has finished with this outcome.
    Finished(Result<Value, MCPError>),
    /// The cancellation signal of the call has fired before the operation
    /// finished. The operation is abandoned.
    Cancelled,
    /// The operation has finished and the signal has fired, and the runtime
    /// saw both at once.
    Both(Result<Value, MCPError>),
}

/// A [`CallEvent`] with the outcome by its view.
pub enum CallEventView {
    Finished(Result<Seq<char>, MCPErrorView>),
    Cancelled,
    Both(Result<Seq<char>, MCPErrorView>),
}

impl View for CallEvent {
    type V = CallEventView;

    open spec fn view(&self) -> CallEventView {
        match self {
            CallEvent::Finished(outcome) => CallEventView::Finished(outcome_view(*outcome)),
            CallEvent::Cancelled => CallEventView::Cancelled,
            CallEvent::Both(outcome) => CallEventView::Both(outcome_view(*outcome)),
        }
    }
}

/// What is to be reported of a call of which the runtime has just looked at
/// both sides: the outcome of the operation, if it has finished, and whether
/// the cancellation signal has fired. Nothing is to be reported yet where
/// neither has happened.
pub open spec fn observed_event(
    finished: Option<Result<Seq<char>, MCPErrorView>>,
    fired: bool,
) -> Option<CallEventView> {
    match finished {
        Some(outcome) => if fired {
            Some(CallEventView::Both(outcome))
        } else {
            Some(CallEventView::Finished(outcome))
        },
        None => if fired {
            Some(CallEventView::Cancelled)
        } else {
            None
        },
    }
}

/// The view of an optional outcome.
pub open spec fn finished_view(finished: Option<Result<Value, MCPError>>) -> Option<
    Result<Seq<char>, MCPErrorView>,
> {
    match finished {
        Some(outcome) => Some(outcome_view(outcome)),
        None => None,
    }
}

/// The view of an optional event.
pub open spec fn event_view(event: Option<CallEvent>) -> Option<CallEventView> {
    match event {
        Some(event) => Some(event@),
        None => None,
    }
}

/// How the race between an operation and its cancellation ends. An operation
/// that has finished wins with its own outcome, also where the signal has
/// fired at the same time; only a signal that fired alone cancels the call.
pub open spec fn settled(event: CallEventView, key: Seq<char>) -> Result<Seq<char>, MCPErrorView> {
    match event {
        CallEventView::Finished(outcome) => outcome,
        CallEventView::Both(outcome) => outcome,
        CallEventView::Cancelled => Err(MCPErrorView::RequestCancelled(key)),
    }
}

impl CallEvent {
    /// What is to be reported of a call whose two sides the runtime has just
    /// looked at, or `None` where the call is still running undisturbed.
    pub fn observed(finished: Option<Result<Value, MCPError>>, fired: bool) -> (event: Option<
        CallEvent,
    >)
        ensures
            event_view(event) == observed_event(finished_view(finished), fired),
            finished matches Some(outcome) ==> (event matches Some(e) && (e == CallEvent::Both(
                outcome,
            ) || e == CallEvent::Finished(outcome))),
    {
        match finished {
            Some(outcome) => if fired {
                Some(CallEvent::Both(outcome))
            } else {
                Some(CallEvent::Finished(outcome))
            },
            None => if fired {
                Some(CallEvent::Cancelled)
            } else {
                None
            },
        }
    }
}

/// Settles the race between an operation and its cancellation.
pub fn settle(event: CallEvent, key: &str) -> (outcome: Result<Value, MCPError>)
    ensures
        outcome_view(outcome) == settled(event@, key@),
        event matches CallEvent::Both(finished) ==> outcome == finished,
        event matches CallEvent::Finished(finished) ==> outcome == finished,
{
    match event {
        CallEvent::Finished(outcome) => outcome,
        CallEvent::Both(outcome) => outcome,
        CallEvent::Cancelled => Err(MCPError::RequestCancelled(key.to_owned())),
    }
}

/// A finished operation is never reported as cancelled: whatever it
/// returned is the outcome, whether or not the signal fired as well. Only
/// a call that has not finished is cancelled by its signal.
pub proof fn lemma_finished_call_wins(
    outcome: Result<Seq<char>, MCPErrorView>,
    fired: bool,
    key: Seq<char>,
)
    ensures
        observed_event(Some(outcome), fired) is Some,
        settled(observed_event(Some(outcome), fired)->Some_0, key) == outcome,
        settled(CallEventView::Both(outcome), key) == settled(CallEventView::Finished(outcome), key),
        observed_event(None, true) == Some(CallEventView::Cancelled),
        settled(CallEventView::Cancelled, key) == Result::<Seq<char>, MCPErrorView>::Err(
            MCPErrorView::RequestCancelled(key),
        ),
{
}

/// A capability operation that the runtime is to run, with what is needed to
/// answer the request afterwards.
#[derive(Debug)]
pub struct PendingCall {
    /// The version in whose shape the response is written.
    pub version: JsonRpcVersion,
    /// The id of the request.
    pub id: Option<Value>,
    /// The operation.
    pub call: CapabilityCall,
    /// The key under which the call is registered, where it is cancellable.
    pub key: Option<String>,
}

/// A [`PendingCall`] by the views of its parts.
pub struct PendingCallView {
    pub version: JsonRpcVersion,
    pub id: Option<Seq<char>>,
    pub call: CapabilityCallView,
    pub key: Option<Seq<char>>,
}

impl View for PendingCall {
    type V = PendingCallView;

    open spec fn view(&self) -> PendingCallView {
        PendingCallView {
            version: self.version,
            id: text_of(self.id),
            call: self.call@,
            key: chars_of(self.key),
        }
    }
}

/// What a cancellable call is run with: the receiving end of its
/// cancellation signal, and the handle through which it reports progress.
#[derive(Debug)]
pub struct CallHandles {
    pub cancel: tokio::sync::oneshot::Receiver<()>,
    pub progress: ProgressSender,
}

/// A call that has been cancelled, for the capability's cancellation hook.
#[derive(Debug)]
pub struct CancelNotice {
    pub request_id: String,
    pub reason: Option<String>,
}

/// A [`CancelNotice`] with its strings as characters.
pub struct CancelNoticeView {
    pub request_id: Seq<char>,
    pub reason: Option<Seq<char>>,
}

impl View for CancelNotice {
    type V = CancelNoticeView;

    open spec fn view(&self) -> CancelNoticeView {
        CancelNoticeView { request_id: self.request_id@, reason: chars_of(self.reason) }
    }
}

/// What is to be done about a message.
#[derive(Debug)]
pub enum Dispatch {
    /// The message was a notification: nothing is sent back. Where it
    /// cancelled a call in flight, `cancelled` names the call, and the
    /// capability's cancellation hook is to be invoked with it.
    Silent { cancelled: Option<CancelNotice> },
    /// The response is ready.
    Reply(MCPResponse),
    /// An operation is to be run; its outcome goes to
    /// [`SystemMCPServer::complete`]. A cancellable call comes with its
    /// handles.
    Invoke { pending: PendingCall, handles: Option<CallHandles> },
}

/// A [`Dispatch`] by the views of its parts. Of the handles of a cancellable
/// call it holds the progress token that the progress handle is bound to.
pub enum DispatchView {
    Silent { cancelled: Option<CancelNoticeView> },
    Reply(MCPResponseView),
    Invoke { pending: PendingCallView, progress: Option<Option<ProgressTokenView>> },
}

impl View for Dispatch {
    type V = DispatchView;

    open spec fn view(&self) -> DispatchView {
        match self {
            Dispatch::Silent { cancelled } => DispatchView::Silent {
                cancelled: match cancelled {
                    Some(notice) => Some(notice@),
                    None => None,
                },
            },
            Dispatch::Reply(response) => DispatchView::Reply(response@),
            Dispatch::Invoke { pending, handles } => DispatchView::Invoke {
                pending: pending@,
                progress: match handles {
                    Some(h) => Some(h.progress.token()),
                    None => None,
                },
            },
        }
    }
}

/// The call that a `notifications/cancelled` with the given `params`
/// cancels: the one registered under `requestId`, if there is one.
pub open spec fn cancellation_of(active: ActiveCalls, params: Option<RequestParamsView>) -> Option<
    CancelNoticeView,
> {
    match params {
        Some(p) => match p.request_id {
            Some(id) => if active.contains_key(id) {
                Some(CancelNoticeView { request_id: id, reason: p.reason })
            } else {
                None
            },
            None => None,
        },
        None => None,
    }
}

/// What is to be done about a message, given the calls in flight and the
/// declared capabilities.
///
/// A message without an id is a notification and is never answered; only
/// `notifications/cancelled` has an effect. A request is routed: an error is
/// answered at once, an operation is handed out. Only `tools/call` is
/// cancellable, under the key of the request's id.
pub open spec fn handled(
    active: ActiveCalls,
    capabilities: ServerCapabilities,
    tag: Option<Seq<char>>,
    id: Option<Seq<char>>,
    method: Seq<char>,
    params: Option<RequestParamsView>,
    token: Option<ProgressTokenView>,
) -> DispatchView {
    match id {
        None => DispatchView::Silent {
            cancelled: if method == "notifications/cancelled"@ {
                cancellation_of(active, params)
            } else {
                None
            },
        },
        Some(text) => match routed(method, params, capabilities) {
            Ok(call) => DispatchView::Invoke {
                pending: PendingCallView {
                    version: response_version(tag),
                    id,
                    call,
                    key: if method == "tools/call"@ {
                        Some(text)
                    } else {
                        None
                    },
                },
                progress: if method == "tools/call"@ {
                    Some(token)
                } else {
                    None
                },
            },
            Err(e) => DispatchView::Reply(shaped(response_version(tag), id, Err(e))),
        },
    }
}

/// The key of the registry entry that a message touches, if it touches one:
/// the `requestId` of a `notifications/cancelled`, the id of a `tools/call`.
pub open spec fn touched_key(
    id: Option<Seq<char>>,
    method: Seq<char>,
    params: Option<RequestParamsView>,
) -> Option<Seq<char>> {
    match id {
        None => if method == "notifications/cancelled"@ {
            match params {
                Some(p) => p.request_id,
                None => None,
            }
        } else {
            None
        },
        Some(text) => if method == "tools/call"@ {
            Some(text)
        } else {
            None
        },
    }
}

/// How handling a `tools/call` under `key` changes the calls in flight.
/// Where the call is handed out it is registered under `key` with a signal
/// of its own, in place of what was there; where it is answered at once
/// nothing is left under `key`. No other entry changes.
pub open spec fn registered(
    before: ActiveCalls,
    after: ActiveCalls,
    key: Seq<char>,
    handed_out: bool,
) -> bool {
    if handed_out {
        after.contains_key(key) && after == after_begin(before, key, after[key])
    } else {
        after == after_end(before, key)
    }
}

/// A message without an id is never answered, whatever its method.
pub proof fn lemma_notifications_are_silent(
    active: ActiveCalls,
    capabilities: ServerCapabilities,
    tag: Option<Seq<char>>,
    method: Seq<char>,
    params: Option<RequestParamsView>,
    token: Option<ProgressTokenView>,
)
    ensures
        handled(active, capabilities, tag, None, method, params, token) is Silent,
{
}

/// A message with an id is answered: at once, or once the operation that
/// is handed out is complete.
pub proof fn lemma_requests_are_answered(
    active: ActiveCalls,
    capabilities: ServerCapabilities,
    tag: Option<Seq<char>>,
    id: Seq<char>,
    method: Seq<char>,
    params: Option<RequestParamsView>,
    token: Option<ProgressTokenView>,
)
    ensures
        ({
            let dispatch = handled(active, capabilities, tag, Some(id), method, params, token);
            &&& dispatch is Reply || dispatch is Invoke
            &&& dispatch matches DispatchView::Reply(response) ==> response.id == Some(id)
                && response.error is Some
            &&& dispatch matches DispatchView::Invoke { pending, progress } ==> pending.id == Some(
                id,
            )
        }),
{
}

/// A request for a method that is not in the routing table is answered at
/// once, with the code for "method not found".
pub proof fn lemma_unknown_method_is_answered(
    active: ActiveCalls,
    capabilities: ServerCapabilities,
    tag: Option<Seq<char>>,
    id: Seq<char>,
    method: Seq<char>,
    params: Option<RequestParamsView>,
    token: Option<ProgressTokenView>,
)
    requires
        !is_known_method(method),
    ensures
        ({
            let dispatch = handled(active, capabilities, tag, Some(id), method, params, token);
            &&& dispatch matches DispatchView::Reply(response)
            &&& response.id == Some(id)
            &&& response.error is Some
            &&& response.error->Some_0.code == METHOD_NOT_FOUND
        }),
{
    lemma_unknown_method(method, params, capabilities);
    lemma_version_shape(tag, Some(id), Err(MCPErrorView::MethodNotFound(method)));
}

/// A second `notifications/cancelled` for a call finds nothing to cancel:
/// it changes no entry and asks for no hook.
pub proof fn lemma_second_cancellation_is_silent(
    active: ActiveCalls,
    capabilities: ServerCapabilities,
    tag: Option<Seq<char>>,
    params: RequestParamsView,
    token: Option<ProgressTokenView>,
)
    requires
        params.request_id is Some,
    ensures
        ({
            let key = params.request_id->Some_0;
            let rest = after_cancel(active, key);
            &&& handled(rest, capabilities, tag, None, "notifications/cancelled"@, Some(params), token)
                == (DispatchView::Silent { cancelled: None })
            &&& after_cancel(rest, key) == rest
            &&& after_end(rest, key) == rest
        }),
{
    let key = params.request_id->Some_0;
    lemma_cancel_is_idempotent(active, key);
    lemma_end_after_cancel(active, key);
}

/// The change of the subscription set that a successful operation brings.
pub open spec fn subscriptions_after(
    subscriptions: Set<Seq<char>>,
    call: CapabilityCallView,
    succeeded: bool,
) -> Set<Seq<char>> {
    if succeeded {
        match call {
            CapabilityCallView::Subscribe { uri } => subscriptions.insert(uri),
            CapabilityCallView::Unsubscribe { uri } => subscriptions.remove(uri),
            _ => subscriptions,
        }
    } else {
        subscriptions
    }
}

/// The calls in flight once a pending call is complete.
pub open spec fn active_after(active: ActiveCalls, key: Option<Seq<char>>) -> ActiveCalls {
    match key {
        Some(key) => after_end(active, key),
        None => active,
    }
}

/// The response that completes a pending call on the given event.
pub open spec fn completed(pending: PendingCallView, event: CallEventView) -> MCPResponseView {
    shaped(pending.version, pending.id, settled(event, request_key_of(pending.key)))
}

/// The receiving end of the server's notification queue.
#[derive(Debug)]
pub struct NotificationStream {
    inner: tokio::sync::mpsc::UnboundedReceiver<ServerNotification>,
}

impl NotificationStream {
    /// Wraps the receiving end of a queue.
    pub fn new(receiver: tokio::sync::mpsc::UnboundedReceiver<ServerNotification>) -> (stream:
        NotificationStream)
        ensures
            stream.receiver() == receiver,
    {
        NotificationStream { inner: receiver }
    }

    /// The receiving end.
    pub closed spec fn receiver(&self) -> tokio::sync::mpsc::UnboundedReceiver<ServerNotification> {
        self.inner
    }

    /// Gives the receiving end out.
    pub fn into_inner(self) -> (receiver: tokio::sync::mpsc::UnboundedReceiver<ServerNotification>)
        ensures
            receiver == self.receiver(),
    {
        self.inner
    }
}

/// Collects the declared capabilities of a server.
pub struct ServerBuilder {
    capabilities: ServerCapabilities,
}

impl Default for ServerBuilder {
    fn default() -> (builder: ServerBuilder)
        ensures
            builder.capabilities() == no_capabilities(),
    {
        ServerBuilder::new()
    }
}

impl ServerBuilder {
    /// The capabilities declared so far.
    pub closed spec fn capabilities(&self) -> ServerCapabilities {
        self.capabilities
    }

    /// A builder with no capability declared.
    pub fn new() -> (builder: ServerBuilder)
        ensures
            builder.capabilities() == no_capabilities(),
    {
        ServerBuilder { capabilities: ServerCapabilities::default() }
    }

    /// Declares the tools group, with the JSON object that describes it.
    #[must_use]
    pub fn with_tools(self, tools: Value) -> (builder: ServerBuilder)
        ensures
            builder.capabilities() == (ServerCapabilities {
                tools: Some(tools),
                ..self.capabilities()
            }),
    {
        let mut capabilities = self.capabilities;
        capabilities.tools = Some(tools);
        ServerBuilder { capabilities }
    }

    /// The server with the declared capabilities: no call in flight, no
    /// subscription, and a notification queue of its own.
    pub fn build(self) -> (server: SystemMCPServer)
        ensures
            server.capabilities() == self.capabilities(),
            server.active() == ActiveCalls::empty(),
            server.subscribed() == Set::<Seq<char>>::empty(),
            server.has_stream(),
    {
        let (notification_tx, notification_rx) = tokio::sync::mpsc::unbounded_channel();
        SystemMCPServer {
            capabilities: self.capabilities,
            active_requests: CancellationRegistry::new(),
            notification_tx,
            notification_rx: Some(notification_rx),
            subscriptions: SubscriptionSet::new(),
        }
    }
}

/// The protocol state of a server: its declared capabilities, the
/// cancellable calls in flight, the subscriptions, and the two ends of the
/// notification queue.
pub struct SystemMCPServer {
    capabilities: ServerCapabilities,
    active_requests: CancellationRegistry,
    notification_tx: tokio::sync::mpsc::UnboundedSender<ServerNotification>,
    notification_rx: Option<tokio::sync::mpsc::UnboundedReceiver<ServerNotification>>,
    subscriptions: SubscriptionSet,
}

impl SystemMCPServer {
    /// The declared capabilities.
    pub closed spec fn capabilities(&self) -> ServerCapabilities {
        self.capabilities
    }

    /// The cancellable calls in flight.
    pub closed spec fn active(&self) -> ActiveCalls {
        self.active_requests@
    }

    /// The URIs that the peer has subscribed to.
    pub closed spec fn subscribed(&self) -> Set<Seq<char>> {
        self.subscriptions@
    }

    /// The receiving end of the notification queue, while it is here.
    pub closed spec fn stream(&self) -> Option<
        tokio::sync::mpsc::UnboundedReceiver<ServerNotification>,
    > {
        self.notification_rx
    }

    /// Whether the receiving end of the notification queue is still here.
    pub open spec fn has_stream(&self) -> bool {
        self.stream() is Some
    }

    /// A builder for a server.
    pub fn builder() -> (builder: ServerBuilder)
        ensures
            builder.capabilities() == no_capabilities(),
    {
        ServerBuilder::default()
    }

    /// The declared capabilities.
    pub fn declared_capabilities(&self) -> (capabilities: &ServerCapabilities)
        ensures
            *capabilities == self.capabilities(),
    {
        &self.capabilities
    }

    /// Whether a cancellable call is in flight under `key`.
    pub fn is_in_flight(&self, key: &str) -> (b: bool)
        ensures
            b == self.active().contains_key(key@),
    {
        self.active_requests.is_active(key)
    }

    /// Whether the peer has subscribed to `uri`.
    pub fn is_subscribed(&self, uri: &str) -> (b: bool)
        ensures
            b == self.subscribed().contains(uri@),
    {
        self.subscriptions.contains(uri)
    }

    /// Gives out the receiving end of the notification queue. There is one,
    /// so only the first call gets it.
    pub fn take_notification_stream(&mut self) -> (stream: Option<NotificationStream>)
        ensures
            stream is Some <==> old(self).has_stream(),
            stream matches Some(s) ==> Some(s.receiver()) == old(self).stream(),
            !final(self).has_stream(),
            final(self).capabilities() == old(self).capabilities(),
            final(self).active() == old(self).active(),
            final(self).subscribed() == old(self).subscribed(),
    {
        match self.notification_rx.take() {
            Some(receiver) => Some(NotificationStream::new(receiver)),
            None => None,
        }
    }

    /// A progress handle bound to `token` that reports into the server's
    /// notification queue.
    pub fn progress_sender(&self, token: Option<ProgressToken>) -> (handle: ProgressSender)
        ensures
            handle.token() == (match token {
                Some(t) => Some(t@),
                None => None,
            }),
    {
        ProgressSender::new(token, self.notification_tx.clone())
    }

    /// Acts on a `notifications/cancelled`: cancels the call registered under
    /// the `requestId` of the `params`, if there is one. Returns the notice
    /// for the cancellation hook where a call was cancelled.
    pub fn handle_cancellation(&mut self, params: Option<RequestParams>) -> (cancelled: Option<
        CancelNotice,
    >)
        ensures
            (match cancelled {
                Some(notice) => Some(notice@),
                None => None,
            }) == cancellation_of(old(self).active(), params_view(params)),
            final(self).active() == (match params {
                Some(p) => match p@.request_id {
                    Some(key) => after_cancel(old(self).active(), key),
                    None => old(self).active(),
                },
                None => old(self).active(),
            }),
            final(self).capabilities() == old(self).capabilities(),
            final(self).subscribed() == old(self).subscribed(),
            final(self).stream() == old(self).stream(),
    {
        match params {
            Some(p) => match p.request_id {
                Some(request_id) => {
                    if self.active_requests.cancel(request_id.as_str()) {
                        Some(CancelNotice { request_id, reason: p.reason })
                    } else {
                        None
                    }
                },
                None => None,
            },
            None => None,
        }
    }

    /// Begins a `tools/call`: registers the call under the key of the
    /// request's id, then plans it. A call that cannot be planned ends at
    /// once and is answered with its error; one that can is handed out with
    /// its cancellation signal and its progress handle.
    pub fn handle_tool_call_with_cancellation(
        &mut self,
        version: JsonRpcVersion,
        id: Option<Value>,
        params: Option<RequestParams>,
        token: Option<ProgressToken>,
    ) -> (dispatch: Dispatch)
        ensures
            dispatch@ == (match tool_call_plan(params_view(params)) {
                Ok(call) => DispatchView::Invoke {
                    pending: PendingCallView {
                        version,
                        id: text_of(id),
                        call,
                        key: Some(request_key_of(text_of(id))),
                    },
                    progress: Some(
                        match token {
                            Some(t) => Some(t@),
                            None => None,
                        },
                    ),
                },
                Err(e) => DispatchView::Reply(shaped(version, text_of(id), Err(e))),
            }),
            dispatch matches Dispatch::Reply(response) ==> response.id == id,
            dispatch matches Dispatch::Invoke { pending, handles } ==> pending.id == id,
            registered(
                old(self).active(),
                final(self).active(),
                request_key_of(text_of(id)),
                dispatch is Invoke,
            ),
            final(self).capabilities() == old(self).capabilities(),
            final(self).subscribed() == old(self).subscribed(),
            final(self).stream() == old(self).stream(),
    {
        let key = request_key(&id);
        let (cancel_tx, cancel_rx) = tokio::sync::oneshot::channel();
        self.active_requests.begin(key.clone(), cancel_tx);
        match handle_tool_call(params) {
            Ok(call) => {
                let progress = ProgressSender::new(token, self.notification_tx.clone());
                Dispatch::Invoke {
                    pending: PendingCall { version, id, call, key: Some(key) },
                    handles: Some(CallHandles { cancel: cancel_rx, progress }),
                }
            },
            Err(e) => {
                self.active_requests.end(key.as_str());
                assert(self.active() == after_end(old(self).active(), key@));
                Dispatch::Reply(shape_response(version, id, Err(e)))
            },
        }
    }

    /// Decides what is to be done about a message.
    pub fn handle(&mut self, req: MCPRequest) -> (dispatch: Dispatch)
        ensures
            dispatch@ == handled(
                old(self).active(),
                old(self).capabilities(),
                req.version_tag(),
                req.id_text(),
                req.method@,
                req.params_view(),
                req.progress_token(),
            ),
            req.id is None <==> dispatch is Silent,
            dispatch matches Dispatch::Reply(response) ==> response.id == req.id,
            dispatch matches Dispatch::Invoke { pending, handles } ==> pending.id == req.id,
            req.id is Some && !is_known_method(req.method@) ==> (dispatch matches Dispatch::Reply(
                response,
            ) && response@.error is Some && response@.error->Some_0.code == METHOD_NOT_FOUND),
            (match touched_key(req.id_text(), req.method@, req.params_view()) {
                Some(key) => if req.id is None {
                    final(self).active() == after_cancel(old(self).active(), key)
                } else {
                    registered(old(self).active(), final(self).active(), key, dispatch is Invoke)
                },
                None => final(self).active() == old(self).active(),
            }),
            final(self).capabilities() == old(self).capabilities(),
            final(self).subscribed() == old(self).subscribed(),
            final(self).stream() == old(self).stream(),
    {
        let version = match validate_and_detect_version(&req) {
            Ok(version) => version,
            Err(_) => JsonRpcVersion::V2_0,
        };
        let ghost tag = req.version_tag();
        let ghost id_text = req.id_text();
        let ghost params_spec = req.params_view();
        let MCPRequest { jsonrpc: _, id, method, params, meta } = req;
        let params = match params {
            Some(document) => Some(RequestParams::read(document)),
            None => None,
        };
        assert(params_view(params) == params_spec);
        proof {
            if !is_known_method(method@) {
                lemma_unknown_method_is_answered(
                    self.active(),
                    self.capabilities(),
                    tag,
                    request_key_of(id_text),
                    method@,
                    params_spec,
                    None,
                );
            }
        }
        if id.is_none() {
            let cancelled = if method.as_str().eq("notifications/cancelled") {
                self.handle_cancellation(params)
            } else {
                None
            };
            return Dispatch::Silent { cancelled };
        }
        if method.as_str().eq("tools/call") {
            proof {
                lemma_tool_call_route(params_spec, self.capabilities());
            }
            let token = match meta {
                Some(meta) => meta.progress_token,
                None => None,
            };
            return self.handle_tool_call_with_cancellation(version, id, params, token);
        }
        match route(method.as_str(), params, &self.capabilities) {
            Ok(call) => Dispatch::Invoke {
                pending: PendingCall { version, id, call, key: None },
                handles: None,
            },
            Err(e) => Dispatch::Reply(shape_response(version, id, Err(e))),
        }
    }

    /// Completes a pending call on what the runtime reports of it: settles
    /// the race with the cancellation, ends the call in the registry, records
    /// a subscription or its end where the operation succeeded, and returns
    /// the response.
    pub fn complete(&mut self, pending: PendingCall, event: CallEvent) -> (response: MCPResponse)
        ensures
            response@ == completed(pending@, event@),
            response.id == pending.id,
            final(self).active() == active_after(old(self).active(), pending@.key),
            final(self).subscribed() == subscriptions_after(
                old(self).subscribed(),
                pending@.call,
                settled(event@, request_key_of(pending@.key)) is Ok,
            ),
            final(self).capabilities() == old(self).capabilities(),
            final(self).stream() == old(self).stream(),
    {
        let PendingCall { version, id, call, key } = pending;
        let outcome = match key {
            Some(key) => {
                let outcome = settle(event, key.as_str());
                self.active_requests.end(key.as_str());
                outcome
            },
            None => settle(event, "unknown"),
        };
        if outcome.is_ok() {
            match call {
                CapabilityCall::Subscribe { uri } => {
                    self.subscriptions.insert(uri);
                },
                CapabilityCall::Unsubscribe { uri } => {
                    self.subscriptions.remove(uri.as_str());
                },
                _ => {},
            }
        }
        shape_response(version, id, outcome)
    }
}

} // verus!
