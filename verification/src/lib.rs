//! The protocol core of a server for the Model Context Protocol (MCP): the
//! message model for both JSON-RPC versions, the error taxonomy, method
//! routing, the cancellation registry and the notification side-channel.
//!
//! The core never waits. Where a capability operation has to run, `handle`
//! hands the operation out and `complete` takes its outcome back, so the
//! surrounding runtime is free to run operations concurrently.

pub mod bash;
pub mod channel;
pub mod error;
pub mod json;
pub mod keyed;
pub mod notifications;
pub mod registry;
pub mod request;
pub mod response;
pub mod routing;
pub mod server;
pub mod text;
pub mod tools;

pub use error::{JsonRpcError, MCPError};
pub use notifications::{ProgressSender, ServerNotification};
pub use request::{MCPRequest, ProgressToken, RequestMeta, RequestParams};
pub use response::MCPResponse;
pub use routing::CapabilityCall;
pub use server::{
    CallEvent, Dispatch, JsonRpcVersion, NotificationStream, PendingCall, ServerBuilder,
    SystemMCPServer,
};
pub use tools::{
    Annotations, AudioContent, BlobResourceContents, CallToolResult, ContentBlock,
    EmbeddedResource, GetPromptResult, ImageContent, Implementation, InitializeResponse, Prompt,
    PromptArgument, PromptMessage, ReadResourceResult, Resource, ResourceContents, ResourceLink,
    ServerCapabilities, TextContent, TextResourceContents, Tool, ToolAnnotations, ToolInputSchema,
};
