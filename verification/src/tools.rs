//! The data that capabilities exchange with the peer: descriptions of tools,
//! resources and prompts, and the results of calls.
//!
//! Numbers with a fraction are held by their binary64 bit pattern.

use serde_json::Value;
use std::collections::HashMap;
use vstd::prelude::*;

verus! {

/// The name and version of an implementation of the protocol.
#[derive(Debug, Clone)]
pub struct Implementation {
    pub name: String,
    pub version: String,
    pub title: Option<String>,
}

/// Hints for the client on how to show or use a piece of content.
#[derive(Debug, Clone)]
pub struct Annotations {
    /// Between 0 and 1; the bit pattern of a binary64 number.
    pub priority: Option<u64>,
    /// An ISO 8601 timestamp.
    pub last_modified: Option<String>,
    /// For whom the content is meant, such as "user" or "assistant".
    pub audience: Option<Vec<String>>,
}

impl Default for Annotations {
    fn default() -> (a: Annotations)
        ensures
            a.priority is None,
            a.last_modified is None,
            a.audience is None,
    {
        Annotations { priority: None, last_modified: None, audience: None }
    }
}

/// A block of content: text, an image, audio, or a resource.
#[derive(Debug, Clone)]
pub enum ContentBlock {
    Text(TextContent),
    Image(ImageContent),
    Audio(AudioContent),
    ResourceLink(ResourceLink),
    EmbeddedResource(EmbeddedResource),
}

/// Text given to or produced by a model.
#[derive(Debug, Clone)]
pub struct TextContent {
    pub text: String,
    pub annotations: Option<Annotations>,
}

/// An image, base64-encoded.
#[derive(Debug, Clone)]
pub struct ImageContent {
    pub data: String,
    pub mime_type: String,
    pub annotations: Option<Annotations>,
}

/// Audio, base64-encoded.
#[derive(Debug, Clone)]
pub struct AudioContent {
    pub data: String,
    pub mime_type: String,
    pub annotations: Option<Annotations>,
}

/// The result of a tool call.
#[derive(Debug, Clone)]
pub struct CallToolResult {
    pub content: Vec<ContentBlock>,
    pub structured_content: Option<Value>,
    pub is_error: bool,
}

/// The result of reading a resource.
#[derive(Debug, Clone)]
pub struct ReadResourceResult {
    pub contents: Vec<ResourceContents>,
}

/// What a resource holds: text or binary data.
#[derive(Debug, Clone)]
pub enum ResourceContents {
    Text(TextResourceContents),
    Blob(BlobResourceContents),
}

#[derive(Debug, Clone)]
pub struct TextResourceContents {
    pub uri: String,
    pub mime_type: Option<String>,
    pub text: String,
}

#[derive(Debug, Clone)]
pub struct BlobResourceContents {
    pub uri: String,
    pub mime_type: Option<String>,
    /// Base64-encoded.
    pub blob: String,
}

/// The description of a tool.
#[derive(Debug, Clone)]
pub struct Tool {
    pub name: String,
    pub title: Option<String>,
    pub description: Option<String>,
    pub input_schema: ToolInputSchema,
    pub output_schema: Option<ToolInputSchema>,
    pub annotations: Option<ToolAnnotations>,
}

/// A resource that the server can read.
#[derive(Debug, Clone)]
pub struct Resource {
    pub uri: String,
    pub name: String,
    pub title: Option<String>,
    pub description: Option<String>,
    pub mime_type: Option<String>,
    pub size: Option<u64>,
    pub annotations: Option<Annotations>,
}

/// A link to a resource, within a prompt or the result of a tool call.
#[derive(Debug, Clone)]
pub struct ResourceLink {
    pub uri: String,
    pub name: String,
    pub title: Option<String>,
    pub description: Option<String>,
    pub mime_type: Option<String>,
    pub size: Option<u64>,
    pub annotations: Option<Annotations>,
}

/// The contents of a resource, embedded in a prompt or the result of a tool
/// call.
#[derive(Debug, Clone)]
pub struct EmbeddedResource {
    pub resource: ResourceContents,
    pub annotations: Option<Annotations>,
}

/// A prompt or prompt template that the server offers.
#[derive(Debug, Clone)]
pub struct Prompt {
    pub name: String,
    pub title: Option<String>,
    pub description: Option<String>,
    pub arguments: Option<Vec<PromptArgument>>,
}

/// An argument that a prompt accepts.
#[derive(Debug, Clone)]
pub struct PromptArgument {
    pub name: String,
    pub title: Option<String>,
    pub description: Option<String>,
    pub required: bool,
}

/// One message of a prompt.
#[derive(Debug, Clone)]
pub struct PromptMessage {
    pub role: String,
    pub content: ContentBlock,
}

/// The result of getting a prompt.
#[derive(Debug, Clone)]
pub struct GetPromptResult {
    pub description: Option<String>,
    pub messages: Vec<PromptMessage>,
}

/// The schema of a tool's input or output.
#[derive(Debug, Clone)]
pub struct ToolInputSchema {
    pub schema_type: String,
    pub properties: HashMap<String, Value>,
    pub required: Vec<String>,
}

/// Hints that describe a tool to clients.
#[derive(Debug, Clone)]
pub struct ToolAnnotations {
    pub read_only_hint: Option<bool>,
    pub idempotent_hint: Option<bool>,
}

impl Default for ToolAnnotations {
    fn default() -> (a: ToolAnnotations)
        ensures
            a.read_only_hint is None,
            a.idempotent_hint is None,
    {
        ToolAnnotations { read_only_hint: None, idempotent_hint: None }
    }
}

/// The answer to `initialize`.
#[derive(Debug, Clone)]
pub struct InitializeResponse {
    pub protocol_version: String,
    pub server_info: Implementation,
    pub capabilities: ServerCapabilities,
}

/// The capability groups that a server supports. A group that is declared
/// holds a JSON object with the group's settings.
#[derive(Debug)]
pub struct ServerCapabilities {
    pub tools: Option<Value>,
    pub prompts: Option<Value>,
    pub resources: Option<Value>,
    pub completions: Option<Value>,
    pub logging: Option<Value>,
}

/// The capabilities of a server that declares no group.
pub open spec fn no_capabilities() -> ServerCapabilities {
    ServerCapabilities {
        tools: None,
        prompts: None,
        resources: None,
        completions: None,
        logging: None,
    }
}

impl Default for ServerCapabilities {
    fn default() -> (c: ServerCapabilities)
        ensures
            c == no_capabilities(),
    {
        ServerCapabilities {
            tools: None,
            prompts: None,
            resources: None,
            completions: None,
            logging: None,
        }
    }
}

impl Clone for ServerCapabilities {
    fn clone(&self) -> (copy: ServerCapabilities)
        ensures
            copy == *self,
    {
        ServerCapabilities {
            tools: self.tools.clone(),
            prompts: self.prompts.clone(),
            resources: self.resources.clone(),
            completions: self.completions.clone(),
            logging: self.logging.clone(),
        }
    }
}

#[derive(Debug, Clone)]
pub struct LegacyServerInfo {
    pub name: String,
    pub version: String,
}

#[derive(Debug, Clone)]
pub struct LegacyToolProperty {
    pub property_type: String,
    pub description: String,
    pub default: Option<Value>,
}

} // verus!
