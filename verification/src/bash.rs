//! The parts of a capability provider with a single tool, `bash`, that
//! decide without running anything: what it declares and offers, how it
//! reads the arguments of a call, and how it reports what a command did.

use crate::error::{MCPError, MCPErrorView};
use crate::json::{
    empty_object, json_string_member, json_text, json_u64_member, string_member, u64_member,
};
use crate::request::chars_of;
use crate::text::{decimal, i32_text, u64_text};
use crate::tools::{
    CallToolResult, ContentBlock, GetPromptResult, Implementation, Prompt, PromptMessage,
    ServerCapabilities, TextContent,
};
use serde_json::Value;
use vstd::prelude::*;
use vstd::string::StringExecFns;

verus! {

/// The seconds that a command may run where the call sets no `timeout`.
pub const DEFAULT_TIMEOUT_SECONDS: u64 = 30;

/// The exit code reported for a command that ended without one.
pub const NO_EXIT_CODE: i32 = -1;

/// A capability provider that runs shell commands.
pub struct BashToolHandler;

/// The single text block that a result consists of.
pub open spec fn is_text_result(result: CallToolResult, text: Seq<char>, is_error: bool) -> bool {
    &&& result.content.len() == 1
    &&& result.content[0] matches ContentBlock::Text(block)
    &&& block.text@ == text
    &&& block.annotations is None
    &&& result.structured_content is None
    &&& result.is_error == is_error
}

/// The report of what a command did: its exit code, then what it wrote to
/// standard output and to standard error, each under a heading and only
/// where there is any.
pub open spec fn output_report(code: int, stdout: Seq<char>, stderr: Seq<char>) -> Seq<char> {
    "Exit code: "@ + decimal(code) + "\n"@ + (if stdout.len() > 0 {
        "\nSTDOUT:\n"@ + stdout
    } else {
        Seq::<char>::empty()
    }) + (if stderr.len() > 0 {
        "\nSTDERR:\n"@ + stderr
    } else {
        Seq::<char>::empty()
    })
}

/// The text that reports a command that ran out of time.
pub open spec fn timeout_report(seconds: u64) -> Seq<char> {
    "Command timed out after "@ + decimal(seconds as int) + " seconds"@
}

/// The command of a call: the one that its arguments hold, or the error for
/// a call without one.
pub open spec fn command_or_error(found: Option<Seq<char>>) -> Result<Seq<char>, MCPErrorView> {
    match found {
        Some(command) => Ok(command),
        None => Err(MCPErrorView::MissingParameters("Missing required 'command' parameter"@)),
    }
}

/// The view of an extracted command.
pub open spec fn command_view(command: Result<String, MCPError>) -> Result<Seq<char>, MCPErrorView> {
    match command {
        Ok(c) => Ok(c@),
        Err(e) => Err(e@),
    }
}

/// A result that consists of one block of text.
fn text_result(text: String, is_error: bool) -> (result: CallToolResult)
    ensures
        is_text_result(result, text@, is_error),
{
    let mut content: Vec<ContentBlock> = Vec::new();
    content.push(ContentBlock::Text(TextContent { text, annotations: None }));
    CallToolResult { content, structured_content: None, is_error }
}

impl BashToolHandler {
    /// Declares the groups that the provider supports: tools, resources,
    /// prompts and completions, each without settings.
    pub fn setup_capabilities(capabilities: &mut ServerCapabilities)
        ensures
            final(capabilities).tools matches Some(v) && json_text(v) == "{}"@,
            final(capabilities).resources matches Some(v) && json_text(v) == "{}"@,
            final(capabilities).prompts matches Some(v) && json_text(v) == "{}"@,
            final(capabilities).completions matches Some(v) && json_text(v) == "{}"@,
            final(capabilities).logging == old(capabilities).logging,
    {
        capabilities.tools = Some(empty_object());
        capabilities.resources = Some(empty_object());
        capabilities.prompts = Some(empty_object());
        capabilities.completions = Some(empty_object());
    }

    /// The name and version under which the provider presents itself.
    pub fn create_server_info() -> (info: Implementation)
        ensures
            info.name@ == "simple-mcp-server"@,
            info.version@ == "0.1.0"@,
            info.title matches Some(title) && title@ == "Simple Bash Server"@,
    {
        Implementation {
            name: "simple-mcp-server".to_owned(),
            version: "0.1.0".to_owned(),
            title: Some("Simple Bash Server".to_owned()),
        }
    }

    /// The one prompt that the provider offers.
    pub fn create_hello_prompt() -> (prompt: Prompt)
        ensures
            prompt.name@ == "hello"@,
            prompt.title matches Some(title) && title@ == "Hello World Prompt"@,
            prompt.description matches Some(d) && d@ == "A simple prompt that says hello."@,
            prompt.arguments is None,
    {
        Prompt {
            name: "hello".to_owned(),
            title: Some("Hello World Prompt".to_owned()),
            description: Some("A simple prompt that says hello.".to_owned()),
            arguments: None,
        }
    }

    /// What the prompt `hello` consists of: one message of the user.
    pub fn create_hello_prompt_result() -> (result: GetPromptResult)
        ensures
            result.description matches Some(d) && d@ == "A friendly greeting."@,
            result.messages.len() == 1,
            result.messages[0].role@ == "user"@,
            result.messages[0].content matches ContentBlock::Text(block) && block.text@
                == "Hello, world!"@ && block.annotations is None,
    {
        let mut messages: Vec<PromptMessage> = Vec::new();
        messages.push(
            PromptMessage {
                role: "user".to_owned(),
                content: ContentBlock::Text(
                    TextContent { text: "Hello, world!".to_owned(), annotations: None },
                ),
            },
        );
        GetPromptResult { description: Some("A friendly greeting.".to_owned()), messages }
    }

    /// The command of a call: the string under `command` in its arguments.
    pub fn extract_command(args: &Value) -> (command: Result<String, MCPError>)
        ensures
            command_view(command) == command_or_error(json_string_member(*args, "command"@)),
    {
        BashToolHandler::command_or_missing(string_member(args, "command"))
    }

    /// The command that was found, or the error for a call without one.
    pub fn command_or_missing(found: Option<String>) -> (command: Result<String, MCPError>)
        ensures
            command_view(command) == command_or_error(chars_of(found)),
    {
        match found {
            Some(command) => Ok(command),
            None => Err(
                MCPError::MissingParameters("Missing required 'command' parameter".to_owned()),
            ),
        }
    }

    /// The seconds that the command of a call may run: the number under
    /// `timeout` in its arguments, or the default.
    pub fn extract_timeout(args: &Value) -> (seconds: u64)
        ensures
            seconds == (match json_u64_member(*args, "timeout"@) {
                Some(n) => n,
                None => DEFAULT_TIMEOUT_SECONDS,
            }),
    {
        BashToolHandler::timeout_or_default(u64_member(args, "timeout"))
    }

    /// The timeout that was found, or the default.
    pub fn timeout_or_default(found: Option<u64>) -> (seconds: u64)
        ensures
            seconds == (match found {
                Some(n) => n,
                None => DEFAULT_TIMEOUT_SECONDS,
            }),
    {
        match found {
            Some(n) => n,
            None => DEFAULT_TIMEOUT_SECONDS,
        }
    }

    /// The result of a call whose command has ended, from its exit code,
    /// if it has one, and what it wrote. The call failed where the command
    /// did not succeed.
    pub fn handle_command_output(
        code: Option<i32>,
        succeeded: bool,
        stdout: &str,
        stderr: &str,
    ) -> (result: CallToolResult)
        ensures
            is_text_result(
                result,
                output_report(
                    match code {
                        Some(c) => c as int,
                        None => NO_EXIT_CODE as int,
                    },
                    stdout@,
                    stderr@,
                ),
                !succeeded,
            ),
    {
        text_result(BashToolHandler::format_output(code, stdout, stderr), !succeeded)
    }

    /// The result of a call whose command ran out of time: a failure.
    pub fn handle_timeout(timeout_seconds: u64) -> (result: CallToolResult)
        ensures
            is_text_result(result, timeout_report(timeout_seconds), true),
    {
        let mut text = "Command timed out after ".to_owned();
        text.append(u64_text(timeout_seconds).as_str());
        text.append(" seconds");
        text_result(text, true)
    }

    /// The report of what a command did.
    pub fn format_output(code: Option<i32>, stdout: &str, stderr: &str) -> (text: String)
        ensures
            text@ == output_report(
                match code {
                    Some(c) => c as int,
                    None => NO_EXIT_CODE as int,
                },
                stdout@,
                stderr@,
            ),
    {
        let code = match code {
            Some(c) => c,
            None => NO_EXIT_CODE,
        };
        let mut text = "Exit code: ".to_owned();
        text.append(i32_text(code).as_str());
        text.append("\n");
        if !stdout.is_empty() {
            text.append("\nSTDOUT:\n");
            text.append(stdout);
        }
        if !stderr.is_empty() {
            text.append("\nSTDERR:\n");
            text.append(stderr);
        }
        text
    }
}

} // verus!
