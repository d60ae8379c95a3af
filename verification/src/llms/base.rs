//! What the model adapters exchange: chat messages, tool declarations, errors.
use vstd::prelude::*;

use crate::json::{JsonModel, JsonValue};

verus! {

/// Role of a chat message.
#[derive(Clone, Copy, Debug, PartialEq, Eq, Structural)]
pub enum Role {
    System,
    User,
    Assistant,
}

/// A chat message: its role and its content, text or structured parts.
#[derive(Debug)]
pub struct Message {
    pub role: Role,
    pub content: JsonValue,
}

impl Message {
    /// A message whose content is plain text.
    pub fn new(role: Role, text: String) -> (m: Message)
        ensures
            m.role == role,
            m.content@ == JsonModel::Str(text@),
    {
        Message { role, content: JsonValue::String(text) }
    }
}

/// A tool the model may call: its name, what it does, and the JSON schema of
/// its arguments.
#[derive(Debug)]
pub struct Tool {
    pub name: String,
    pub description: String,
    pub parameters: JsonValue,
}

impl Tool {
    pub fn new(name: String, description: String, parameters: JsonValue) -> (t: Tool)
        ensures
            t.name@ == name@,
            t.description@ == description@,
            t.parameters@ == parameters@,
    {
        Tool { name, description, parameters }
    }
}

/// Errors of the model adapters.
#[derive(Debug)]
pub enum LlmError {
    Request(String),
    MissingLogprobs,
    InvalidResponse,
}

/// The error for a tool that the model asked for but that has nothing to run.
pub fn missing_executor_error(tool_name: &str) -> (e: LlmError)
    ensures
        e matches LlmError::Request(m) && m@ == "Tool '"@ + tool_name@ + "' was requested but has no executor"@,
{
    let mut m = String::from_str("Tool '");
    m.append(tool_name);
    m.append("' was requested but has no executor");
    LlmError::Request(m)
}

} // verus!
