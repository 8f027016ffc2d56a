//! Provider-agnostic conversation types.

use vstd::prelude::*;
use vstd::string::StringExecFns;

verus! {

/// One turn of a conversation.
///
/// For the `assistant` and `tool` roles the content may itself be a JSON
/// envelope that carries tool calls or a tool result.
#[derive(Debug, Clone)]
pub struct ChatMessage {
    pub role: String,
    pub content: String,
}

/// What a [`ChatMessage`] holds.
pub ghost struct ChatMessageView {
    pub role: Seq<char>,
    pub content: Seq<char>,
}

impl View for ChatMessage {
    type V = ChatMessageView;

    open spec fn view(&self) -> ChatMessageView {
        ChatMessageView { role: self.role@, content: self.content@ }
    }
}

impl ChatMessage {
    /// A message with the `system` role.
    pub fn system(content: &str) -> (r: ChatMessage)
        ensures
            r@ == (ChatMessageView { role: "system"@, content: content@ }),
    {
        ChatMessage { role: String::from_str("system"), content: String::from_str(content) }
    }

    /// A message with the `user` role.
    pub fn user(content: &str) -> (r: ChatMessage)
        ensures
            r@ == (ChatMessageView { role: "user"@, content: content@ }),
    {
        ChatMessage { role: String::from_str("user"), content: String::from_str(content) }
    }

    /// A message with the `assistant` role.
    pub fn assistant(content: &str) -> (r: ChatMessage)
        ensures
            r@ == (ChatMessageView { role: "assistant"@, content: content@ }),
    {
        ChatMessage { role: String::from_str("assistant"), content: String::from_str(content) }
    }

    /// A message with the `tool` role.
    pub fn tool(content: &str) -> (r: ChatMessage)
        ensures
            r@ == (ChatMessageView { role: "tool"@, content: content@ }),
    {
        ChatMessage { role: String::from_str("tool"), content: String::from_str(content) }
    }
}

/// A request by the model to invoke a named function.
#[derive(Debug, Clone)]
pub struct ToolCall {
    /// Identifier given by whoever first produced the call.
    pub id: String,
    /// Name of the function.
    pub name: String,
    /// The arguments, as JSON text.
    pub arguments: String,
}

/// What a [`ToolCall`] holds.
pub ghost struct ToolCallView {
    pub id: Seq<char>,
    pub name: Seq<char>,
    pub arguments: Seq<char>,
}

impl View for ToolCall {
    type V = ToolCallView;

    open spec fn view(&self) -> ToolCallView {
        ToolCallView { id: self.id@, name: self.name@, arguments: self.arguments@ }
    }
}

/// The view of an optional tool call.
pub open spec fn opt_tool_call_view(call: Option<ToolCall>) -> Option<ToolCallView> {
    match call {
        Some(c) => Some(c@),
        None => None,
    }
}

/// The views of a sequence of tool calls.
pub open spec fn tool_call_views(calls: Seq<ToolCall>) -> Seq<ToolCallView> {
    calls.map_values(|c: ToolCall| c@)
}

/// The normalized result of a chat completion.
#[derive(Debug, Clone)]
pub struct ChatResponse {
    /// The text of the reply, if any.
    pub text: Option<String>,
    /// The tool calls of the reply, in order.
    pub tool_calls: Vec<ToolCall>,
}

/// The text of an optional string.
pub open spec fn opt_text(s: Option<String>) -> Option<Seq<char>> {
    match s {
        Some(s) => Some(s@),
        None => None,
    }
}

/// The text of an optional string slice.
pub open spec fn opt_str_text(s: Option<&str>) -> Option<Seq<char>> {
    match s {
        Some(s) => Some(s@),
        None => None,
    }
}

} // verus!
