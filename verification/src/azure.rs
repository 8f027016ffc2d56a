//! The Azure OpenAI provider: where requests go, what is sent and how the
//! response is read. Transport is left to the caller.

use crate::ids::fresh_call_id;
use crate::json::{json_doc, object_value, JsonDoc};
use crate::openai_wire::{
    convert_messages, lemma_other_roles_are_plain, lemma_role_names, native_message_views,
    native_tool_call_views, native_tool_spec_views, plain_message, wire_messages, NativeMessage,
    NativeToolCall, NativeToolCallView, NativeToolFunctionSpec, NativeToolSpec,
    NativeToolSpecView,
};
use crate::serialize::{lemma_wire_keys, opt_tool_spec_views, request_entries, request_fields};
use crate::text::{
    contains, contains_text, strip_trailing, strip_trailing_len, substring, to_chars,
};
use crate::tools::ToolSpec;
use crate::traits::{
    opt_str_text, opt_text, ChatMessage, ChatMessageView, ChatResponse, ToolCall, ToolCallView,
};
use vstd::prelude::*;
use vstd::string::StringExecFns;

verus! {

/// An Azure OpenAI resource or deployment, with the key to use it.
pub struct AzureOpenAiProvider {
    /// Base URL of the resource or of a deployment; [`AzureOpenAiProvider::new`]
    /// stores it without trailing slashes.
    pub base_url: String,
    pub api_key: Option<String>,
}

/// What can go wrong before a request is sent or when a response is read.
#[derive(Debug, Clone, PartialEq, Eq)]
pub enum ProviderError {
    /// No API key is configured.
    MissingApiKey,
    /// The response holds no choice.
    NoChoices,
    /// The first choice of the response holds no text.
    NoContent,
    /// The tool specification at `index` is not valid.
    InvalidToolSpec { index: usize, reason: String },
}

/// How an HTTP status is to be treated.
#[derive(Debug, Clone, Copy, PartialEq, Eq, Structural)]
pub enum StatusOutcome {
    /// 200 to 299: the body is a chat response.
    Success,
    /// 404: most often a model name that matches no deployment.
    NotFound,
    /// Any other status.
    Failure,
}

/// The message of a chat response that carries text and tool calls.
#[derive(Debug)]
pub struct NativeResponseMessage {
    pub content: Option<String>,
    pub tool_calls: Option<Vec<NativeToolCall>>,
}

/// One candidate of a chat response.
#[derive(Debug)]
pub struct NativeChoice {
    pub message: NativeResponseMessage,
}

/// A chat response: its candidates, in order.
#[derive(Debug)]
pub struct NativeChatResponse {
    pub choices: Vec<NativeChoice>,
}

/// The body of a chat-completion request to Azure, which takes the model
/// from the URL.
#[derive(Debug)]
pub struct AzureChatRequest {
    pub messages: Vec<NativeMessage>,
    /// The sampling temperature, as a JSON number.
    pub temperature: serde_json::Value,
    /// The tools on offer; absent where none are offered.
    pub tools: Option<Vec<NativeToolSpec>>,
    /// `auto` where tools are offered, absent otherwise.
    pub tool_choice: Option<String>,
}

/// The API version that is asked for where the base URL names none.
pub open spec fn api_version_query() -> Seq<char> {
    "api-version=2024-02-15-preview"@
}

/// The URL that a chat completion for `model` is posted to.
///
/// A base URL that already names a deployment is used as it is, with the
/// API version added where it is missing. Any other base URL is taken as
/// the resource, and `model` as the deployment.
pub open spec fn deployment_url(base_url: Seq<char>, model: Seq<char>) -> Seq<char> {
    let base = strip_trailing(base_url, '/');
    if contains(base, "/openai/deployments/"@) {
        if contains(base, "api-version="@) {
            base
        } else if contains(base, "?"@) {
            base + "&"@ + api_version_query()
        } else {
            base + "?"@ + api_version_query()
        }
    } else {
        base + "/openai/deployments/"@ + model + "/chat/completions?"@ + api_version_query()
    }
}

/// The wire form of a tool: the type `function` and the tool's own fields.
pub open spec fn wire_tool_spec(tool: ToolSpec) -> NativeToolSpecView {
    NativeToolSpecView {
        kind: "function"@,
        name: tool.name@,
        description: tool.description@,
        parameters: tool.parameters,
    }
}

/// The wire forms of the tools on offer, in order; absent where no tools
/// are given.
pub open spec fn wire_tool_specs(tools: Option<&[ToolSpec]>) -> Option<Seq<NativeToolSpecView>> {
    match tools {
        Some(tools) => Some(tools@.map_values(|t: ToolSpec| wire_tool_spec(t))),
        None => None,
    }
}

/// The tool calls of a response message; none where the field is absent.
pub open spec fn response_calls(message: NativeResponseMessage) -> Seq<NativeToolCallView> {
    match message.tool_calls {
        Some(calls) => native_tool_call_views(calls@),
        None => Seq::empty(),
    }
}

/// The provider-agnostic form of the wire call `wire`, where `fresh_id`
/// stands in for a missing identifier.
pub open spec fn resolved_tool_call(wire: NativeToolCallView, fresh_id: Seq<char>) -> ToolCallView {
    ToolCallView {
        id: match wire.id {
            Some(id) => id,
            None => fresh_id,
        },
        name: wire.name,
        arguments: wire.arguments,
    }
}

/// Whether `call` is the wire call `wire` with its identifier kept, or, where
/// it has none, with a generated identifier of 36 characters.
pub open spec fn resolves(wire: NativeToolCallView, call: ToolCallView) -> bool {
    &&& call.name == wire.name
    &&& call.arguments == wire.arguments
    &&& match wire.id {
        Some(id) => call.id == id,
        None => call.id.len() == 36,
    }
}

/// Whether `response` is the normalized form of `message`: the same text,
/// and each tool call resolved, in order.
pub open spec fn normalizes(message: NativeResponseMessage, response: ChatResponse) -> bool {
    &&& opt_text(response.text) == opt_text(message.content)
    &&& response.tool_calls@.len() == response_calls(message).len()
    &&& forall|i: int|
        0 <= i < response.tool_calls@.len() ==> resolves(
            response_calls(message)[i],
            #[trigger] response.tool_calls@[i]@,
        )
}

/// The messages of a simple exchange: the system prompt, if there is one,
/// then the user's message.
pub open spec fn prompt_sequence(
    system_prompt: Option<Seq<char>>,
    message: Seq<char>,
) -> Seq<ChatMessageView> {
    let user = ChatMessageView { role: "user"@, content: message };
    match system_prompt {
        Some(prompt) => seq![ChatMessageView { role: "system"@, content: prompt }, user],
        None => seq![user],
    }
}

/// Whether every entry before index `i` is a valid tool specification.
pub open spec fn valid_before(parsed: Seq<Result<NativeToolSpec, String>>, i: int) -> bool {
    forall|j: int| 0 <= j < i ==> (#[trigger] parsed[j]) is Ok
}

/// The wire tool choice for the tools on offer: `auto` exactly when there
/// are tools.
pub open spec fn tool_choice_of(tools: Option<Vec<NativeToolSpec>>) -> Option<Seq<char>> {
    if tools is Some {
        Some("auto"@)
    } else {
        None
    }
}

/// In a normalized response every tool call that arrived without an
/// identifier has one, and it is not empty; every other call keeps its own.
pub proof fn lemma_normalized_ids(message: NativeResponseMessage, response: ChatResponse, i: int)
    requires
        normalizes(message, response),
        0 <= i < response.tool_calls@.len(),
    ensures
        match response_calls(message)[i].id {
            Some(id) => response.tool_calls@[i].id@ == id,
            None => response.tool_calls@[i].id@.len() > 0,
        },
{
    assert(resolves(response_calls(message)[i], response.tool_calls@[i]@));
}

/// Two calls that arrive without an identifier and are given different
/// fresh identifiers end with different identifiers.
pub proof fn lemma_fresh_ids_stay_apart(
    a: NativeToolCallView,
    b: NativeToolCallView,
    fresh_a: Seq<char>,
    fresh_b: Seq<char>,
)
    requires
        a.id is None,
        b.id is None,
        fresh_a != fresh_b,
    ensures
        resolved_tool_call(a, fresh_a).id != resolved_tool_call(b, fresh_b).id,
{
}

/// What an error is reported as.
pub open spec fn error_message(error: ProviderError) -> Seq<char> {
    match error {
        ProviderError::MissingApiKey => "Azure OpenAI API key not set."@,
        ProviderError::NoChoices => "No response from Azure OpenAI"@,
        ProviderError::NoContent => "No response from Azure OpenAI"@,
        ProviderError::InvalidToolSpec { index, reason } => "Invalid tool spec: "@ + reason@,
    }
}

impl ProviderError {
    /// The message that the error is reported with.
    pub fn message(&self) -> (r: String)
        ensures
            r@ == error_message(*self),
    {
        match self {
            ProviderError::MissingApiKey => String::from_str("Azure OpenAI API key not set."),
            ProviderError::NoChoices => String::from_str("No response from Azure OpenAI"),
            ProviderError::NoContent => String::from_str("No response from Azure OpenAI"),
            ProviderError::InvalidToolSpec { index, reason } => String::from_str(
                "Invalid tool spec: ",
            ).concat(reason.as_str()),
        }
    }
}

/// Decides how a response with HTTP status `code` is to be treated.
pub fn status_outcome(code: u16) -> (r: StatusOutcome)
    ensures
        r == if 200 <= code < 300 {
            StatusOutcome::Success
        } else if code == 404 {
            StatusOutcome::NotFound
        } else {
            StatusOutcome::Failure
        },
{
    if 200 <= code && code < 300 {
        StatusOutcome::Success
    } else if code == 404 {
        StatusOutcome::NotFound
    } else {
        StatusOutcome::Failure
    }
}

/// The provider-agnostic form of a wire tool call; `fresh_id` is used where
/// the wire call carries no identifier. The wire's `type` is dropped.
pub fn resolve_tool_call(call: NativeToolCall, fresh_id: String) -> (r: ToolCall)
    ensures
        r@ == resolved_tool_call(call@, fresh_id@),
{
    let id = match call.id {
        Some(id) => id,
        None => fresh_id,
    };
    ToolCall { id, name: call.function.name, arguments: call.function.arguments }
}

/// The messages of a simple exchange: the system prompt, if there is one,
/// then the user's message.
pub fn prompt_messages(system_prompt: Option<&str>, message: &str) -> (r: Vec<ChatMessage>)
    ensures
        r@.map_values(|m: ChatMessage| m@) == prompt_sequence(
            opt_str_text(system_prompt),
            message@,
        ),
{
    let mut messages: Vec<ChatMessage> = Vec::new();
    match system_prompt {
        Some(prompt) => {
            messages.push(ChatMessage::system(prompt));
        },
        None => {},
    }
    messages.push(ChatMessage::user(message));
    messages
}

/// The value of `tool_choice` in a request: `auto` exactly when tools are
/// offered.
pub fn tool_choice_for(tools: &Option<Vec<NativeToolSpec>>) -> (r: Option<String>)
    ensures
        opt_text(r) == tool_choice_of(*tools),
{
    match tools {
        Some(_) => Some(String::from_str("auto")),
        None => None,
    }
}

/// Gathers tool specifications that arrived as JSON and were read one by
/// one: `parsed[i]` is the `i`-th specification, or why it is not one.
///
/// No specifications at all means that no tools are offered. Otherwise the
/// first entry that is not a specification fails the whole request, with
/// its index and its reason.
pub fn collect_tool_specs(parsed: Vec<Result<NativeToolSpec, String>>) -> (r: Result<
    Option<Vec<NativeToolSpec>>,
    ProviderError,
>)
    ensures
        match r {
            Ok(None) => parsed@.len() == 0,
            Ok(Some(tools)) => {
                &&& parsed@.len() > 0
                &&& valid_before(parsed@, parsed@.len() as int)
                &&& tools@.len() == parsed@.len()
                &&& forall|i: int| 0 <= i < tools@.len() ==> parsed@[i] == Ok::<
                    NativeToolSpec,
                    String,
                >(#[trigger] tools@[i])
            },
            Err(ProviderError::InvalidToolSpec { index, reason }) => {
                &&& index < parsed@.len()
                &&& valid_before(parsed@, index as int)
                &&& parsed@[index as int] matches Err(why)
                &&& reason@ == why@
            },
            Err(_) => false,
        },
{
    if parsed.len() == 0 {
        return Ok(None);
    }
    let ghost all = parsed@;
    let mut tools: Vec<NativeToolSpec> = Vec::new();
    for entry in it: parsed
        invariant
            all == it.seq(),
            tools@.len() == it.index(),
            valid_before(all, it.index() as int),
            forall|j: int|
                0 <= j < tools@.len() ==> all[j] == Ok::<NativeToolSpec, String>(
                    #[trigger] tools@[j],
                ),
    {
        match entry {
            Ok(tool) => {
                tools.push(tool);
            },
            Err(reason) => {
                return Err(ProviderError::InvalidToolSpec { index: tools.len(), reason });
            },
        }
    }
    Ok(Some(tools))
}

impl AzureChatRequest {
    /// A request with `messages` and `tools`, and with the tool choice that
    /// goes with the tools.
    pub fn new(
        messages: Vec<NativeMessage>,
        temperature: serde_json::Value,
        tools: Option<Vec<NativeToolSpec>>,
    ) -> (r: AzureChatRequest)
        ensures
            r.messages == messages,
            r.temperature == temperature,
            r.tools == tools,
            opt_text(r.tool_choice) == tool_choice_of(tools),
    {
        let tool_choice = tool_choice_for(&tools);
        AzureChatRequest { messages, temperature, tools, tool_choice }
    }

    /// The request as the wire carries it. Where no tools are offered the
    /// document has no `tools` key at all.
    pub fn to_json(&self) -> (r: serde_json::Value)
        ensures
            json_doc(r) == JsonDoc::Object(
                request_fields(
                    native_message_views(self.messages@),
                    json_doc(self.temperature),
                    opt_tool_spec_views(self.tools),
                    opt_text(self.tool_choice),
                ),
            ),
            json_doc(r) matches JsonDoc::Object(fields) && (fields.contains_key("tools"@)
                <==> self.tools is Some) && (fields.contains_key("tool_choice"@)
                <==> self.tool_choice is Some),
    {
        proof {
            lemma_wire_keys();
        }
        object_value(
            request_entries(&self.messages, &self.temperature, &self.tools, &self.tool_choice),
        )
    }
}

impl AzureOpenAiProvider {
    /// A provider for `base_url`, whose trailing slashes are dropped.
    pub fn new(base_url: &str, api_key: Option<&str>) -> (r: AzureOpenAiProvider)
        ensures
            r.base_url@ == strip_trailing(base_url@, '/'),
            opt_text(r.api_key) == opt_str_text(api_key),
    {
        let chars = to_chars(base_url);
        let kept = strip_trailing_len(&chars, '/');
        AzureOpenAiProvider {
            base_url: substring(base_url, 0, kept),
            api_key: match api_key {
                Some(k) => Some(String::from_str(k)),
                None => None,
            },
        }
    }

    /// The API key, or `MissingApiKey` where none is configured.
    pub fn require_api_key(&self) -> (r: Result<&str, ProviderError>)
        ensures
            match r {
                Ok(k) => self.api_key is Some && k@ == self.api_key->0@,
                Err(e) => self.api_key is None && e == ProviderError::MissingApiKey,
            },
    {
        match &self.api_key {
            Some(k) => Ok(k.as_str()),
            None => Err(ProviderError::MissingApiKey),
        }
    }

    /// This provider takes tool specifications in its requests.
    pub fn supports_native_tools(&self) -> (r: bool)
        ensures
            r,
    {
        true
    }

    /// The wire forms of the tools, in order; absent exactly when `tools`
    /// is absent.
    pub fn convert_tools(tools: Option<&[ToolSpec]>) -> (r: Option<Vec<NativeToolSpec>>)
        ensures
            opt_tool_spec_views(r) == wire_tool_specs(tools),
    {
        match tools {
            Some(items) => {
                let mut wire: Vec<NativeToolSpec> = Vec::new();
                let mut i: usize = 0;
                while i < items.len()
                    invariant
                        i <= items@.len(),
                        wire@.len() == i,
                        forall|j: int|
                            0 <= j < i ==> (#[trigger] wire@[j])@ == wire_tool_spec(items@[j]),
                    decreases items@.len() - i,
                {
                    let tool = &items[i];
                    wire.push(
                        NativeToolSpec {
                            kind: String::from_str("function"),
                            function: NativeToolFunctionSpec {
                                name: tool.name.clone(),
                                description: tool.description.clone(),
                                parameters: tool.parameters.clone(),
                            },
                        },
                    );
                    i += 1;
                }
                Some(wire)
            },
            None => None,
        }
    }

    /// The wire messages of a conversation, one per message and in order.
    /// Inline image markers are left as they are.
    pub fn convert_messages(messages: &[ChatMessage]) -> (r: Vec<NativeMessage>)
        ensures
            r@.len() == messages@.len(),
            native_message_views(r@) == wire_messages(messages@, false),
    {
        convert_messages(messages)
    }

    /// The normalized form of a response message: its text, and its tool
    /// calls with a fresh identifier for each call that has none.
    pub fn parse_native_response(message: NativeResponseMessage) -> (r: ChatResponse)
        ensures
            normalizes(message, r),
    {
        let NativeResponseMessage { content, tool_calls } = message;
        let wire: Vec<NativeToolCall> = match tool_calls {
            Some(calls) => calls,
            None => Vec::new(),
        };
        let ghost all = native_tool_call_views(wire@);
        let mut calls: Vec<ToolCall> = Vec::new();
        for next in it: wire
            invariant
                all == native_tool_call_views(it.seq()),
                calls@.len() == it.index(),
                forall|j: int| 0 <= j < calls@.len() ==> resolves(all[j], #[trigger] calls@[j]@),
        {
            let fresh_id = if next.id.is_none() {
                fresh_call_id()
            } else {
                String::new()
            };
            calls.push(resolve_tool_call(next, fresh_id));
        }
        ChatResponse { text: content, tool_calls: calls }
    }

    /// The request for a conversation with optional tools.
    pub fn chat_request(
        messages: &[ChatMessage],
        tools: Option<&[ToolSpec]>,
        temperature: serde_json::Value,
    ) -> (r: AzureChatRequest)
        ensures
            native_message_views(r.messages@) == wire_messages(messages@, false),
            r.temperature == temperature,
            opt_tool_spec_views(r.tools) == wire_tool_specs(tools),
            opt_text(r.tool_choice) == tool_choice_of(r.tools),
    {
        let wire_tools = Self::convert_tools(tools);
        AzureChatRequest::new(Self::convert_messages(messages), temperature, wire_tools)
    }

    /// The request for a conversation whose tools arrived as JSON and were
    /// read one by one (see [`collect_tool_specs`]). Fails with
    /// `InvalidToolSpec` exactly when one of them is not a specification.
    pub fn chat_with_tools_request(
        messages: &[ChatMessage],
        tools: Vec<Result<NativeToolSpec, String>>,
        temperature: serde_json::Value,
    ) -> (r: Result<AzureChatRequest, ProviderError>)
        ensures
            match r {
                Ok(request) => {
                    &&& native_message_views(request.messages@) == wire_messages(messages@, false)
                    &&& request.temperature == temperature
                    &&& valid_before(tools@, tools@.len() as int)
                    &&& request.tools is Some <==> tools@.len() > 0
                    &&& request.tools matches Some(wire) ==> {
                        &&& wire@.len() == tools@.len()
                        &&& forall|i: int|
                            0 <= i < wire@.len() ==> tools@[i] == Ok::<NativeToolSpec, String>(
                                #[trigger] wire@[i],
                            )
                    }
                    &&& opt_text(request.tool_choice) == tool_choice_of(request.tools)
                },
                Err(ProviderError::InvalidToolSpec { index, reason }) => {
                    &&& index < tools@.len()
                    &&& valid_before(tools@, index as int)
                    &&& tools@[index as int] matches Err(why)
                    &&& reason@ == why@
                },
                Err(_) => false,
            },
    {
        match collect_tool_specs(tools) {
            Ok(wire_tools) => Ok(
                AzureChatRequest::new(Self::convert_messages(messages), temperature, wire_tools),
            ),
            Err(e) => Err(e),
        }
    }

    /// The request for a simple exchange: the system prompt, if there is
    /// one, then the user's message, both as plain text; no tools.
    pub fn chat_with_system_request(
        system_prompt: Option<&str>,
        message: &str,
        temperature: serde_json::Value,
    ) -> (r: AzureChatRequest)
        ensures
            native_message_views(r.messages@) == prompt_sequence(
                opt_str_text(system_prompt),
                message@,
            ).map_values(|m: ChatMessageView| plain_message(m)),
            r.temperature == temperature,
            r.tools is None,
            r.tool_choice is None,
    {
        let messages = prompt_messages(system_prompt, message);
        let wire = Self::convert_messages(messages.as_slice());
        proof {
            let turns = prompt_sequence(opt_str_text(system_prompt), message@);
            lemma_role_names();
            assert forall|i: int| 0 <= i < turns.len() implies native_message_views(wire@)[i]
                == plain_message(#[trigger] turns[i]) by {
                lemma_other_roles_are_plain(turns[i], false);
            }
        }
        AzureChatRequest::new(wire, temperature, None)
    }

    /// The URL that a chat completion for `model` is posted to.
    pub fn build_url(&self, model: &str) -> (r: String)
        ensures
            r@ == deployment_url(self.base_url@, model@),
    {
        let chars = to_chars(self.base_url.as_str());
        let kept = strip_trailing_len(&chars, '/');
        let base: String = substring(self.base_url.as_str(), 0, kept);
        let base_chars = to_chars(base.as_str());
        if contains_text(&base_chars, &to_chars("/openai/deployments/")) {
            if contains_text(&base_chars, &to_chars("api-version=")) {
                base
            } else if contains_text(&base_chars, &to_chars("?")) {
                base.concat("&").concat("api-version=2024-02-15-preview")
            } else {
                base.concat("?").concat("api-version=2024-02-15-preview")
            }
        } else {
            base.concat("/openai/deployments/").concat(model).concat("/chat/completions?").concat(
                "api-version=2024-02-15-preview",
            )
        }
    }
}

/// Reads a chat response: the first choice, normalized. Fails with
/// `NoChoices` exactly when the response holds no choice.
pub fn decode_response(response: NativeChatResponse) -> (r: Result<ChatResponse, ProviderError>)
    ensures
        match r {
            Ok(out) => response.choices@.len() > 0 && normalizes(response.choices@[0].message, out),
            Err(e) => response.choices@.len() == 0 && e == ProviderError::NoChoices,
        },
{
    let mut choices = response.choices;
    if choices.len() == 0 {
        return Err(ProviderError::NoChoices);
    }
    let first = choices.swap_remove(0);
    Ok(AzureOpenAiProvider::parse_native_response(first.message))
}

/// Reads the text of a chat response: that of the first choice. Fails with
/// `NoChoices` exactly when the response holds no choice, and with
/// `NoContent` exactly when the first choice holds no text.
pub fn decode_text(response: NativeChatResponse) -> (r: Result<String, ProviderError>)
    ensures
        match r {
            Ok(text) => response.choices@.len() > 0 && response.choices@[0].message.content
                is Some && text@ == response.choices@[0].message.content->0@,
            Err(e) => if response.choices@.len() == 0 {
                e == ProviderError::NoChoices
            } else {
                response.choices@[0].message.content is None && e == ProviderError::NoContent
            },
        },
{
    let mut choices = response.choices;
    if choices.len() == 0 {
        return Err(ProviderError::NoChoices);
    }
    let first = choices.swap_remove(0);
    match first.message.content {
        Some(text) => Ok(text),
        None => Err(ProviderError::NoContent),
    }
}

} // verus!
