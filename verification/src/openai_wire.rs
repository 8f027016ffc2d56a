//! OpenAI-compatible wire types and the conversion of chat messages into them.

use crate::json::{
    as_array, as_str, as_text, field, get, json_doc, json_docs, json_parse, opt_ref_json_doc,
    parse, text_field, JsonDoc,
};
use crate::text::{
    contains, find, find_from, lemma_contains_is_find, lemma_find_from, lemma_trim, same_text,
    substring, to_chars, trim, trim_bounds,
};
use crate::traits::{
    opt_text, opt_tool_call_view, tool_call_views, ChatMessage, ChatMessageView, ToolCall,
    ToolCallView,
};
use vstd::prelude::*;
use vstd::string::StringExecFns;

verus! {

/// Image reference within an `image_url` content part.
#[derive(Debug)]
pub struct ImageUrl {
    /// The image source: a data URI or an HTTPS URL.
    pub url: String,
}

/// One part of a multipart message.
#[derive(Debug)]
pub enum ContentPart {
    /// A text segment.
    Text { text: String },
    /// An image reference.
    ImageUrl { image_url: ImageUrl },
}

/// Message content: plain text, or parts that mix text and images.
#[derive(Debug)]
pub enum NativeContent {
    /// Plain text.
    Text(String),
    /// Multipart content; used only where at least one part is an image.
    Parts(Vec<ContentPart>),
}

/// What a [`ContentPart`] holds.
pub ghost enum ContentPartView {
    Text(Seq<char>),
    ImageUrl(Seq<char>),
}

/// What a [`NativeContent`] holds.
pub ghost enum NativeContentView {
    Text(Seq<char>),
    Parts(Seq<ContentPartView>),
}

impl View for ContentPart {
    type V = ContentPartView;

    open spec fn view(&self) -> ContentPartView {
        match self {
            ContentPart::Text { text } => ContentPartView::Text(text@),
            ContentPart::ImageUrl { image_url } => ContentPartView::ImageUrl(image_url.url@),
        }
    }
}

impl View for NativeContent {
    type V = NativeContentView;

    open spec fn view(&self) -> NativeContentView {
        match self {
            NativeContent::Text(text) => NativeContentView::Text(text@),
            NativeContent::Parts(parts) => NativeContentView::Parts(part_views(parts@)),
        }
    }
}

/// The views of a sequence of parts.
pub open spec fn part_views(parts: Seq<ContentPart>) -> Seq<ContentPartView> {
    parts.map_values(|p: ContentPart| p@)
}

/// The view of optional content.
pub open spec fn opt_content_view(content: Option<NativeContent>) -> Option<NativeContentView> {
    match content {
        Some(c) => Some(c@),
        None => None,
    }
}

/// The function named by a wire tool call.
#[derive(Debug)]
pub struct NativeFunctionCall {
    pub name: String,
    /// The arguments, as JSON text.
    pub arguments: String,
}

/// A tool call as the wire carries it.
#[derive(Debug)]
pub struct NativeToolCall {
    pub id: Option<String>,
    /// The wire's `type` field.
    pub kind: Option<String>,
    pub function: NativeFunctionCall,
}

/// What a [`NativeToolCall`] holds.
pub ghost struct NativeToolCallView {
    pub id: Option<Seq<char>>,
    pub kind: Option<Seq<char>>,
    pub name: Seq<char>,
    pub arguments: Seq<char>,
}

impl View for NativeToolCall {
    type V = NativeToolCallView;

    open spec fn view(&self) -> NativeToolCallView {
        NativeToolCallView {
            id: opt_text(self.id),
            kind: opt_text(self.kind),
            name: self.function.name@,
            arguments: self.function.arguments@,
        }
    }
}

/// The views of a sequence of wire tool calls.
pub open spec fn native_tool_call_views(calls: Seq<NativeToolCall>) -> Seq<NativeToolCallView> {
    calls.map_values(|c: NativeToolCall| c@)
}

/// A message as the wire carries it.
#[derive(Debug)]
pub struct NativeMessage {
    pub role: String,
    pub content: Option<NativeContent>,
    /// Present only on `tool` messages.
    pub tool_call_id: Option<String>,
    /// Present only on `assistant` messages that carry calls.
    pub tool_calls: Option<Vec<NativeToolCall>>,
}

/// What a [`NativeMessage`] holds.
pub ghost struct NativeMessageView {
    pub role: Seq<char>,
    pub content: Option<NativeContentView>,
    pub tool_call_id: Option<Seq<char>>,
    pub tool_calls: Option<Seq<NativeToolCallView>>,
}

impl View for NativeMessage {
    type V = NativeMessageView;

    open spec fn view(&self) -> NativeMessageView {
        NativeMessageView {
            role: self.role@,
            content: opt_content_view(self.content),
            tool_call_id: opt_text(self.tool_call_id),
            tool_calls: match self.tool_calls {
                Some(calls) => Some(native_tool_call_views(calls@)),
                None => None,
            },
        }
    }
}

/// The views of a sequence of wire messages.
pub open spec fn native_message_views(messages: Seq<NativeMessage>) -> Seq<NativeMessageView> {
    messages.map_values(|m: NativeMessage| m@)
}

/// Function metadata within a wire tool specification.
#[derive(Debug)]
pub struct NativeToolFunctionSpec {
    pub name: String,
    pub description: String,
    /// JSON schema of the parameters.
    pub parameters: serde_json::Value,
}

/// A tool specification as the wire carries it.
#[derive(Debug)]
pub struct NativeToolSpec {
    /// The wire's `type` field.
    pub kind: String,
    pub function: NativeToolFunctionSpec,
}

/// What a [`NativeToolSpec`] holds.
pub ghost struct NativeToolSpecView {
    pub kind: Seq<char>,
    pub name: Seq<char>,
    pub description: Seq<char>,
    pub parameters: serde_json::Value,
}

impl View for NativeToolSpec {
    type V = NativeToolSpecView;

    open spec fn view(&self) -> NativeToolSpecView {
        NativeToolSpecView {
            kind: self.kind@,
            name: self.function.name@,
            description: self.function.description@,
            parameters: self.function.parameters,
        }
    }
}

/// The views of a sequence of wire tool specifications.
pub open spec fn native_tool_spec_views(tools: Seq<NativeToolSpec>) -> Seq<NativeToolSpecView> {
    tools.map_values(|t: NativeToolSpec| t@)
}

/// The body of a chat-completion request.
#[derive(Debug)]
pub struct NativeChatRequest {
    pub model: String,
    pub messages: Vec<NativeMessage>,
    /// The sampling temperature, as a JSON number.
    pub temperature: serde_json::Value,
    /// The tools on offer; absent where none are offered.
    pub tools: Option<Vec<NativeToolSpec>>,
    /// `auto` where tools are offered, absent otherwise.
    pub tool_choice: Option<String>,
}

/// What the content of a message turned out to be.
#[derive(Debug)]
pub enum Envelope {
    /// Ordinary text.
    PlainText,
    /// An assistant turn that carries tool calls, with optional prose.
    ToolCalls { calls: Vec<ToolCall>, content: Option<String> },
    /// The result of a tool call.
    ToolResult { tool_call_id: String, result: String },
}

/// What an [`Envelope`] holds.
pub ghost enum EnvelopeView {
    PlainText,
    ToolCalls { calls: Seq<ToolCallView>, content: Option<Seq<char>> },
    ToolResult { tool_call_id: Seq<char>, result: Seq<char> },
}

impl View for Envelope {
    type V = EnvelopeView;

    open spec fn view(&self) -> EnvelopeView {
        match self {
            Envelope::PlainText => EnvelopeView::PlainText,
            Envelope::ToolCalls { calls, content } => EnvelopeView::ToolCalls {
                calls: tool_call_views(calls@),
                content: opt_text(*content),
            },
            Envelope::ToolResult { tool_call_id, result } => EnvelopeView::ToolResult {
                tool_call_id: tool_call_id@,
                result: result@,
            },
        }
    }
}

/// The tool call that an object gives: the strings under `id`, `name` and
/// `arguments`. Other keys are ignored.
pub open spec fn keyed_tool_call(doc: JsonDoc) -> Option<ToolCallView> {
    match (text_field(doc, "id"@), text_field(doc, "name"@), text_field(doc, "arguments"@)) {
        (Some(id), Some(name), Some(arguments)) => Some(ToolCallView { id, name, arguments }),
        _ => None,
    }
}

/// The tool call that an array gives: exactly three strings, the identifier,
/// the name and the arguments in this order.
pub open spec fn positional_tool_call(doc: JsonDoc) -> Option<ToolCallView> {
    match doc {
        JsonDoc::Array(items) => if items.len() == 3 {
            match (as_text(items[0]), as_text(items[1]), as_text(items[2])) {
                (Some(id), Some(name), Some(arguments)) => Some(
                    ToolCallView { id, name, arguments },
                ),
                _ => None,
            }
        } else {
            None
        },
        _ => None,
    }
}

/// The tool call that `doc` stands for, in keyed or positional form.
pub open spec fn tool_call_of(doc: JsonDoc) -> Option<ToolCallView> {
    match keyed_tool_call(doc) {
        Some(call) => Some(call),
        None => positional_tool_call(doc),
    }
}

/// The tool calls that `doc` stands for: it is an array, and each element is
/// a tool call.
pub open spec fn tool_calls_of(doc: JsonDoc) -> Option<Seq<ToolCallView>> {
    match doc {
        JsonDoc::Array(items) => if forall|i: int|
            0 <= i < items.len() ==> tool_call_of(#[trigger] items[i]) is Some {
            Some(items.map_values(|d: JsonDoc| tool_call_of(d).unwrap()))
        } else {
            None
        },
        _ => None,
    }
}

/// What the content of a message with role `role` is, given the document
/// `parsed` that it parses to (`None` when it is not JSON).
///
/// An assistant message is a tool-call envelope when the document has a
/// `tool_calls` field that holds tool calls; its prose is the string under
/// `content`, if there is one. A tool message is a tool result when the
/// document holds strings under both `tool_call_id` and `content`.
/// Everything else is plain text.
pub open spec fn envelope_of(role: Seq<char>, parsed: Option<JsonDoc>) -> EnvelopeView {
    match parsed {
        None => EnvelopeView::PlainText,
        Some(doc) => if role == "assistant"@ {
            match field(doc, "tool_calls"@) {
                Some(list) => match tool_calls_of(list) {
                    Some(calls) => EnvelopeView::ToolCalls {
                        calls,
                        content: text_field(doc, "content"@),
                    },
                    None => EnvelopeView::PlainText,
                },
                None => EnvelopeView::PlainText,
            }
        } else if role == "tool"@ {
            match (text_field(doc, "tool_call_id"@), text_field(doc, "content"@)) {
                (Some(tool_call_id), Some(result)) => EnvelopeView::ToolResult {
                    tool_call_id,
                    result,
                },
                _ => EnvelopeView::PlainText,
            }
        } else {
            EnvelopeView::PlainText
        },
    }
}

/// The wire form of a tool call: its identifier, the type `function`, and
/// the function's name and arguments.
pub open spec fn wire_tool_call(call: ToolCallView) -> NativeToolCallView {
    NativeToolCallView {
        id: Some(call.id),
        kind: Some("function"@),
        name: call.name,
        arguments: call.arguments,
    }
}

/// The content of a message that is plain text: multipart where vision is
/// on, the role is `user` and the text holds an image; the text itself
/// otherwise.
pub open spec fn plain_content(m: ChatMessageView, vision: bool) -> NativeContentView {
    if vision && m.role == "user"@ {
        match vision_content(m.content) {
            Some(parts) => parts,
            None => NativeContentView::Text(m.content),
        }
    } else {
        NativeContentView::Text(m.content)
    }
}

/// The wire message that `m` gives, for its envelope `envelope`.
pub open spec fn wire_message_for(
    m: ChatMessageView,
    envelope: EnvelopeView,
    vision: bool,
) -> NativeMessageView {
    match envelope {
        EnvelopeView::ToolCalls { calls, content } => NativeMessageView {
            role: m.role,
            content: match content {
                Some(text) => Some(NativeContentView::Text(text)),
                None => None,
            },
            tool_call_id: None,
            tool_calls: Some(calls.map_values(|c: ToolCallView| wire_tool_call(c))),
        },
        EnvelopeView::ToolResult { tool_call_id, result } => NativeMessageView {
            role: m.role,
            content: Some(NativeContentView::Text(result)),
            tool_call_id: Some(tool_call_id),
            tool_calls: None,
        },
        EnvelopeView::PlainText => NativeMessageView {
            role: m.role,
            content: Some(plain_content(m, vision)),
            tool_call_id: None,
            tool_calls: None,
        },
    }
}

/// The wire message that `m` gives.
pub open spec fn wire_message(m: ChatMessageView, vision: bool) -> NativeMessageView {
    wire_message_for(m, envelope_of(m.role, json_parse(m.content)), vision)
}

/// The wire messages that a conversation gives: one per message, in order.
pub open spec fn wire_messages(messages: Seq<ChatMessage>, vision: bool) -> Seq<
    NativeMessageView,
> {
    messages.map_values(|m: ChatMessage| wire_message(m@, vision))
}

/// The literal that opens an inline image marker: `[IMAGE:`.
pub open spec fn image_marker_prefix() -> Seq<char> {
    seq!['[', 'I', 'M', 'A', 'G', 'E', ':']
}

/// The literal that closes an inline image marker: `]`.
pub open spec fn image_marker_close() -> Seq<char> {
    seq![']']
}

/// The next marker at or after `cursor`: where its prefix starts and where
/// its closing bracket stands. `None` when no prefix follows, or when the
/// first prefix that follows is never closed.
pub open spec fn next_marker(s: Seq<char>, cursor: int) -> Option<(int, int)> {
    match find_from(s, image_marker_prefix(), cursor) {
        Some(start) => match find_from(s, image_marker_close(), start + 7) {
            Some(end) => Some((start, end)),
            None => None,
        },
        None => None,
    }
}

/// The text part that `t` gives: its trimmed text, or nothing when that is
/// empty.
pub open spec fn text_part(t: Seq<char>) -> Seq<ContentPartView> {
    if trim(t).len() == 0 {
        Seq::empty()
    } else {
        seq![ContentPartView::Text(trim(t))]
    }
}

/// The parts that `s` gives from `cursor` on, where the text since `pending`
/// has not been emitted yet.
///
/// A marker whose trimmed reference is empty is no image: it stays part of
/// the pending text. Any other marker closes the pending text and gives an
/// image part. What follows the last marker is the final text part.
pub open spec fn split_from(s: Seq<char>, pending: int, cursor: int) -> Seq<ContentPartView>
    decreases s.len() - cursor,
    when 0 <= cursor
    via split_from_decreases
{
    match next_marker(s, cursor) {
        None => text_part(s.subrange(pending, s.len() as int)),
        Some((start, end)) => {
            let image_ref = trim(s.subrange(start + 7, end));
            if image_ref.len() == 0 {
                split_from(s, pending, end + 1)
            } else {
                text_part(s.subrange(pending, start)) + seq![ContentPartView::ImageUrl(image_ref)]
                    + split_from(s, end + 1, end + 1)
            }
        },
    }
}

#[via_fn]
proof fn split_from_decreases(s: Seq<char>, pending: int, cursor: int) {
    lemma_next_marker(s, cursor);
}

/// A marker lies within the text, at or after the cursor, prefix first.
pub proof fn lemma_next_marker(s: Seq<char>, cursor: int)
    requires
        0 <= cursor,
    ensures
        match next_marker(s, cursor) {
            Some((start, end)) => cursor <= start && start + 7 <= end < s.len(),
            None => true,
        },
{
    lemma_find_from(s, image_marker_prefix(), cursor);
    match find_from(s, image_marker_prefix(), cursor) {
        Some(start) => {
            lemma_find_from(s, image_marker_close(), start + 7);
        },
        None => {},
    }
}

/// Whether any of `parts` is an image.
pub open spec fn has_image(parts: Seq<ContentPartView>) -> bool {
    exists|i: int| 0 <= i < parts.len() && parts[i] is ImageUrl
}

/// The multipart content of `s`: its parts, if any of them is an image.
pub open spec fn vision_content(s: Seq<char>) -> Option<NativeContentView> {
    let parts = split_from(s, 0, 0);
    if has_image(parts) {
        Some(NativeContentView::Parts(parts))
    } else {
        None
    }
}

/// What a part holds: its text, or its image reference.
pub open spec fn part_text(part: ContentPartView) -> Seq<char> {
    match part {
        ContentPartView::Text(text) => text,
        ContentPartView::ImageUrl(url) => url,
    }
}

/// The wire message of a message that is passed on as plain text.
pub open spec fn plain_message(m: ChatMessageView) -> NativeMessageView {
    NativeMessageView {
        role: m.role,
        content: Some(NativeContentView::Text(m.content)),
        tool_call_id: None,
        tool_calls: None,
    }
}

/// Text that holds no marker prefix has no images.
pub proof fn lemma_no_marker_no_images(s: Seq<char>)
    requires
        !contains(s, image_marker_prefix()),
    ensures
        vision_content(s) is None,
{
    lemma_contains_is_find(s, image_marker_prefix());
}

/// Text that holds no closing bracket has no images: a marker that is never
/// closed is literal text.
pub proof fn lemma_unclosed_no_images(s: Seq<char>)
    requires
        !contains(s, image_marker_close()),
    ensures
        vision_content(s) is None,
{
    match find_from(s, image_marker_prefix(), 0) {
        Some(start) => {
            lemma_find_from(s, image_marker_prefix(), 0);
            lemma_find_from(s, image_marker_close(), start + 7);
        },
        None => {},
    }
}

/// Whether `t` could stand in a part: it is not empty, and it neither begins
/// nor ends with whitespace.
pub open spec fn trimmed_nonempty(t: Seq<char>) -> bool {
    t.len() > 0 && trim(t) == t
}

/// No part is empty or padded with whitespace: a marker whose reference is
/// empty or blank gives no image part, and blank text gives no text part.
pub proof fn lemma_parts_trimmed_nonempty(s: Seq<char>, pending: int, cursor: int)
    requires
        0 <= pending <= cursor <= s.len(),
    ensures
        forall|i: int|
            0 <= i < split_from(s, pending, cursor).len() ==> trimmed_nonempty(
                part_text(#[trigger] split_from(s, pending, cursor)[i]),
            ),
    decreases s.len() - cursor,
{
    lemma_next_marker(s, cursor);
    let all = split_from(s, pending, cursor);
    match next_marker(s, cursor) {
        None => {
            lemma_trim(s.subrange(pending, s.len() as int));
            assert(all == text_part(s.subrange(pending, s.len() as int)));
            assert forall|i: int| 0 <= i < all.len() implies trimmed_nonempty(
                part_text(#[trigger] all[i]),
            ) by {
                assert(i == 0);
            }
        },
        Some((start, end)) => {
            let image_ref = trim(s.subrange(start + 7, end));
            if image_ref.len() == 0 {
                lemma_parts_trimmed_nonempty(s, pending, end + 1);
                assert(all == split_from(s, pending, end + 1));
            } else {
                lemma_parts_trimmed_nonempty(s, end + 1, end + 1);
                lemma_trim(s.subrange(start + 7, end));
                lemma_trim(s.subrange(pending, start));
                let head = text_part(s.subrange(pending, start));
                let image = seq![ContentPartView::ImageUrl(image_ref)];
                let rest = split_from(s, end + 1, end + 1);
                assert(all == head + image + rest);
                assert forall|i: int| 0 <= i < all.len() implies trimmed_nonempty(
                    part_text(#[trigger] all[i]),
                ) by {
                    if i < head.len() {
                        assert(all[i] == head[i]);
                    } else if i == head.len() {
                        assert(all[i] == image[0]);
                    } else {
                        assert(all[i] == rest[i - head.len() - 1]);
                    }
                }
            }
        },
    }
}

/// The role names that the encoder tells apart differ from one another.
pub proof fn lemma_role_names()
    ensures
        "user"@ != "assistant"@,
        "user"@ != "tool"@,
        "system"@ != "assistant"@,
        "system"@ != "tool"@,
        "system"@ != "user"@,
        "assistant"@ != "tool"@,
{
    reveal_strlit("user");
    reveal_strlit("assistant");
    reveal_strlit("tool");
    reveal_strlit("system");
    assert("user"@.len() == 4);
    assert("assistant"@.len() == 9);
    assert("tool"@.len() == 4);
    assert("system"@.len() == 6);
    assert("user"@[0] != "tool"@[0]);
}

/// A message whose role is neither `assistant` nor `tool` is never taken
/// for an envelope, whatever its content parses to.
pub proof fn lemma_other_roles_are_plain(m: ChatMessageView, vision: bool)
    requires
        m.role != "assistant"@,
        m.role != "tool"@,
    ensures
        envelope_of(m.role, json_parse(m.content)) is PlainText,
        wire_message(m, vision).role == m.role,
        wire_message(m, vision).content == Some(plain_content(m, vision)),
        wire_message(m, vision).tool_call_id is None,
        wire_message(m, vision).tool_calls is None,
{
}

/// Without vision a user message is passed on word for word, image markers
/// included.
pub proof fn lemma_without_vision_user_text_is_kept(m: ChatMessageView)
    requires
        m.role == "user"@,
    ensures
        wire_message(m, false) == plain_message(m),
{
    lemma_role_names();
}

/// With vision, a user message without a marker prefix, without a closing
/// bracket or with no image among its parts is passed on word for word too.
pub proof fn lemma_with_vision_text_without_images_is_kept(m: ChatMessageView)
    requires
        m.role == "user"@,
        vision_content(m.content) is None,
    ensures
        wire_message(m, true) == plain_message(m),
{
    lemma_role_names();
}

/// Content that does not parse as JSON is passed on as plain text, for
/// every role.
pub proof fn lemma_unparsable_content_is_plain(m: ChatMessageView, vision: bool)
    requires
        json_parse(m.content) is None,
    ensures
        envelope_of(m.role, json_parse(m.content)) is PlainText,
        wire_message(m, vision).content == Some(plain_content(m, vision)),
{
}

/// An assistant message whose content parses to an object with one keyed
/// tool call under `tool_calls` and a string under `content` becomes a wire
/// message with that string as its text and exactly one wire tool call:
/// the call's identifier, the type `function`, its name and its arguments.
pub proof fn lemma_assistant_envelope(
    m: ChatMessageView,
    doc: JsonDoc,
    call: JsonDoc,
    note: Seq<char>,
    vision: bool,
)
    requires
        m.role == "assistant"@,
        json_parse(m.content) == Some(doc),
        field(doc, "tool_calls"@) == Some(JsonDoc::Array(seq![call])),
        keyed_tool_call(call) is Some,
        text_field(doc, "content"@) == Some(note),
    ensures
        wire_message(m, vision) == (NativeMessageView {
            role: m.role,
            content: Some(NativeContentView::Text(note)),
            tool_call_id: None,
            tool_calls: Some(
                seq![
                    NativeToolCallView {
                        id: text_field(call, "id"@),
                        kind: Some("function"@),
                        name: text_field(call, "name"@).unwrap(),
                        arguments: text_field(call, "arguments"@).unwrap(),
                    },
                ],
            ),
        }),
{
    let list = JsonDoc::Array(seq![call]);
    let calls = tool_calls_of(list).unwrap();
    assert(calls.map_values(|c: ToolCallView| wire_tool_call(c)) =~= seq![
        wire_tool_call(tool_call_of(call).unwrap()),
    ]);
}

/// A tool message whose content parses to an object with strings under
/// `tool_call_id` and `content` becomes a wire message with that
/// identifier, that text as its content, and no tool calls.
pub proof fn lemma_tool_result(
    m: ChatMessageView,
    doc: JsonDoc,
    id: Seq<char>,
    result: Seq<char>,
    vision: bool,
)
    requires
        m.role == "tool"@,
        json_parse(m.content) == Some(doc),
        text_field(doc, "tool_call_id"@) == Some(id),
        text_field(doc, "content"@) == Some(result),
    ensures
        wire_message(m, vision) == (NativeMessageView {
            role: m.role,
            content: Some(NativeContentView::Text(result)),
            tool_call_id: Some(id),
            tool_calls: None,
        }),
{
    lemma_role_names();
}

/// Every wire message carries content or tool calls.
pub proof fn lemma_message_carries_payload(m: ChatMessageView, vision: bool)
    ensures
        wire_message(m, vision).content is Some || wire_message(m, vision).tool_calls is Some,
{
}

/// A wire message has multipart content only where vision is on, the role
/// is `user` and one of the parts is an image.
pub proof fn lemma_parts_hold_an_image(m: ChatMessageView, vision: bool)
    ensures
        wire_message(m, vision).content matches Some(NativeContentView::Parts(parts)) ==> vision
            && m.role == "user"@ && has_image(parts),
{
}

/// A wire message carries a tool-call identifier only for the `tool` role,
/// and tool calls only for the `assistant` role.
pub proof fn lemma_envelope_fields_follow_the_role(m: ChatMessageView, vision: bool)
    ensures
        wire_message(m, vision).role == m.role,
        wire_message(m, vision).tool_call_id is Some ==> m.role == "tool"@,
        wire_message(m, vision).tool_calls is Some ==> m.role == "assistant"@,
        !(wire_message(m, vision).tool_call_id is Some && wire_message(m, vision).tool_calls
            is Some),
{
}

impl NativeContent {
    /// The text of plain content; `None` for multipart content.
    pub fn as_text_str(&self) -> (r: Option<&str>)
        ensures
            match r {
                Some(s) => self@ == NativeContentView::Text(s@),
                None => self@ is Parts,
            },
    {
        match self {
            NativeContent::Text(s) => Some(s.as_str()),
            NativeContent::Parts(_) => None,
        }
    }
}

impl NativeChatRequest {
    /// A request for `model` with `messages` and `tools`, and with the tool
    /// choice `auto` exactly when tools are offered.
    pub fn new(
        model: String,
        messages: Vec<NativeMessage>,
        temperature: serde_json::Value,
        tools: Option<Vec<NativeToolSpec>>,
    ) -> (r: NativeChatRequest)
        ensures
            r.model == model,
            r.messages == messages,
            r.temperature == temperature,
            r.tools == tools,
            opt_text(r.tool_choice) == (if tools is Some {
                Some("auto"@)
            } else {
                None
            }),
    {
        let tool_choice = match &tools {
            Some(_) => Some(String::from_str("auto")),
            None => None,
        };
        NativeChatRequest { model, messages, temperature, tools, tool_choice }
    }
}

/// Splits `content` at its inline image markers `[IMAGE:<ref>]` into text
/// and image parts. `None` when no marker with a non-empty reference is
/// found.
pub fn build_vision_content(content: &str) -> (r: Option<NativeContent>)
    ensures
        opt_content_view(r) == vision_content(content@),
{
    let chars: Vec<char> = to_chars(content);
    let prefix: Vec<char> = vec!['[', 'I', 'M', 'A', 'G', 'E', ':'];
    let close: Vec<char> = vec![']'];
    let n: usize = chars.len();
    let ghost s = content@;
    let mut parts: Vec<ContentPart> = Vec::new();
    let mut pending: usize = 0;
    let mut cursor: usize = 0;
    let mut found: bool = false;
    let mut done: bool = false;
    while !done
        invariant
            chars@ == s,
            s == content@,
            n == s.len(),
            prefix@ == image_marker_prefix(),
            close@ == image_marker_close(),
            pending <= cursor <= n,
            split_from(s, 0, 0) == part_views(parts@) + split_from(
                s,
                pending as int,
                cursor as int,
            ),
            found ==> has_image(part_views(parts@)),
            !found ==> parts@.len() == 0,
            done ==> next_marker(s, cursor as int) is None,
        decreases n - cursor + (if done { 0int } else { 1int }),
    {
        proof {
            lemma_next_marker(s, cursor as int);
            lemma_find_from(s, image_marker_prefix(), cursor as int);
        }
        match find(&chars, &prefix, cursor) {
            None => {
                done = true;
            },
            Some(start) => {
                match find(&chars, &close, start + 7) {
                    None => {
                        done = true;
                    },
                    Some(end) => {
                        let (a, b) = trim_bounds(&chars, start + 7, end);
                        if a == b {
                            cursor = end + 1;
                        } else {
                            let (ta, tb) = trim_bounds(&chars, pending, start);
                            if ta < tb {
                                parts.push(ContentPart::Text { text: substring(content, ta, tb) });
                            }
                            let image = ContentPart::ImageUrl {
                                image_url: ImageUrl { url: substring(content, a, b) },
                            };
                            parts.push(image);
                            assert(part_views(parts@)[parts@.len() - 1] is ImageUrl);
                            found = true;
                            cursor = end + 1;
                            pending = end + 1;
                        }
                    },
                }
            },
        }
    }
    if !found {
        return None;
    }
    let ghost before = part_views(parts@);
    let (ta, tb) = trim_bounds(&chars, pending, n);
    if ta < tb {
        parts.push(ContentPart::Text { text: substring(content, ta, tb) });
    }
    assert(part_views(parts@) =~= before + text_part(s.subrange(pending as int, n as int)));
    proof {
        let i = choose|i: int| 0 <= i < before.len() && before[i] is ImageUrl;
        assert(part_views(parts@)[i] is ImageUrl);
    }
    Some(NativeContent::Parts(parts))
}

/// The string under `key`, where `doc` is an object that holds one there.
fn string_field(doc: &serde_json::Value, key: &str) -> (r: Option<String>)
    ensures
        opt_text(r) == text_field(json_doc(*doc), key@),
{
    match get(doc, key) {
        Some(inner) => match as_str(inner) {
            Some(s) => Some(String::from_str(s)),
            None => None,
        },
        None => None,
    }
}

/// The tool call that `doc` gives in keyed form.
fn keyed_call(doc: &serde_json::Value) -> (r: Option<ToolCall>)
    ensures
        opt_tool_call_view(r) == keyed_tool_call(json_doc(*doc)),
{
    let id = string_field(doc, "id");
    let name = string_field(doc, "name");
    let arguments = string_field(doc, "arguments");
    match (id, name, arguments) {
        (Some(id), Some(name), Some(arguments)) => Some(ToolCall { id, name, arguments }),
        _ => None,
    }
}

/// The tool call that `doc` gives in positional form.
fn positional_call(doc: &serde_json::Value) -> (r: Option<ToolCall>)
    ensures
        opt_tool_call_view(r) == positional_tool_call(json_doc(*doc)),
{
    match as_array(doc) {
        Some(items) => {
            if items.len() != 3 {
                return None;
            }
            match (as_str(&items[0]), as_str(&items[1]), as_str(&items[2])) {
                (Some(id), Some(name), Some(arguments)) => Some(
                    ToolCall {
                        id: String::from_str(id),
                        name: String::from_str(name),
                        arguments: String::from_str(arguments),
                    },
                ),
                _ => None,
            }
        },
        None => None,
    }
}

/// The tool call that `doc` stands for.
fn tool_call_from(doc: &serde_json::Value) -> (r: Option<ToolCall>)
    ensures
        opt_tool_call_view(r) == tool_call_of(json_doc(*doc)),
{
    match keyed_call(doc) {
        Some(call) => Some(call),
        None => positional_call(doc),
    }
}

/// The tool calls that `doc` stands for.
fn tool_calls_from(doc: &serde_json::Value) -> (r: Option<Vec<ToolCall>>)
    ensures
        match r {
            Some(calls) => tool_calls_of(json_doc(*doc)) == Some(tool_call_views(calls@)),
            None => tool_calls_of(json_doc(*doc)) is None,
        },
{
    let items = match as_array(doc) {
        Some(items) => items,
        None => {
            return None;
        },
    };
    let ghost docs = json_docs(items@);
    let mut calls: Vec<ToolCall> = Vec::new();
    let mut i: usize = 0;
    while i < items.len()
        invariant
            i <= items@.len(),
            docs == json_docs(items@),
            json_doc(*doc) == JsonDoc::Array(docs),
            calls@.len() == i,
            forall|j: int| 0 <= j < i ==> tool_call_of(#[trigger] docs[j]) == Some(calls@[j]@),
        decreases items@.len() - i,
    {
        match tool_call_from(&items[i]) {
            Some(call) => {
                calls.push(call);
            },
            None => {
                assert(tool_call_of(docs[i as int]) is None);
                return None;
            },
        }
        i += 1;
    }
    Some(calls)
}

/// Decides what the content of a message is, from its role and from the
/// JSON value that the content parsed to (`None` when it is not JSON).
pub fn classify(role: &str, parsed: Option<&serde_json::Value>) -> (r: Envelope)
    ensures
        r@ == envelope_of(role@, opt_ref_json_doc(parsed)),
{
    let doc = match parsed {
        Some(doc) => doc,
        None => {
            return Envelope::PlainText;
        },
    };
    if same_text(role, "assistant") {
        match get(doc, "tool_calls") {
            Some(list) => match tool_calls_from(list) {
                Some(calls) => Envelope::ToolCalls { calls, content: string_field(doc, "content") },
                None => Envelope::PlainText,
            },
            None => Envelope::PlainText,
        }
    } else if same_text(role, "tool") {
        match (string_field(doc, "tool_call_id"), string_field(doc, "content")) {
            (Some(tool_call_id), Some(result)) => Envelope::ToolResult { tool_call_id, result },
            _ => Envelope::PlainText,
        }
    } else {
        Envelope::PlainText
    }
}

/// The wire forms of `calls`, in order.
fn wire_tool_calls(calls: &Vec<ToolCall>) -> (r: Vec<NativeToolCall>)
    ensures
        native_tool_call_views(r@) == tool_call_views(calls@).map_values(
            |c: ToolCallView| wire_tool_call(c),
        ),
{
    let mut wire: Vec<NativeToolCall> = Vec::new();
    let mut i: usize = 0;
    while i < calls.len()
        invariant
            i <= calls@.len(),
            wire@.len() == i,
            forall|j: int| 0 <= j < i ==> (#[trigger] wire@[j])@ == wire_tool_call(calls@[j]@),
        decreases calls@.len() - i,
    {
        let call = &calls[i];
        wire.push(
            NativeToolCall {
                id: Some(call.id.clone()),
                kind: Some(String::from_str("function")),
                function: NativeFunctionCall {
                    name: call.name.clone(),
                    arguments: call.arguments.clone(),
                },
            },
        );
        i += 1;
    }
    wire
}

/// The wire message for `m`, once its content is known to be `envelope`.
pub fn message_for(m: &ChatMessage, envelope: Envelope, vision: bool) -> (r: NativeMessage)
    ensures
        r@ == wire_message_for(m@, envelope@, vision),
{
    match envelope {
        Envelope::ToolCalls { calls, content } => NativeMessage {
            role: m.role.clone(),
            content: match content {
                Some(text) => Some(NativeContent::Text(text)),
                None => None,
            },
            tool_call_id: None,
            tool_calls: Some(wire_tool_calls(&calls)),
        },
        Envelope::ToolResult { tool_call_id, result } => NativeMessage {
            role: m.role.clone(),
            content: Some(NativeContent::Text(result)),
            tool_call_id: Some(tool_call_id),
            tool_calls: None,
        },
        Envelope::PlainText => {
            let parts = if vision && same_text(m.role.as_str(), "user") {
                build_vision_content(m.content.as_str())
            } else {
                None
            };
            let content = match parts {
                Some(parts) => parts,
                None => NativeContent::Text(m.content.clone()),
            };
            NativeMessage {
                role: m.role.clone(),
                content: Some(content),
                tool_call_id: None,
                tool_calls: None,
            }
        },
    }
}

/// Converts one message to its wire form.
pub fn encode_message(m: &ChatMessage, vision: bool) -> (r: NativeMessage)
    ensures
        r@ == wire_message(m@, vision),
{
    let role = m.role.as_str();
    let parsed = if same_text(role, "assistant") || same_text(role, "tool") {
        parse(m.content.as_str())
    } else {
        None
    };
    let envelope = classify(role, parsed.as_ref());
    message_for(m, envelope, vision)
}

/// Converts each message in turn; `vision` says whether inline image
/// markers in user messages are turned into parts.
fn convert_messages_inner(messages: &[ChatMessage], vision: bool) -> (r: Vec<NativeMessage>)
    ensures
        r@.len() == messages@.len(),
        native_message_views(r@) == wire_messages(messages@, vision),
{
    let mut wire: Vec<NativeMessage> = Vec::new();
    let mut i: usize = 0;
    while i < messages.len()
        invariant
            i <= messages@.len(),
            wire@.len() == i,
            forall|j: int|
                0 <= j < i ==> (#[trigger] wire@[j])@ == wire_message(messages@[j]@, vision),
        decreases messages@.len() - i,
    {
        wire.push(encode_message(&messages[i], vision));
        i += 1;
    }
    wire
}

/// Converts a conversation to wire messages, one per message and in order.
///
/// Assistant messages that carry tool calls and tool messages that carry a
/// tool result are re-expressed in the wire's own fields; every other
/// message is passed on as plain text.
pub fn convert_messages(messages: &[ChatMessage]) -> (r: Vec<NativeMessage>)
    ensures
        r@.len() == messages@.len(),
        native_message_views(r@) == wire_messages(messages@, false),
{
    convert_messages_inner(messages, false)
}

/// Converts a conversation to wire messages as [`convert_messages`] does,
/// and turns user messages that hold `[IMAGE:<ref>]` markers into multipart
/// content.
pub fn convert_messages_with_vision(messages: &[ChatMessage]) -> (r: Vec<NativeMessage>)
    ensures
        r@.len() == messages@.len(),
        native_message_views(r@) == wire_messages(messages@, true),
{
    convert_messages_inner(messages, true)
}

} // verus!
