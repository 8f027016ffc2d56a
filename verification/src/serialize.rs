//! The JSON form of the wire types.
//!
//! Each `*_doc` function says which document a wire value is sent as; the
//! `to_json` methods build that document.

use crate::json::{
    array_value, entry_fields, json_doc, json_docs, object_value, put, string_value,
    with_optional, JsonDoc,
};
use crate::openai_wire::{
    native_message_views, native_tool_call_views, native_tool_spec_views, part_views,
    ContentPart, ContentPartView, NativeChatRequest, NativeContent, NativeContentView,
    NativeMessage, NativeMessageView, NativeToolCall, NativeToolCallView, NativeToolSpec,
    NativeToolSpecView,
};
use crate::traits::opt_text;
use vstd::prelude::*;
use vstd::string::StringExecFns;

verus! {

/// The document of an optional string.
pub open spec fn opt_str_doc(text: Option<Seq<char>>) -> Option<JsonDoc> {
    match text {
        Some(t) => Some(JsonDoc::Str(t)),
        None => None,
    }
}

/// A content part on the wire: `{"type":"text","text":..}` or
/// `{"type":"image_url","image_url":{"url":..}}`.
pub open spec fn content_part_doc(part: ContentPartView) -> JsonDoc {
    match part {
        ContentPartView::Text(text) => JsonDoc::Object(
            Map::empty().insert("type"@, JsonDoc::Str("text"@)).insert("text"@, JsonDoc::Str(text)),
        ),
        ContentPartView::ImageUrl(url) => JsonDoc::Object(
            Map::empty().insert("type"@, JsonDoc::Str("image_url"@)).insert(
                "image_url"@,
                JsonDoc::Object(Map::empty().insert("url"@, JsonDoc::Str(url))),
            ),
        ),
    }
}

/// Content on the wire: a bare string for plain text, an array of parts for
/// multipart content.
pub open spec fn content_doc(content: NativeContentView) -> JsonDoc {
    match content {
        NativeContentView::Text(text) => JsonDoc::Str(text),
        NativeContentView::Parts(parts) => JsonDoc::Array(
            parts.map_values(|p: ContentPartView| content_part_doc(p)),
        ),
    }
}

/// A tool call on the wire: `{"id"?, "type"?, "function":{"name","arguments"}}`.
pub open spec fn tool_call_doc(call: NativeToolCallView) -> JsonDoc {
    JsonDoc::Object(
        with_optional(
            with_optional(Map::empty(), "id"@, opt_str_doc(call.id)),
            "type"@,
            opt_str_doc(call.kind),
        ).insert(
            "function"@,
            JsonDoc::Object(
                Map::empty().insert("name"@, JsonDoc::Str(call.name)).insert(
                    "arguments"@,
                    JsonDoc::Str(call.arguments),
                ),
            ),
        ),
    )
}

/// A message on the wire: `{"role", "content"?, "tool_call_id"?, "tool_calls"?}`.
pub open spec fn message_doc(message: NativeMessageView) -> JsonDoc {
    JsonDoc::Object(
        with_optional(
            with_optional(
                with_optional(
                    Map::empty().insert("role"@, JsonDoc::Str(message.role)),
                    "content"@,
                    match message.content {
                        Some(content) => Some(content_doc(content)),
                        None => None,
                    },
                ),
                "tool_call_id"@,
                opt_str_doc(message.tool_call_id),
            ),
            "tool_calls"@,
            match message.tool_calls {
                Some(calls) => Some(
                    JsonDoc::Array(calls.map_values(|c: NativeToolCallView| tool_call_doc(c))),
                ),
                None => None,
            },
        ),
    )
}

/// A tool specification on the wire:
/// `{"type", "function":{"name","description","parameters"}}`.
pub open spec fn tool_spec_doc(tool: NativeToolSpecView) -> JsonDoc {
    JsonDoc::Object(
        Map::empty().insert("type"@, JsonDoc::Str(tool.kind)).insert(
            "function"@,
            JsonDoc::Object(
                Map::empty().insert("name"@, JsonDoc::Str(tool.name)).insert(
                    "description"@,
                    JsonDoc::Str(tool.description),
                ).insert("parameters"@, json_doc(tool.parameters)),
            ),
        ),
    )
}

/// The fields that every request body has: `messages` and `temperature`,
/// and `tools` and `tool_choice` where they are present.
pub open spec fn request_fields(
    messages: Seq<NativeMessageView>,
    temperature: JsonDoc,
    tools: Option<Seq<NativeToolSpecView>>,
    tool_choice: Option<Seq<char>>,
) -> Map<Seq<char>, JsonDoc> {
    with_optional(
        with_optional(
            Map::empty().insert(
                "messages"@,
                JsonDoc::Array(messages.map_values(|m: NativeMessageView| message_doc(m))),
            ).insert("temperature"@, temperature),
            "tools"@,
            match tools {
                Some(tools) => Some(
                    JsonDoc::Array(tools.map_values(|t: NativeToolSpecView| tool_spec_doc(t))),
                ),
                None => None,
            },
        ),
        "tool_choice"@,
        opt_str_doc(tool_choice),
    )
}

/// The views of optional tool specifications.
pub open spec fn opt_tool_spec_views(tools: Option<Vec<NativeToolSpec>>) -> Option<
    Seq<NativeToolSpecView>,
> {
    match tools {
        Some(tools) => Some(native_tool_spec_views(tools@)),
        None => None,
    }
}

/// A request on the wire: its `model` beside the fields of [`request_fields`].
pub open spec fn request_doc(request: NativeChatRequest) -> JsonDoc {
    JsonDoc::Object(
        request_fields(
            native_message_views(request.messages@),
            json_doc(request.temperature),
            opt_tool_spec_views(request.tools),
            opt_text(request.tool_choice),
        ).insert("model"@, JsonDoc::Str(request.model@)),
    )
}

/// The keys of the wire's objects differ from one another.
pub proof fn lemma_wire_keys()
    ensures
        "type"@ != "text"@,
        "type"@ != "image_url"@,
        "id"@ != "type"@,
        "id"@ != "function"@,
        "type"@ != "function"@,
        "name"@ != "arguments"@,
        "name"@ != "description"@,
        "name"@ != "parameters"@,
        "description"@ != "parameters"@,
        "role"@ != "content"@,
        "role"@ != "tool_call_id"@,
        "role"@ != "tool_calls"@,
        "content"@ != "tool_call_id"@,
        "content"@ != "tool_calls"@,
        "tool_call_id"@ != "tool_calls"@,
        "model"@ != "messages"@,
        "model"@ != "temperature"@,
        "model"@ != "tools"@,
        "model"@ != "tool_choice"@,
        "messages"@ != "temperature"@,
        "messages"@ != "tools"@,
        "messages"@ != "tool_choice"@,
        "temperature"@ != "tools"@,
        "temperature"@ != "tool_choice"@,
        "tools"@ != "tool_choice"@,
{
    reveal_strlit("type");
    reveal_strlit("text");
    reveal_strlit("image_url");
    reveal_strlit("id");
    reveal_strlit("function");
    reveal_strlit("name");
    reveal_strlit("arguments");
    reveal_strlit("description");
    reveal_strlit("parameters");
    reveal_strlit("role");
    reveal_strlit("content");
    reveal_strlit("tool_call_id");
    reveal_strlit("tool_calls");
    reveal_strlit("model");
    reveal_strlit("messages");
    reveal_strlit("temperature");
    reveal_strlit("tools");
    reveal_strlit("tool_choice");
    assert("type"@.len() == 4);
    assert("text"@.len() == 4);
    assert("image_url"@.len() == 9);
    assert("id"@.len() == 2);
    assert("function"@.len() == 8);
    assert("name"@.len() == 4);
    assert("arguments"@.len() == 9);
    assert("description"@.len() == 11);
    assert("parameters"@.len() == 10);
    assert("role"@.len() == 4);
    assert("content"@.len() == 7);
    assert("tool_call_id"@.len() == 12);
    assert("tool_calls"@.len() == 10);
    assert("model"@.len() == 5);
    assert("messages"@.len() == 8);
    assert("temperature"@.len() == 11);
    assert("tools"@.len() == 5);
    assert("tool_choice"@.len() == 11);
    assert("type"@[1] != "text"@[1]);
    assert("model"@[0] != "tools"@[0]);
    assert("temperature"@[1] != "tool_choice"@[1]);
}

/// A request body has a `tools` key exactly when tools are given, and a
/// `tool_choice` key exactly when a tool choice is given: absent tools are
/// left out, never sent as an empty array.
pub proof fn lemma_request_tool_keys(
    messages: Seq<NativeMessageView>,
    temperature: JsonDoc,
    tools: Option<Seq<NativeToolSpecView>>,
    tool_choice: Option<Seq<char>>,
)
    ensures
        request_fields(messages, temperature, tools, tool_choice).contains_key("tools"@)
            <==> tools is Some,
        request_fields(messages, temperature, tools, tool_choice).contains_key("tool_choice"@)
            <==> tool_choice is Some,
        request_fields(messages, temperature, tools, tool_choice).contains_key("messages"@),
        request_fields(messages, temperature, tools, tool_choice).contains_key("temperature"@),
{
    lemma_wire_keys();
}

/// Plain text is sent as a bare string, whatever the text: never as an
/// array and never as an object.
pub proof fn lemma_text_content_is_a_string(text: Seq<char>)
    ensures
        content_doc(NativeContentView::Text(text)) == JsonDoc::Str(text),
        !(content_doc(NativeContentView::Text(text)) is Array),
        !(content_doc(NativeContentView::Text(text)) is Object),
{
}

impl ContentPart {
    /// The part as the wire carries it.
    pub fn to_json(&self) -> (r: serde_json::Value)
        ensures
            json_doc(r) == content_part_doc(self@),
    {
        proof {
            lemma_wire_keys();
        }
        let mut entries: Vec<(String, serde_json::Value)> = Vec::new();
        match self {
            ContentPart::Text { text } => {
                put(&mut entries, "type", string_value(String::from_str("text")));
                put(&mut entries, "text", string_value(text.clone()));
            },
            ContentPart::ImageUrl { image_url } => {
                let mut inner: Vec<(String, serde_json::Value)> = Vec::new();
                put(&mut inner, "url", string_value(image_url.url.clone()));
                put(&mut entries, "type", string_value(String::from_str("image_url")));
                put(&mut entries, "image_url", object_value(inner));
            },
        }
        object_value(entries)
    }
}

impl NativeContent {
    /// The content as the wire carries it: plain text as a bare string,
    /// never as an array or an object.
    pub fn to_json(&self) -> (r: serde_json::Value)
        ensures
            json_doc(r) == content_doc(self@),
            self@ matches NativeContentView::Text(text) ==> json_doc(r) == JsonDoc::Str(text),
            self@ is Parts ==> json_doc(r) is Array,
    {
        match self {
            NativeContent::Text(text) => string_value(text.clone()),
            NativeContent::Parts(parts) => {
                let mut items: Vec<serde_json::Value> = Vec::new();
                let mut i: usize = 0;
                while i < parts.len()
                    invariant
                        i <= parts@.len(),
                        items@.len() == i,
                        forall|j: int|
                            0 <= j < i ==> json_doc(#[trigger] items@[j]) == content_part_doc(
                                parts@[j]@,
                            ),
                    decreases parts@.len() - i,
                {
                    items.push(parts[i].to_json());
                    i += 1;
                }
                assert(json_docs(items@) =~= part_views(parts@).map_values(
                    |p: ContentPartView| content_part_doc(p),
                ));
                array_value(items)
            },
        }
    }
}

impl NativeToolCall {
    /// The tool call as the wire carries it; an absent `id` or `type` is
    /// left out.
    pub fn to_json(&self) -> (r: serde_json::Value)
        ensures
            json_doc(r) == tool_call_doc(self@),
    {
        proof {
            lemma_wire_keys();
        }
        let mut function: Vec<(String, serde_json::Value)> = Vec::new();
        put(&mut function, "name", string_value(self.function.name.clone()));
        put(&mut function, "arguments", string_value(self.function.arguments.clone()));
        let mut entries: Vec<(String, serde_json::Value)> = Vec::new();
        match &self.id {
            Some(id) => {
                put(&mut entries, "id", string_value(id.clone()));
            },
            None => {},
        }
        match &self.kind {
            Some(kind) => {
                put(&mut entries, "type", string_value(kind.clone()));
            },
            None => {},
        }
        put(&mut entries, "function", object_value(function));
        object_value(entries)
    }
}

/// The tool calls as the wire carries them, in order.
fn tool_calls_json(calls: &Vec<NativeToolCall>) -> (r: serde_json::Value)
    ensures
        json_doc(r) == JsonDoc::Array(
            native_tool_call_views(calls@).map_values(|c: NativeToolCallView| tool_call_doc(c)),
        ),
{
    let mut items: Vec<serde_json::Value> = Vec::new();
    let mut i: usize = 0;
    while i < calls.len()
        invariant
            i <= calls@.len(),
            items@.len() == i,
            forall|j: int|
                0 <= j < i ==> json_doc(#[trigger] items@[j]) == tool_call_doc(calls@[j]@),
        decreases calls@.len() - i,
    {
        items.push(calls[i].to_json());
        i += 1;
    }
    assert(json_docs(items@) =~= native_tool_call_views(calls@).map_values(
        |c: NativeToolCallView| tool_call_doc(c),
    ));
    array_value(items)
}

impl NativeMessage {
    /// The message as the wire carries it; absent fields are left out.
    pub fn to_json(&self) -> (r: serde_json::Value)
        ensures
            json_doc(r) == message_doc(self@),
    {
        proof {
            lemma_wire_keys();
        }
        let mut entries: Vec<(String, serde_json::Value)> = Vec::new();
        put(&mut entries, "role", string_value(self.role.clone()));
        match &self.content {
            Some(content) => {
                put(&mut entries, "content", content.to_json());
            },
            None => {},
        }
        match &self.tool_call_id {
            Some(id) => {
                put(&mut entries, "tool_call_id", string_value(id.clone()));
            },
            None => {},
        }
        match &self.tool_calls {
            Some(calls) => {
                put(&mut entries, "tool_calls", tool_calls_json(calls));
            },
            None => {},
        }
        object_value(entries)
    }
}

impl NativeToolSpec {
    /// The tool specification as the wire carries it.
    pub fn to_json(&self) -> (r: serde_json::Value)
        ensures
            json_doc(r) == tool_spec_doc(self@),
    {
        proof {
            lemma_wire_keys();
        }
        let mut function: Vec<(String, serde_json::Value)> = Vec::new();
        put(&mut function, "name", string_value(self.function.name.clone()));
        put(&mut function, "description", string_value(self.function.description.clone()));
        put(&mut function, "parameters", self.function.parameters.clone());
        let mut entries: Vec<(String, serde_json::Value)> = Vec::new();
        put(&mut entries, "type", string_value(self.kind.clone()));
        put(&mut entries, "function", object_value(function));
        object_value(entries)
    }
}

/// The messages as the wire carries them, in order.
fn messages_json(messages: &Vec<NativeMessage>) -> (r: serde_json::Value)
    ensures
        json_doc(r) == JsonDoc::Array(
            native_message_views(messages@).map_values(|m: NativeMessageView| message_doc(m)),
        ),
{
    let mut items: Vec<serde_json::Value> = Vec::new();
    let mut i: usize = 0;
    while i < messages.len()
        invariant
            i <= messages@.len(),
            items@.len() == i,
            forall|j: int|
                0 <= j < i ==> json_doc(#[trigger] items@[j]) == message_doc(messages@[j]@),
        decreases messages@.len() - i,
    {
        items.push(messages[i].to_json());
        i += 1;
    }
    assert(json_docs(items@) =~= native_message_views(messages@).map_values(
        |m: NativeMessageView| message_doc(m),
    ));
    array_value(items)
}

/// The tool specifications as the wire carries them, in order.
fn tool_specs_json(tools: &Vec<NativeToolSpec>) -> (r: serde_json::Value)
    ensures
        json_doc(r) == JsonDoc::Array(
            native_tool_spec_views(tools@).map_values(|t: NativeToolSpecView| tool_spec_doc(t)),
        ),
{
    let mut items: Vec<serde_json::Value> = Vec::new();
    let mut i: usize = 0;
    while i < tools.len()
        invariant
            i <= tools@.len(),
            items@.len() == i,
            forall|j: int|
                0 <= j < i ==> json_doc(#[trigger] items@[j]) == tool_spec_doc(tools@[j]@),
        decreases tools@.len() - i,
    {
        items.push(tools[i].to_json());
        i += 1;
    }
    assert(json_docs(items@) =~= native_tool_spec_views(tools@).map_values(
        |t: NativeToolSpecView| tool_spec_doc(t),
    ));
    array_value(items)
}

/// The entries of the fields that every request body has.
pub(crate) fn request_entries(
    messages: &Vec<NativeMessage>,
    temperature: &serde_json::Value,
    tools: &Option<Vec<NativeToolSpec>>,
    tool_choice: &Option<String>,
) -> (r: Vec<(String, serde_json::Value)>)
    ensures
        crate::json::distinct_keys(r@),
        entry_fields(r@) == request_fields(
            native_message_views(messages@),
            json_doc(*temperature),
            opt_tool_spec_views(*tools),
            opt_text(*tool_choice),
        ),
{
    proof {
        lemma_wire_keys();
    }
    let mut entries: Vec<(String, serde_json::Value)> = Vec::new();
    put(&mut entries, "messages", messages_json(messages));
    put(&mut entries, "temperature", temperature.clone());
    match tools {
        Some(tools) => {
            put(&mut entries, "tools", tool_specs_json(tools));
        },
        None => {},
    }
    match tool_choice {
        Some(choice) => {
            put(&mut entries, "tool_choice", string_value(choice.clone()));
        },
        None => {},
    }
    entries
}

impl NativeChatRequest {
    /// The request as the wire carries it. Where no tools are offered the
    /// document has no `tools` key at all.
    pub fn to_json(&self) -> (r: serde_json::Value)
        ensures
            json_doc(r) == request_doc(*self),
            json_doc(r) matches JsonDoc::Object(fields) && (fields.contains_key("tools"@)
                <==> self.tools is Some) && (fields.contains_key("tool_choice"@)
                <==> self.tool_choice is Some),
    {
        proof {
            lemma_wire_keys();
        }
        let mut entries = request_entries(
            &self.messages,
            &self.temperature,
            &self.tools,
            &self.tool_choice,
        );
        put(&mut entries, "model", string_value(self.model.clone()));
        object_value(entries)
    }
}

} // verus!
