use providers::azure::{collect_tool_specs, AzureChatRequest, AzureOpenAiProvider, ProviderError};
use providers::openai_wire::{
    convert_messages, convert_messages_with_vision, ContentPart, ImageUrl, NativeChatRequest,
    NativeContent, NativeFunctionCall, NativeMessage, NativeToolCall, NativeToolFunctionSpec,
    NativeToolSpec,
};
use providers::tools::ToolSpec;
use providers::traits::ChatMessage;
use serde_json::Value;

fn json(text: &str) -> Value {
    serde_json::from_str::<Value>(text).unwrap()
}

fn tool(name: &str) -> NativeToolSpec {
    NativeToolSpec {
        kind: "function".to_string(),
        function: NativeToolFunctionSpec {
            name: name.to_string(),
            description: format!("runs {name}"),
            parameters: json(r#"{"type":"object","properties":{}}"#),
        },
    }
}

#[test]
fn convert_messages_serializes_text_as_string() {
    let msg = NativeMessage {
        role: "user".to_string(),
        content: Some(NativeContent::Text("hello".to_string())),
        tool_call_id: None,
        tool_calls: None,
    };
    let json = serde_json::to_string(&msg.to_json()).unwrap();
    // Should serialize as "content":"hello" (a string, not an array)
    assert!(json.contains(r#""content":"hello""#));
}

#[test]
fn convert_messages_serializes_parts_as_array() {
    let msg = NativeMessage {
        role: "user".to_string(),
        content: Some(NativeContent::Parts(vec![
            ContentPart::Text {
                text: "Look at this".to_string(),
            },
            ContentPart::ImageUrl {
                image_url: ImageUrl {
                    url: "data:image/png;base64,abc123".to_string(),
                },
            },
        ])),
        tool_call_id: None,
        tool_calls: None,
    };
    let json = serde_json::to_string(&msg.to_json()).unwrap();
    // Should serialize as an array with type tags
    assert!(json.contains(r#""type":"text""#));
    assert!(json.contains(r#""type":"image_url""#));
    assert!(json.contains(r#""url":"data:image/png;base64,abc123""#));
}

#[test]
fn text_content_is_a_bare_json_string() {
    let value = NativeContent::Text("hello".to_string()).to_json();
    assert_eq!(value, Value::String("hello".to_string()));
    assert_eq!(serde_json::to_string(&value).unwrap(), r#""hello""#);
    assert!(!value.is_array());
    assert!(!value.is_object());
}

#[test]
fn parts_content_is_an_array_of_tagged_objects() {
    let value = NativeContent::Parts(vec![
        ContentPart::Text { text: "Look".to_string() },
        ContentPart::ImageUrl { image_url: ImageUrl { url: "https://e.com/a.png".to_string() } },
    ])
    .to_json();
    assert_eq!(
        value,
        json(r#"[{"type":"text","text":"Look"},{"type":"image_url","image_url":{"url":"https://e.com/a.png"}}]"#)
    );
    assert_eq!(NativeContent::Parts(Vec::new()).to_json(), json("[]"));
}

#[test]
fn plain_message_has_role_and_content_only() {
    let native = convert_messages(&[ChatMessage::user("hello")]);
    assert_eq!(native[0].to_json(), json(r#"{"role":"user","content":"hello"}"#));
}

#[test]
fn tool_call_message_serializes_its_calls() {
    let content = r#"{"tool_calls":[{"id":"x","name":"f","arguments":"{}"}], "content":"note"}"#;
    let native = convert_messages(&[ChatMessage::assistant(content)]);
    assert_eq!(
        native[0].to_json(),
        json(
            r#"{"role":"assistant","content":"note","tool_calls":[{"id":"x","type":"function","function":{"name":"f","arguments":"{}"}}]}"#
        )
    );
    let content = r#"{"tool_calls":[]}"#;
    let native = convert_messages(&[ChatMessage::assistant(content)]);
    assert_eq!(native[0].to_json(), json(r#"{"role":"assistant","tool_calls":[]}"#));
}

#[test]
fn tool_result_message_serializes_its_identifier() {
    let native = convert_messages(&[ChatMessage::tool(r#"{"tool_call_id":"x","content":"result"}"#)]);
    assert_eq!(
        native[0].to_json(),
        json(r#"{"role":"tool","content":"result","tool_call_id":"x"}"#)
    );
}

#[test]
fn vision_message_serializes_as_parts() {
    let native = convert_messages_with_vision(&[ChatMessage::user("see [IMAGE:data:x] now")]);
    assert_eq!(
        native[0].to_json(),
        json(
            r#"{"role":"user","content":[{"type":"text","text":"see"},{"type":"image_url","image_url":{"url":"data:x"}},{"type":"text","text":"now"}]}"#
        )
    );
}

#[test]
fn tool_call_leaves_absent_fields_out() {
    let call = NativeToolCall {
        id: None,
        kind: None,
        function: NativeFunctionCall { name: "f".to_string(), arguments: "{}".to_string() },
    };
    assert_eq!(call.to_json(), json(r#"{"function":{"name":"f","arguments":"{}"}}"#));
    let call = NativeToolCall {
        id: Some("a".to_string()),
        kind: None,
        function: NativeFunctionCall { name: "f".to_string(), arguments: "".to_string() },
    };
    assert_eq!(call.to_json(), json(r#"{"id":"a","function":{"name":"f","arguments":""}}"#));
}

#[test]
fn tool_spec_serializes_type_and_function() {
    assert_eq!(
        tool("ls").to_json(),
        json(
            r#"{"type":"function","function":{"name":"ls","description":"runs ls","parameters":{"type":"object","properties":{}}}}"#
        )
    );
}

#[test]
fn request_without_tools_has_no_tools_key() {
    let request = NativeChatRequest::new(
        "gpt".to_string(),
        convert_messages(&[ChatMessage::user("hi")]),
        json("0.7"),
        None,
    );
    assert!(request.tool_choice.is_none());
    let value = request.to_json();
    assert_eq!(
        value,
        json(r#"{"model":"gpt","messages":[{"role":"user","content":"hi"}],"temperature":0.7}"#)
    );
    let object = value.as_object().unwrap();
    assert!(!object.contains_key("tools"));
    assert!(!object.contains_key("tool_choice"));
    let text = serde_json::to_string(&value).unwrap();
    assert!(!text.contains("tools"));
    assert!(!text.contains("tool_choice"));
}

#[test]
fn request_with_tools_offers_them_and_sets_auto() {
    let request = NativeChatRequest::new(
        "gpt".to_string(),
        Vec::new(),
        json("1"),
        Some(vec![tool("ls")]),
    );
    assert_eq!(request.tool_choice.as_deref(), Some("auto"));
    assert_eq!(
        request.to_json(),
        json(
            r#"{"model":"gpt","messages":[],"temperature":1,"tool_choice":"auto","tools":[{"type":"function","function":{"name":"ls","description":"runs ls","parameters":{"type":"object","properties":{}}}}]}"#
        )
    );
}

#[test]
fn request_with_an_empty_tool_list_keeps_the_empty_array() {
    let request = NativeChatRequest::new("gpt".to_string(), Vec::new(), json("0"), Some(Vec::new()));
    assert_eq!(
        request.to_json(),
        json(r#"{"model":"gpt","messages":[],"temperature":0,"tool_choice":"auto","tools":[]}"#)
    );
}

#[test]
fn azure_request_has_no_model() {
    let request = AzureOpenAiProvider::chat_request(&[ChatMessage::user("hi")], None, json("0.5"));
    assert_eq!(
        request.to_json(),
        json(r#"{"messages":[{"role":"user","content":"hi"}],"temperature":0.5}"#)
    );
    let tools = vec![ToolSpec {
        name: "ls".to_string(),
        description: "List".to_string(),
        parameters: json(r#"{"type":"object"}"#),
    }];
    let request =
        AzureOpenAiProvider::chat_request(&[ChatMessage::user("hi")], Some(&tools), json("0.5"));
    assert_eq!(
        request.to_json(),
        json(
            r#"{"messages":[{"role":"user","content":"hi"}],"temperature":0.5,"tool_choice":"auto","tools":[{"type":"function","function":{"name":"ls","description":"List","parameters":{"type":"object"}}}]}"#
        )
    );
}

#[test]
fn azure_simple_request_puts_the_system_prompt_first() {
    let request = AzureOpenAiProvider::chat_with_system_request(Some("be brief"), "hello", json("0.2"));
    assert_eq!(
        request.to_json(),
        json(
            r#"{"messages":[{"role":"system","content":"be brief"},{"role":"user","content":"hello"}],"temperature":0.2}"#
        )
    );
    let request = AzureOpenAiProvider::chat_with_system_request(None, "hello", json("0.2"));
    assert_eq!(
        request.to_json(),
        json(r#"{"messages":[{"role":"user","content":"hello"}],"temperature":0.2}"#)
    );
}

#[test]
fn azure_request_new_sets_the_tool_choice() {
    let none = AzureChatRequest::new(Vec::new(), json("0"), None);
    assert!(none.tool_choice.is_none());
    let some = AzureChatRequest::new(Vec::new(), json("0"), Some(Vec::new()));
    assert_eq!(some.tool_choice.as_deref(), Some("auto"));
}

#[test]
fn collect_tool_specs_of_nothing_is_absent() {
    assert!(collect_tool_specs(Vec::new()).unwrap().is_none());
}

#[test]
fn collect_tool_specs_keeps_valid_specs_in_order() {
    let tools = collect_tool_specs(vec![Ok(tool("a")), Ok(tool("b"))]).unwrap().unwrap();
    assert_eq!(tools.len(), 2);
    assert_eq!(tools[0].function.name, "a");
    assert_eq!(tools[1].function.name, "b");
}

#[test]
fn collect_tool_specs_reports_the_first_invalid_spec() {
    let outcome = collect_tool_specs(vec![
        Ok(tool("a")),
        Err("missing field `function`".to_string()),
        Ok(tool("c")),
        Err("later".to_string()),
    ]);
    assert_eq!(
        outcome.unwrap_err(),
        ProviderError::InvalidToolSpec { index: 1, reason: "missing field `function`".to_string() }
    );
    let outcome = collect_tool_specs(vec![Err("first".to_string())]);
    assert_eq!(
        outcome.unwrap_err(),
        ProviderError::InvalidToolSpec { index: 0, reason: "first".to_string() }
    );
}

#[test]
fn chat_with_tools_request_fails_on_an_invalid_spec() {
    let messages = [ChatMessage::user("hi")];
    let outcome = AzureOpenAiProvider::chat_with_tools_request(
        &messages,
        vec![Err("not an object".to_string())],
        json("0"),
    );
    assert_eq!(
        outcome.unwrap_err(),
        ProviderError::InvalidToolSpec { index: 0, reason: "not an object".to_string() }
    );
    let request =
        AzureOpenAiProvider::chat_with_tools_request(&messages, Vec::new(), json("0")).unwrap();
    assert!(request.tools.is_none());
    assert!(request.tool_choice.is_none());
    let request =
        AzureOpenAiProvider::chat_with_tools_request(&messages, vec![Ok(tool("a"))], json("0"))
            .unwrap();
    assert_eq!(request.tools.as_ref().unwrap().len(), 1);
    assert_eq!(request.tool_choice.as_deref(), Some("auto"));
    assert_eq!(request.messages.len(), 1);
}
