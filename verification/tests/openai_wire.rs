use providers::openai_wire::{
    build_vision_content, classify, convert_messages, convert_messages_with_vision,
    encode_message, message_for, ContentPart, Envelope, NativeContent, NativeMessage,
};
use providers::traits::ChatMessage;

fn text_of(message: &NativeMessage) -> &str {
    match &message.content {
        Some(NativeContent::Text(t)) => t.as_str(),
        other => panic!("expected Text, got {other:?}"),
    }
}

fn parts_of(content: Option<NativeContent>) -> Vec<ContentPart> {
    match content {
        Some(NativeContent::Parts(parts)) => parts,
        other => panic!("expected Parts, got {other:?}"),
    }
}

fn split(content: &str) -> Option<Vec<(bool, String)>> {
    build_vision_content(content).map(|c| {
        parts_of(Some(c))
            .into_iter()
            .map(|p| match p {
                ContentPart::Text { text } => (false, text),
                ContentPart::ImageUrl { image_url } => (true, image_url.url),
            })
            .collect()
    })
}

#[test]
fn convert_messages_plain_text() {
    let messages = vec![
        ChatMessage::system("You are helpful"),
        ChatMessage::user("Hello"),
    ];
    let native = convert_messages(&messages);
    assert_eq!(native.len(), 2);

    // System message
    match &native[0].content {
        Some(NativeContent::Text(t)) => assert_eq!(t, "You are helpful"),
        other => panic!("expected Text, got {other:?}"),
    }

    // User message
    match &native[1].content {
        Some(NativeContent::Text(t)) => assert_eq!(t, "Hello"),
        other => panic!("expected Text, got {other:?}"),
    }
}

#[test]
fn convert_messages_with_vision_creates_multipart_content() {
    let messages = vec![ChatMessage::user(
        &"Process this receipt [IMAGE:data:image/png;base64,abc123]".to_string(),
    )];
    let native = convert_messages_with_vision(&messages);
    assert_eq!(native.len(), 1);

    match &native[0].content {
        Some(NativeContent::Parts(parts)) => {
            assert_eq!(parts.len(), 2);
            match &parts[0] {
                ContentPart::Text { text } => assert_eq!(text, "Process this receipt"),
                other => panic!("expected Text part, got {other:?}"),
            }
            match &parts[1] {
                ContentPart::ImageUrl { image_url } => {
                    assert_eq!(image_url.url, "data:image/png;base64,abc123");
                }
                other => panic!("expected ImageUrl part, got {other:?}"),
            }
        }
        other => panic!("expected Parts, got {other:?}"),
    }
}

#[test]
fn convert_messages_with_vision_multiple_images() {
    let messages = vec![ChatMessage::user(
        &"Compare [IMAGE:data:image/png;base64,img1] and [IMAGE:data:image/jpeg;base64,img2]"
            .to_string(),
    )];
    let native = convert_messages_with_vision(&messages);

    match &native[0].content {
        Some(NativeContent::Parts(parts)) => {
            assert_eq!(parts.len(), 4); // text, image, text("and"), image
            // First text
            assert!(matches!(&parts[0], ContentPart::Text { text } if text == "Compare"));
            // First image
            assert!(
                matches!(&parts[1], ContentPart::ImageUrl { image_url } if image_url.url.contains("img1"))
            );
            // Middle text
            assert!(matches!(&parts[2], ContentPart::Text { text } if text == "and"));
            // Second image
            assert!(
                matches!(&parts[3], ContentPart::ImageUrl { image_url } if image_url.url.contains("img2"))
            );
        }
        other => panic!("expected Parts, got {other:?}"),
    }
}

#[test]
fn convert_messages_with_vision_no_markers_stays_text() {
    let messages = vec![ChatMessage::user(&"Just a normal message".to_string())];
    let native = convert_messages_with_vision(&messages);

    match &native[0].content {
        Some(NativeContent::Text(t)) => assert_eq!(t, "Just a normal message"),
        other => panic!("expected Text, got {other:?}"),
    }
}

#[test]
fn convert_messages_with_vision_non_user_messages_unchanged() {
    let messages = vec![
        ChatMessage::system("System [IMAGE:data:image/png;base64,ignored]"),
        ChatMessage::assistant("Assistant [IMAGE:data:image/png;base64,ignored]"),
    ];
    let native = convert_messages_with_vision(&messages);

    // System and assistant messages should remain as plain text
    assert!(matches!(&native[0].content, Some(NativeContent::Text(_))));
    assert!(matches!(&native[1].content, Some(NativeContent::Text(_))));
}

#[test]
fn convert_messages_without_vision_ignores_markers() {
    let messages = vec![ChatMessage::user(
        &"Receipt [IMAGE:data:image/png;base64,abc]".to_string(),
    )];
    let native = convert_messages(&messages);

    // Without vision flag, markers are kept as plain text
    match &native[0].content {
        Some(NativeContent::Text(t)) => {
            assert!(t.contains("[IMAGE:"));
        }
        other => panic!("expected Text, got {other:?}"),
    }
}

#[test]
fn build_vision_content_image_only() {
    let content = "[IMAGE:data:image/png;base64,abc123]";
    let result = build_vision_content(content).unwrap();

    match result {
        NativeContent::Parts(parts) => {
            assert_eq!(parts.len(), 1);
            assert!(matches!(&parts[0], ContentPart::ImageUrl { .. }));
        }
        other => panic!("expected Parts, got {other:?}"),
    }
}

#[test]
fn build_vision_content_no_markers_returns_none() {
    assert!(build_vision_content("no markers here").is_none());
}

#[test]
fn build_vision_content_empty_marker_returns_none() {
    assert!(build_vision_content("text [IMAGE:] more text").is_none());
}

#[test]
fn plain_user_message_is_passed_on_as_text() {
    let native = convert_messages(&[ChatMessage::user("hello")]);
    assert_eq!(native.len(), 1);
    assert_eq!(native[0].role, "user");
    assert_eq!(text_of(&native[0]), "hello");
    assert!(native[0].tool_call_id.is_none());
    assert!(native[0].tool_calls.is_none());
}

#[test]
fn assistant_tool_call_envelope_is_unpacked() {
    let content = r#"{"tool_calls":[{"id":"x","name":"f","arguments":"{}"}], "content":"note"}"#;
    let native = convert_messages(&[ChatMessage::assistant(content)]);
    assert_eq!(native.len(), 1);
    assert_eq!(native[0].role, "assistant");
    assert_eq!(text_of(&native[0]), "note");
    assert!(native[0].tool_call_id.is_none());
    let calls = native[0].tool_calls.as_ref().unwrap();
    assert_eq!(calls.len(), 1);
    assert_eq!(calls[0].id.as_deref(), Some("x"));
    assert_eq!(calls[0].kind.as_deref(), Some("function"));
    assert_eq!(calls[0].function.name, "f");
    assert_eq!(calls[0].function.arguments, "{}");
}

#[test]
fn assistant_tool_calls_without_prose_have_no_content() {
    let content = r#"{"tool_calls":[{"id":"a","name":"f","arguments":"1"},{"id":"b","name":"g","arguments":"2","extra":true}]}"#;
    let native = convert_messages(&[ChatMessage::assistant(content)]);
    assert!(native[0].content.is_none());
    let calls = native[0].tool_calls.as_ref().unwrap();
    assert_eq!(calls.len(), 2);
    assert_eq!(calls[0].id.as_deref(), Some("a"));
    assert_eq!(calls[1].id.as_deref(), Some("b"));
    assert_eq!(calls[1].function.name, "g");
    assert_eq!(calls[1].function.arguments, "2");
}

#[test]
fn assistant_content_that_is_not_a_string_is_dropped() {
    let content = r#"{"tool_calls":[], "content":{"nested":1}}"#;
    let native = convert_messages(&[ChatMessage::assistant(content)]);
    assert!(native[0].content.is_none());
    assert_eq!(native[0].tool_calls.as_ref().unwrap().len(), 0);
}

#[test]
fn assistant_tool_calls_in_positional_form_are_unpacked() {
    let content = r#"{"tool_calls":[["x","f","{}"]]}"#;
    let native = convert_messages(&[ChatMessage::assistant(content)]);
    let calls = native[0].tool_calls.as_ref().unwrap();
    assert_eq!(calls.len(), 1);
    assert_eq!(calls[0].id.as_deref(), Some("x"));
    assert_eq!(calls[0].function.name, "f");
    assert_eq!(calls[0].function.arguments, "{}");
}

#[test]
fn malformed_assistant_envelopes_fall_back_to_text() {
    let cases = [
        "not json at all",
        r#"{"content":"only prose"}"#,
        r#"{"tool_calls":"nope"}"#,
        r#"{"tool_calls":{"id":"x","name":"f","arguments":"{}"}}"#,
        r#"{"tool_calls":[{"id":"x","name":"f"}]}"#,
        r#"{"tool_calls":[{"id":1,"name":"f","arguments":"{}"}]}"#,
        r#"{"tool_calls":[{"id":"x","name":"f","arguments":{}}]}"#,
        r#"{"tool_calls":[["x","f"]]}"#,
        r#"{"tool_calls":[["x","f","{}","more"]]}"#,
        r#"{"tool_calls":[["x","f",3]]}"#,
        r#"{"tool_calls":[{"id":"x","name":"f","arguments":"{}"}, 7]}"#,
        r#"["tool_calls"]"#,
    ];
    for content in cases {
        let native = convert_messages(&[ChatMessage::assistant(content)]);
        assert_eq!(native[0].role, "assistant");
        assert_eq!(text_of(&native[0]), content);
        assert!(native[0].tool_call_id.is_none());
        assert!(native[0].tool_calls.is_none());
    }
}

#[test]
fn tool_result_envelope_is_unpacked() {
    let content = r#"{"tool_call_id":"x","content":"result"}"#;
    let native = convert_messages(&[ChatMessage::tool(content)]);
    assert_eq!(native.len(), 1);
    assert_eq!(native[0].role, "tool");
    assert_eq!(native[0].tool_call_id.as_deref(), Some("x"));
    assert_eq!(text_of(&native[0]), "result");
    assert!(native[0].tool_calls.is_none());
}

#[test]
fn malformed_tool_results_fall_back_to_text() {
    let cases = [
        "plain result",
        r#"{"tool_call_id":"x"}"#,
        r#"{"content":"result"}"#,
        r#"{"tool_call_id":7,"content":"result"}"#,
        r#"{"tool_call_id":"x","content":null}"#,
        "42",
        r#""a string""#,
        "[]",
    ];
    for content in cases {
        let native = convert_messages(&[ChatMessage::tool(content)]);
        assert_eq!(native[0].role, "tool");
        assert_eq!(text_of(&native[0]), content);
        assert!(native[0].tool_call_id.is_none());
        assert!(native[0].tool_calls.is_none());
    }
}

#[test]
fn envelopes_are_read_only_for_their_own_role() {
    let calls = r#"{"tool_calls":[{"id":"x","name":"f","arguments":"{}"}]}"#;
    let result = r#"{"tool_call_id":"x","content":"result"}"#;
    for message in [
        ChatMessage::user(calls),
        ChatMessage::system(calls),
        ChatMessage::tool(calls),
        ChatMessage::user(result),
        ChatMessage::assistant(result),
    ] {
        let native = convert_messages_with_vision(&[message.clone()]);
        assert_eq!(native[0].role, message.role);
        assert_eq!(text_of(&native[0]), message.content);
        assert!(native[0].tool_call_id.is_none());
        assert!(native[0].tool_calls.is_none());
    }
}

#[test]
fn conversion_keeps_length_and_order() {
    let messages = vec![
        ChatMessage::system("one"),
        ChatMessage::user("two"),
        ChatMessage::assistant("three"),
        ChatMessage::tool("four"),
        ChatMessage::user("five"),
    ];
    for native in [convert_messages(&messages), convert_messages_with_vision(&messages)] {
        assert_eq!(native.len(), messages.len());
        for (wire, message) in native.iter().zip(messages.iter()) {
            assert_eq!(wire.role, message.role);
            assert_eq!(text_of(wire), message.content);
        }
    }
    assert!(convert_messages(&[]).is_empty());
}

#[test]
fn classify_reads_the_parsed_value() {
    let doc = serde_json::from_str::<serde_json::Value>(
        r#"{"tool_calls":[{"id":"x","name":"f","arguments":"{}"}],"content":"note","tool_call_id":"t"}"#,
    )
    .unwrap();
    match classify("assistant", Some(&doc)) {
        Envelope::ToolCalls { calls, content } => {
            assert_eq!(calls.len(), 1);
            assert_eq!(calls[0].id, "x");
            assert_eq!(calls[0].name, "f");
            assert_eq!(calls[0].arguments, "{}");
            assert_eq!(content.as_deref(), Some("note"));
        }
        other => panic!("expected ToolCalls, got {other:?}"),
    }
    match classify("tool", Some(&doc)) {
        Envelope::ToolResult { tool_call_id, result } => {
            assert_eq!(tool_call_id, "t");
            assert_eq!(result, "note");
        }
        other => panic!("expected ToolResult, got {other:?}"),
    }
    assert!(matches!(classify("user", Some(&doc)), Envelope::PlainText));
    assert!(matches!(classify("assistant", None), Envelope::PlainText));
    assert!(matches!(classify("tool", None), Envelope::PlainText));
}

#[test]
fn message_for_follows_the_envelope() {
    let message = ChatMessage::user("see [IMAGE:ref]");
    let plain = message_for(&message, Envelope::PlainText, false);
    assert_eq!(text_of(&plain), "see [IMAGE:ref]");
    let vision = message_for(&message, Envelope::PlainText, true);
    assert_eq!(parts_of(vision.content).len(), 2);
    let result = message_for(
        &ChatMessage::tool("ignored"),
        Envelope::ToolResult { tool_call_id: "id".to_string(), result: "out".to_string() },
        true,
    );
    assert_eq!(result.role, "tool");
    assert_eq!(result.tool_call_id.as_deref(), Some("id"));
    assert_eq!(text_of(&result), "out");
    assert!(result.tool_calls.is_none());
}

#[test]
fn encode_message_matches_convert_messages() {
    let message = ChatMessage::tool(r#"{"tool_call_id":"x","content":"result"}"#);
    let one = encode_message(&message, false);
    assert_eq!(one.tool_call_id.as_deref(), Some("x"));
    assert_eq!(text_of(&one), "result");
}

#[test]
fn split_text_without_markers_has_no_images() {
    assert_eq!(split("plain text"), None);
    assert_eq!(split(""), None);
    assert_eq!(split("   "), None);
    assert_eq!(split("[IMAGE"), None);
    assert_eq!(split("IMAGE:abc]"), None);
}

#[test]
fn split_two_images_between_text() {
    assert_eq!(
        split("A [IMAGE:ref1] B [IMAGE:ref2] C"),
        Some(vec![
            (false, "A".to_string()),
            (true, "ref1".to_string()),
            (false, "B".to_string()),
            (true, "ref2".to_string()),
            (false, "C".to_string()),
        ])
    );
}

#[test]
fn split_empty_reference_is_no_image() {
    assert_eq!(split("[IMAGE:]"), None);
    assert_eq!(split("[IMAGE:   ]"), None);
    assert_eq!(split("[IMAGE:\t\n]"), None);
}

#[test]
fn split_unterminated_marker_is_no_image() {
    assert_eq!(split("text [IMAGE:abc"), None);
    let native = convert_messages_with_vision(&[ChatMessage::user("text [IMAGE:abc")]);
    assert_eq!(text_of(&native[0]), "text [IMAGE:abc");
}

#[test]
fn split_keeps_empty_markers_in_the_text() {
    assert_eq!(
        split("a [IMAGE:] b [IMAGE:x] c"),
        Some(vec![
            (false, "a [IMAGE:] b".to_string()),
            (true, "x".to_string()),
            (false, "c".to_string()),
        ])
    );
}

#[test]
fn split_keeps_an_unterminated_tail_as_text() {
    assert_eq!(
        split("[IMAGE:x] then [IMAGE:open"),
        Some(vec![(true, "x".to_string()), (false, "then [IMAGE:open".to_string())])
    );
}

#[test]
fn split_trims_references_and_text() {
    assert_eq!(
        split("  hi\n[IMAGE:  https://example.com/a.png \t]\u{a0} "),
        Some(vec![(false, "hi".to_string()), (true, "https://example.com/a.png".to_string())])
    );
    assert_eq!(
        split("[IMAGE:a][IMAGE:b]"),
        Some(vec![(true, "a".to_string()), (true, "b".to_string())])
    );
}

#[test]
fn split_takes_the_first_closing_bracket() {
    assert_eq!(
        split("[IMAGE:[IMAGE:x]]"),
        Some(vec![(true, "[IMAGE:x".to_string()), (false, "]".to_string())])
    );
}

#[test]
fn split_counts_characters_not_bytes() {
    assert_eq!(
        split("héllo wörld [IMAGE:データ] ✓ done"),
        Some(vec![
            (false, "héllo wörld".to_string()),
            (true, "データ".to_string()),
            (false, "✓ done".to_string()),
        ])
    );
}

#[test]
fn as_text_str_gives_plain_text_only() {
    assert_eq!(NativeContent::Text("hello".to_string()).as_text_str(), Some("hello"));
    assert_eq!(NativeContent::Parts(Vec::new()).as_text_str(), None);
}
