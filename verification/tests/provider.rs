use greentic_llm::text::decimal_text;
use greentic_llm::{
    ChatImage, ChatMessage, ChatRequest, ChatResponse, FinishReason, LlmError, MessageRole,
    StreamEvent, Temperature, ToolCall, ToolDef, Usage,
};

fn json(text: &str) -> serde_json::Value {
    serde_json::from_str(text).expect("valid JSON")
}

#[test]
fn chat_response_holds_usage() {
    let r = ChatResponse {
        content: "hi".into(),
        tool_calls: vec![],
        finish_reason: FinishReason::Stop,
        usage: Some(Usage {
            model: "gpt-4o".into(),
            input_tokens: 12,
            output_tokens: 8,
        }),
    };
    let u = r.usage.as_ref().expect("usage present");
    assert_eq!(u.input_tokens, 12);
    assert_eq!(u.output_tokens, 8);
    assert_eq!(u.model, "gpt-4o");
}

#[test]
fn usage_defaults_to_zero() {
    let u = Usage::default();
    assert_eq!(u.input_tokens, 0);
    assert_eq!(u.output_tokens, 0);
    assert!(u.model.is_empty());
}

#[test]
fn tool_result_constructor_sets_role_and_id() {
    let m = ChatMessage::tool_result("call_1", "{\"ok\":true}");
    assert_eq!(m.role, MessageRole::Tool);
    assert_eq!(m.tool_call_id.as_deref(), Some("call_1"));
}

#[test]
fn assistant_with_tool_calls_carries_calls() {
    let m = ChatMessage::assistant_with_tool_calls(
        "",
        vec![ToolCall {
            id: "call_2".into(),
            name: "lookup".into(),
            arguments: json("{\"q\": \"x\"}"),
        }],
    );
    assert_eq!(m.role, MessageRole::Assistant);
    assert_eq!(m.tool_calls.len(), 1);
    assert_eq!(m.tool_calls[0].name, "lookup");
    assert!(m.tool_call_id.is_none());
}

#[test]
fn text_constructors_set_role_and_content_only() {
    let cases = [
        (ChatMessage::system("s"), MessageRole::System, "s"),
        (ChatMessage::user("u".to_string()), MessageRole::User, "u"),
        (ChatMessage::assistant("a"), MessageRole::Assistant, "a"),
        (
            ChatMessage::text(MessageRole::Tool, "t"),
            MessageRole::Tool,
            "t",
        ),
    ];
    for (m, role, content) in cases {
        assert_eq!(m.role, role);
        assert_eq!(m.content, content);
        assert!(m.images.is_empty());
        assert!(m.tool_calls.is_empty());
        assert!(m.tool_call_id.is_none());
    }
}

#[test]
fn error_messages_name_their_cause() {
    assert_eq!(
        LlmError::Transport("refused".into()).message(),
        "provider HTTP error: refused"
    );
    assert_eq!(
        LlmError::Status {
            status: 429,
            body: "slow down".into()
        }
        .message(),
        "provider returned status 429: slow down"
    );
    assert_eq!(
        LlmError::Parse("bad json".into()).message(),
        "provider response could not be parsed: bad json"
    );
    assert_eq!(
        LlmError::UnsupportedCapability("tools").message(),
        "capability 'tools' not supported by this provider"
    );
    assert_eq!(
        LlmError::Config("no endpoint".into()).message(),
        "invalid provider configuration: no endpoint"
    );
    assert_eq!(LlmError::Other("anything".into()).message(), "anything");
}

#[test]
fn numbers_are_printed_in_decimal() {
    for n in [0u16, 7, 9, 10, 99, 100, 404, 1000, 65535] {
        assert_eq!(decimal_text(n), n.to_string());
    }
}

#[test]
fn cloned_requests_hold_the_same() {
    let request = ChatRequest {
        messages: vec![
            ChatMessage {
                role: MessageRole::User,
                content: "look".into(),
                images: vec![ChatImage {
                    data_base64: "aGVsbG8=".into(),
                    media_type: "image/png".into(),
                }],
                tool_calls: vec![],
                tool_call_id: None,
            },
            ChatMessage::assistant_with_tool_calls(
                "thinking",
                vec![ToolCall {
                    id: "call_1".into(),
                    name: "lookup".into(),
                    arguments: json("{\"q\": [1, null, {\"deep\": true}]}"),
                }],
            ),
            ChatMessage::tool_result("call_1", "42"),
        ],
        tools: vec![ToolDef {
            name: "lookup".into(),
            description: "d".into(),
            schema: json("{\"type\": \"object\"}"),
        }],
        tool_choice: Some("auto".into()),
        max_tokens: Some(7),
        temperature: Some(Temperature {
            bits: 0.5f32.to_bits(),
        }),
    };
    assert_eq!(format!("{:?}", request.clone()), format!("{request:?}"));
}

#[test]
fn cloned_responses_and_events_hold_the_same() {
    let response = ChatResponse {
        content: "hi".into(),
        tool_calls: vec![ToolCall {
            id: "call_1".into(),
            name: "lookup".into(),
            arguments: json("{\"q\": \"x\"}"),
        }],
        finish_reason: FinishReason::Other("paused".into()),
        usage: Some(Usage {
            model: "m".into(),
            input_tokens: 1,
            output_tokens: 2,
        }),
    };
    assert_eq!(format!("{:?}", response.clone()), format!("{response:?}"));
    let events = vec![
        StreamEvent::TextChunk("t".into()),
        StreamEvent::ToolCallStart {
            id: "i".into(),
            name: "n".into(),
        },
        StreamEvent::ToolCallArgs {
            id: "i".into(),
            args_delta: "{".into(),
        },
        StreamEvent::ToolCallEnd {
            id: "i".into(),
            args: json("{}"),
        },
        StreamEvent::Usage(Usage::default()),
        StreamEvent::Done {
            finish_reason: FinishReason::ContentFilter,
        },
    ];
    assert_eq!(format!("{:?}", events.clone()), format!("{events:?}"));
}
