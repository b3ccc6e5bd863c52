use greentic_llm::completion::{
    AssistantContent, CompletionRequest, ImageMediaType, Message, ToolChoice, UserContent,
};
use greentic_llm::request::{
    build_completion_request, build_preamble, map_tool_choice, resolve_tool_choice,
};
use greentic_llm::response::{map_choice, ReportedUsage};
use greentic_llm::{
    ChatImage, ChatMessage, ChatRequest, LlmError, MessageRole, ProviderKind, Temperature,
    ToolCall, ToolDef,
};
use rig_core::OneOrMany;

fn json(text: &str) -> serde_json::Value {
    serde_json::from_str(text).expect("valid JSON")
}

fn tool_request() -> ChatRequest {
    ChatRequest {
        messages: vec![
            ChatMessage::system("you are helpful"),
            ChatMessage::user("hi"),
            ChatMessage::assistant_with_tool_calls(
                "",
                vec![ToolCall {
                    id: "call_1".into(),
                    name: "lookup".into(),
                    arguments: json("{\"q\": \"x\"}"),
                }],
            ),
            ChatMessage::tool_result("call_1", "{\"answer\":42}"),
        ],
        tools: vec![ToolDef {
            name: "lookup".into(),
            description: "d".into(),
            schema: json("{\"type\": \"object\"}"),
        }],
        tool_choice: Some("auto".into()),
        max_tokens: None,
        temperature: Some(Temperature {
            bits: 0.2f32.to_bits(),
        }),
    }
}

fn tool_request_with_choice(choice: Option<&str>) -> ChatRequest {
    let mut req = tool_request();
    req.tool_choice = choice.map(str::to_string);
    req
}

fn plain_request(messages: Vec<ChatMessage>) -> ChatRequest {
    ChatRequest {
        messages,
        tools: vec![],
        tool_choice: None,
        max_tokens: None,
        temperature: None,
    }
}

fn image(data: &str, media_type: &str) -> ChatImage {
    ChatImage {
        data_base64: data.into(),
        media_type: media_type.into(),
    }
}

fn history(request: CompletionRequest) -> Vec<Message> {
    request.chat_history.into_iter().collect()
}

#[test]
fn builds_completion_request_with_tools_and_history() {
    let r = build_completion_request(tool_request(), ProviderKind::Anthropic).expect("convert");
    assert_eq!(r.preamble.as_deref(), Some("you are helpful"));
    assert_eq!(r.tools.len(), 1);
    assert_eq!(r.tools[0].name, "lookup");
    assert_eq!(r.max_tokens, Some(32_768)); // anthropic default
    assert_eq!(
        r.temperature.map(|t| f64::from(f32::from_bits(t.bits))),
        Some(0.2f32 as f64)
    );
    assert_eq!(r.chat_history.len(), 3); // user, assistant(tool_call), tool-result
    assert!(matches!(r.tool_choice, Some(ToolChoice::Auto)));
}

#[test]
fn non_anthropic_max_tokens_stays_unset() {
    let r = build_completion_request(tool_request(), ProviderKind::Openai).expect("convert");
    assert_eq!(r.max_tokens, None);
}

#[test]
fn tool_call_history_round_trips_through_rig_messages() {
    let r = build_completion_request(tool_request(), ProviderKind::Openai).expect("convert");
    let history = history(r);
    match &history[1] {
        Message::Assistant { content } => match content.first() {
            AssistantContent::ToolCall { id, name, .. } => {
                assert_eq!(id, "call_1");
                assert_eq!(name, "lookup");
            }
            other => panic!("expected tool call, got {other:?}"),
        },
        other => panic!("expected assistant message, got {other:?}"),
    }
    match &history[2] {
        Message::User { content } => match content.first() {
            UserContent::ToolResult { id, .. } => {
                assert_eq!(id, "call_1");
            }
            other => panic!("expected tool result, got {other:?}"),
        },
        other => panic!("expected user(tool result) message, got {other:?}"),
    }
}

#[test]
fn user_message_with_image_becomes_image_content() {
    let mut msg = ChatMessage::user("look at this");
    msg.images.push(image("aGVsbG8=", "image/png"));
    let r = build_completion_request(plain_request(vec![msg]), ProviderKind::Openai)
        .expect("convert");
    match &history(r)[0] {
        Message::User { content } => {
            let parts: Vec<_> = content.iter().collect();
            assert_eq!(parts.len(), 2);
            assert!(matches!(parts[0], UserContent::Text(_)));
            match parts[1] {
                UserContent::Image { media_type, .. } => {
                    assert_eq!(*media_type, Some(ImageMediaType::PNG));
                }
                other => panic!("expected image content, got {other:?}"),
            }
        }
        other => panic!("expected user message, got {other:?}"),
    }
}

#[test]
fn unknown_image_mime_type_passes_through_as_none() {
    let mut msg = ChatMessage::user("look at this");
    msg.images.push(image("aGVsbG8=", "image/x-unknown"));
    let r = build_completion_request(plain_request(vec![msg]), ProviderKind::Openai)
        .expect("convert");
    match &history(r)[0] {
        Message::User { content } => {
            let parts: Vec<_> = content.iter().collect();
            match parts[1] {
                UserContent::Image { media_type, .. } => {
                    assert_eq!(*media_type, None);
                }
                other => panic!("expected image content, got {other:?}"),
            }
        }
        other => panic!("expected user message, got {other:?}"),
    }
}

#[test]
fn multi_image_user_message_keeps_text_then_images_in_order() {
    let mut msg = ChatMessage::user("two pictures");
    msg.images.push(image("Zmlyc3Q=", "image/png"));
    msg.images.push(image("c2Vjb25k", "image/jpeg"));
    let r = build_completion_request(plain_request(vec![msg]), ProviderKind::Openai)
        .expect("convert");
    match &history(r)[0] {
        Message::User { content } => {
            let parts: Vec<_> = content.iter().collect();
            assert_eq!(parts.len(), 3);
            match parts[0] {
                UserContent::Text(t) => {
                    assert_eq!(t, "two pictures");
                }
                other => panic!("expected text content, got {other:?}"),
            }
            let expected = [
                ("Zmlyc3Q=", ImageMediaType::PNG),
                ("c2Vjb25k", ImageMediaType::JPEG),
            ];
            for (part, (data, expected_type)) in parts[1..].iter().zip(expected) {
                match part {
                    UserContent::Image {
                        data_base64,
                        media_type,
                    } => {
                        assert_eq!(*media_type, Some(expected_type));
                        assert_eq!(data_base64, data);
                    }
                    other => panic!("expected image content, got {other:?}"),
                }
            }
        }
        other => panic!("expected user message, got {other:?}"),
    }
}

#[test]
fn tool_message_without_tool_call_id_is_a_parse_error() {
    let unkeyed_tool_msg = ChatMessage {
        role: MessageRole::Tool,
        content: "{\"answer\":42}".into(),
        images: vec![],
        tool_calls: vec![],
        tool_call_id: None,
    };
    let req = plain_request(vec![ChatMessage::user("hi"), unkeyed_tool_msg]);
    let err = build_completion_request(req, ProviderKind::Openai)
        .expect_err("unkeyed tool result must be rejected");
    match err {
        LlmError::Parse(msg) => assert!(msg.contains("tool_call_id"), "message: {msg}"),
        other => panic!("expected Parse error, got {other:?}"),
    }
}

#[test]
fn all_system_messages_is_an_error_not_panic() {
    let req = plain_request(vec![ChatMessage::system("only system")]);
    let err = build_completion_request(req, ProviderKind::Openai)
        .expect_err("no chat turns must be an error");
    assert!(matches!(err, LlmError::Parse(_)));
}

#[test]
fn ollama_auto_or_absent_keeps_tools_and_forwards_no_choice() {
    for choice in [None, Some("auto")] {
        let r = build_completion_request(tool_request_with_choice(choice), ProviderKind::Ollama)
            .expect("convert");
        assert_eq!(r.tools.len(), 1, "{choice:?}: tools must be advertised");
        assert!(r.tool_choice.is_none(), "{choice:?}");
    }
}

#[test]
fn ollama_none_withholds_the_tools() {
    let r = build_completion_request(tool_request_with_choice(Some("none")), ProviderKind::Ollama)
        .expect("convert");
    assert!(r.tools.is_empty(), "a model with no tools cannot call one");
    assert!(r.tool_choice.is_none());
    // History, tool calls and tool results included, is untouched.
    assert_eq!(r.chat_history.len(), 3);
}

#[test]
fn ollama_refuses_choices_it_cannot_express() {
    let cases = [
        ("required", "tool_choice=required"),
        ("lookup", "tool_choice=<named function>"),
    ];
    for (choice, capability) in cases {
        let err = build_completion_request(
            tool_request_with_choice(Some(choice)),
            ProviderKind::Ollama,
        )
        .expect_err("must refuse rather than send an un-forced request");
        match err {
            LlmError::UnsupportedCapability(c) => assert_eq!(c, capability, "{choice}"),
            other => panic!("{choice}: unexpected error {other:?}"),
        }
    }
}

#[test]
fn non_ollama_providers_forward_tool_choice_unchanged() {
    for kind in [ProviderKind::Openai, ProviderKind::Llamafile] {
        let r = build_completion_request(tool_request_with_choice(Some("none")), kind)
            .expect("convert");
        assert_eq!(r.tools.len(), 1, "{kind:?}");
        assert!(matches!(r.tool_choice, Some(ToolChoice::Never)));
        let r = build_completion_request(tool_request_with_choice(Some("required")), kind)
            .expect("convert");
        assert!(matches!(r.tool_choice, Some(ToolChoice::Required)));
    }
}

#[test]
fn maps_tool_choice_strings() {
    assert!(map_tool_choice(None).is_none());
    assert!(matches!(
        map_tool_choice(Some("auto")),
        Some(ToolChoice::Auto)
    ));
    assert!(matches!(
        map_tool_choice(Some("none")),
        Some(ToolChoice::Never)
    ));
    assert!(matches!(
        map_tool_choice(Some("required")),
        Some(ToolChoice::Required)
    ));
    match map_tool_choice(Some("lookup")) {
        Some(ToolChoice::Specific { function_names }) => {
            assert_eq!(function_names, vec!["lookup".to_string()]);
        }
        other => panic!("expected Specific, got {other:?}"),
    }
}

#[test]
fn preamble_lifts_only_system_messages() {
    let messages = vec![
        ChatMessage::system("be concise"),
        ChatMessage::user("hello"),
        ChatMessage::system("answer in english"),
    ];
    let preamble = build_preamble(&messages).expect("preamble");
    assert_eq!(preamble, "be concise\n\nanswer in english");
}

#[test]
fn preamble_returns_none_without_system() {
    let messages = vec![ChatMessage::user("hello")];
    assert!(build_preamble(&messages).is_none());
}

#[test]
fn multi_turn_history_maps_each_turn() {
    let req = plain_request(vec![
        ChatMessage::user("first turn"),
        ChatMessage::assistant("first reply"),
        ChatMessage::user("second turn"),
    ]);
    let r = build_completion_request(req, ProviderKind::Openai).expect("convert");
    assert_eq!(r.chat_history.len(), 3);
    assert!(r.preamble.is_none());
}

#[test]
fn tool_choice_names_are_matched_exactly() {
    match map_tool_choice(Some("Auto")) {
        Some(ToolChoice::Specific { function_names }) => assert_eq!(function_names, ["Auto"]),
        other => panic!("expected Specific, got {other:?}"),
    }
    match map_tool_choice(Some("")) {
        Some(ToolChoice::Specific { function_names }) => assert_eq!(function_names, [""]),
        other => panic!("expected Specific, got {other:?}"),
    }
}

#[test]
fn an_empty_system_message_still_makes_a_preamble() {
    let messages = vec![ChatMessage::system("")];
    assert_eq!(build_preamble(&messages), Some(String::new()));
    let messages = vec![
        ChatMessage::system(""),
        ChatMessage::system("b"),
        ChatMessage::system(""),
    ];
    assert_eq!(build_preamble(&messages), Some("\n\nb\n\n".to_string()));
}

#[test]
fn every_known_media_type_is_recognised() {
    let known = [
        ("image/jpeg", ImageMediaType::JPEG),
        ("image/png", ImageMediaType::PNG),
        ("image/gif", ImageMediaType::GIF),
        ("image/webp", ImageMediaType::WEBP),
        ("image/heic", ImageMediaType::HEIC),
        ("image/heif", ImageMediaType::HEIF),
        ("image/svg+xml", ImageMediaType::SVG),
    ];
    for (mime, expected) in known {
        let mut msg = ChatMessage::user("");
        msg.images.push(image("aGVsbG8=", mime));
        let r = build_completion_request(plain_request(vec![msg]), ProviderKind::Openai)
            .expect("convert");
        match &history(r)[0] {
            Message::User { content } => {
                // No text part beside an image when the text is empty.
                assert_eq!(content.len(), 1, "{mime}");
                match content.first() {
                    UserContent::Image { media_type, .. } => {
                        assert_eq!(media_type, Some(expected), "{mime}");
                    }
                    other => panic!("expected image content, got {other:?}"),
                }
            }
            other => panic!("expected user message, got {other:?}"),
        }
    }
}

#[test]
fn media_types_are_matched_exactly() {
    for mime in ["IMAGE/PNG", "image/jpg", "image/png ", ""] {
        let mut msg = ChatMessage::user("look");
        msg.images.push(image("aGVsbG8=", mime));
        let r = build_completion_request(plain_request(vec![msg]), ProviderKind::Openai)
            .expect("convert");
        match &history(r)[0] {
            Message::User { content } => match content.last() {
                UserContent::Image { media_type, .. } => assert_eq!(media_type, None, "{mime}"),
                other => panic!("expected image content, got {other:?}"),
            },
            other => panic!("expected user message, got {other:?}"),
        }
    }
}

#[test]
fn an_empty_user_message_keeps_its_turn() {
    let r = build_completion_request(
        plain_request(vec![ChatMessage::user("")]),
        ProviderKind::Openai,
    )
    .expect("convert");
    match &history(r)[0] {
        Message::User { content } => match content.first() {
            UserContent::Text(text) => assert_eq!(text, ""),
            other => panic!("expected text content, got {other:?}"),
        },
        other => panic!("expected user message, got {other:?}"),
    }
}

#[test]
fn empty_assistant_placeholders_are_skipped() {
    let r = build_completion_request(
        plain_request(vec![ChatMessage::user("hi"), ChatMessage::assistant("")]),
        ProviderKind::Openai,
    )
    .expect("convert");
    assert_eq!(r.chat_history.len(), 1);
    let err = build_completion_request(
        plain_request(vec![ChatMessage::assistant("")]),
        ProviderKind::Openai,
    )
    .expect_err("nothing to send");
    match err {
        LlmError::Parse(msg) => {
            assert_eq!(msg, "request contained no user/assistant/tool messages")
        }
        other => panic!("expected Parse error, got {other:?}"),
    }
}

#[test]
fn assistant_text_comes_before_its_calls() {
    let call = |id: &str| ToolCall {
        id: id.into(),
        name: "lookup".into(),
        arguments: json("{\"q\": 1}"),
    };
    let r = build_completion_request(
        plain_request(vec![ChatMessage::assistant_with_tool_calls(
            "thinking",
            vec![call("call_1"), call("call_2")],
        )]),
        ProviderKind::Openai,
    )
    .expect("convert");
    match &history(r)[0] {
        Message::Assistant { content } => {
            let parts: Vec<_> = content.iter().collect();
            assert_eq!(parts.len(), 3);
            assert!(matches!(parts[0], AssistantContent::Text(t) if t == "thinking"));
            for (part, expected) in parts[1..].iter().zip(["call_1", "call_2"]) {
                match part {
                    AssistantContent::ToolCall {
                        id,
                        call_id,
                        arguments,
                        ..
                    } => {
                        assert_eq!(id, expected);
                        assert!(call_id.is_none());
                        assert_eq!(*arguments, json("{\"q\": 1}"));
                    }
                    other => panic!("expected tool call, got {other:?}"),
                }
            }
        }
        other => panic!("expected assistant message, got {other:?}"),
    }
}

#[test]
fn explicit_budgets_are_kept() {
    for kind in [ProviderKind::Anthropic, ProviderKind::Openai] {
        let mut req = tool_request();
        req.max_tokens = Some(u32::MAX);
        let r = build_completion_request(req, kind).expect("convert");
        assert_eq!(r.max_tokens, Some(4_294_967_295));
    }
}

#[test]
fn a_refused_choice_comes_before_other_errors() {
    let mut req = tool_request_with_choice(Some("required"));
    req.messages = vec![ChatMessage::text(MessageRole::Tool, "unkeyed")];
    let err = build_completion_request(req, ProviderKind::Ollama).expect_err("refused");
    assert!(matches!(
        err,
        LlmError::UnsupportedCapability("tool_choice=required")
    ));
    let mut req = tool_request_with_choice(Some("required"));
    req.messages = vec![ChatMessage::text(MessageRole::Tool, "unkeyed")];
    match build_completion_request(req, ProviderKind::Openai).expect_err("unkeyed") {
        LlmError::Parse(msg) => assert_eq!(msg, "tool message missing tool_call_id"),
        other => panic!("expected Parse error, got {other:?}"),
    }
}

#[test]
fn resolving_a_choice_is_provider_specific() {
    let tools = || {
        vec![ToolDef {
            name: "lookup".into(),
            description: "d".into(),
            schema: json("{}"),
        }]
    };
    let (sent, choice) =
        resolve_tool_choice(ProviderKind::Ollama, tools(), Some("none")).expect("resolves");
    assert!(sent.is_empty());
    assert!(choice.is_none());
    let (sent, choice) =
        resolve_tool_choice(ProviderKind::Groq, tools(), Some("none")).expect("resolves");
    assert_eq!(sent.len(), 1);
    assert!(matches!(choice, Some(ToolChoice::Never)));
}

#[test]
fn a_longer_conversation_extends_the_history() {
    let first = || {
        vec![
            ChatMessage::user("one"),
            ChatMessage::system("aside"),
            ChatMessage::assistant("two"),
        ]
    };
    let mut longer = first();
    longer.push(ChatMessage::user("three"));
    let short = history(
        build_completion_request(plain_request(first()), ProviderKind::Openai).expect("convert"),
    );
    let long = history(
        build_completion_request(plain_request(longer), ProviderKind::Openai).expect("convert"),
    );
    assert_eq!(long.len(), short.len() + 1);
    assert_eq!(format!("{:?}", &long[..2]), format!("{short:?}"));
}

#[test]
fn a_tool_loop_keeps_the_ids_of_the_reply() {
    let reply = OneOrMany::many(vec![
        AssistantContent::ToolCall {
            id: "fc_1".into(),
            call_id: Some("call_a".into()),
            name: "lookup".into(),
            arguments: json("{}"),
        },
        AssistantContent::ToolCall {
            id: "call_b".into(),
            call_id: None,
            name: "lookup".into(),
            arguments: json("{}"),
        },
    ])
    .expect("non-empty");
    let usage = ReportedUsage {
        input_tokens: 0,
        output_tokens: 0,
    };
    let response = map_choice(reply, usage, None, "m");
    let mut messages = vec![ChatMessage::assistant_with_tool_calls(
        response.content.clone(),
        response.tool_calls.clone(),
    )];
    for call in &response.tool_calls {
        messages.push(ChatMessage::tool_result(call.id.clone(), "ok"));
    }
    let turns = history(
        build_completion_request(plain_request(messages), ProviderKind::Openai).expect("convert"),
    );
    assert_eq!(turns.len(), 3);
    let sent: Vec<String> = match &turns[0] {
        Message::Assistant { content } => content
            .iter()
            .map(|part| match part {
                AssistantContent::ToolCall { id, .. } => id.clone(),
                other => panic!("expected tool call, got {other:?}"),
            })
            .collect(),
        other => panic!("expected assistant message, got {other:?}"),
    };
    assert_eq!(sent, ["call_a", "call_b"]);
    for (turn, expected) in turns[1..].iter().zip(["call_a", "call_b"]) {
        match turn {
            Message::User { content } => match content.first() {
                UserContent::ToolResult { id, content } => {
                    assert_eq!(id, expected);
                    assert_eq!(content, "ok");
                }
                other => panic!("expected tool result, got {other:?}"),
            },
            other => panic!("expected user message, got {other:?}"),
        }
    }
}

#[test]
fn cloned_turns_hold_the_same_parts() {
    let turns = history(
        build_completion_request(tool_request(), ProviderKind::Openai).expect("convert"),
    );
    assert_eq!(format!("{:?}", turns.clone()), format!("{turns:?}"));
}
