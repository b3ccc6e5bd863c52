use greentic_llm::mock::{TestLlmProvider, TestLlmProviderBuilder};
use greentic_llm::{
    Capabilities, ChatMessage, ChatRequest, ChatResponse, FinishReason, LlmError, ToolCall,
};

fn req() -> ChatRequest {
    ChatRequest {
        messages: vec![],
        tools: vec![],
        tool_choice: None,
        max_tokens: None,
        temperature: None,
    }
}

fn answer(content: &str) -> ChatResponse {
    ChatResponse {
        content: content.into(),
        tool_calls: vec![],
        finish_reason: FinishReason::Stop,
        usage: None,
    }
}

#[test]
fn mock_captures_requests() {
    let mut provider = TestLlmProviderBuilder::new().response_text("ok").build();
    assert!(provider.captured_requests().is_empty());

    let mut request = req();
    request.messages.push(ChatMessage::user("hi"));
    provider.chat(request).expect("mock chat succeeds");

    let captured = provider.captured_requests();
    assert_eq!(captured.len(), 1);
    assert_eq!(captured[0].messages.len(), 1);
    assert_eq!(captured[0].messages[0].content, "hi");
}

#[test]
fn scripted_responses_are_returned_in_order_then_fall_back() {
    let mut provider = TestLlmProviderBuilder::new()
        .response_text("fallback")
        .script_response(ChatResponse {
            content: String::new(),
            tool_calls: vec![ToolCall {
                id: "call_1".into(),
                name: "emit_answers".into(),
                arguments: serde_json::from_str("{\"name\": \"first\"}").expect("valid JSON"),
            }],
            finish_reason: FinishReason::ToolCalls,
            usage: None,
        })
        .script_response(ChatResponse {
            content: "second".into(),
            tool_calls: vec![],
            finish_reason: FinishReason::Stop,
            usage: None,
        })
        .build();

    let first = provider.chat(req()).unwrap();
    assert_eq!(first.tool_calls[0].name, "emit_answers");
    assert_eq!(first.finish_reason, FinishReason::ToolCalls);

    let second = provider.chat(req()).unwrap();
    assert_eq!(second.content, "second");

    let third = provider.chat(req()).unwrap();
    assert_eq!(third.content, "fallback");
}

#[test]
fn mock_provider_round_trip() {
    let mut provider = TestLlmProviderBuilder::new()
        .response_text("hello from mock")
        .build();
    let response = provider
        .chat(ChatRequest {
            messages: vec![ChatMessage::user("hi")],
            tools: vec![],
            tool_choice: None,
            max_tokens: None,
            temperature: None,
        })
        .expect("mock chat succeeds");
    assert_eq!(response.content, "hello from mock");
    assert_eq!(response.finish_reason, FinishReason::Stop);
}

#[test]
fn an_unconfigured_mock_supports_everything() {
    let mut provider = TestLlmProvider::default();
    assert_eq!(
        provider.capabilities(),
        Capabilities {
            chat: true,
            tools: true,
            streaming: true,
            vision: true,
            system_prompt: true,
        }
    );
    assert_eq!(provider.provider_name(), "mock");
    assert_eq!(provider.model(), "mock-model");
    let response = provider.chat(req()).expect("mock chat succeeds");
    assert_eq!(response.content, "mock response");
    assert!(response.tool_calls.is_empty());
    assert!(response.usage.is_none());
}

#[test]
fn a_mock_is_configurable() {
    let provider = TestLlmProviderBuilder::default()
        .capabilities(Capabilities::default())
        .provider_name("fake")
        .model("fake-1")
        .build();
    assert_eq!(provider.capabilities(), Capabilities::default());
    assert_eq!(provider.provider_name(), "fake");
    assert_eq!(provider.model(), "fake-1");
}

#[test]
fn a_mock_stream_is_the_text_and_done() {
    let mut provider = TestLlmProviderBuilder::new()
        .response_text("streamed")
        .script_response(answer("scripted"))
        .build();
    let events = provider.chat_stream(req()).expect("streams");
    assert_eq!(
        format!("{events:?}"),
        "[TextChunk(\"streamed\"), Done { finish_reason: Stop }]"
    );
    // Neither captured nor scripted.
    assert!(provider.captured_requests().is_empty());
    assert_eq!(provider.chat(req()).expect("answers").content, "scripted");
}

#[test]
fn a_mock_without_streaming_refuses_to_stream() {
    let provider = TestLlmProviderBuilder::new()
        .capabilities(Capabilities::default())
        .build();
    assert!(matches!(
        provider.chat_stream(req()),
        Err(LlmError::UnsupportedCapability("streaming"))
    ));
}

#[test]
fn requests_are_captured_in_call_order() {
    let mut provider = TestLlmProviderBuilder::new()
        .script_response(answer("a"))
        .build();
    for text in ["one", "two", "three"] {
        let mut request = req();
        request.messages.push(ChatMessage::user(text));
        provider.chat(request).expect("answers");
    }
    let seen: Vec<String> = provider
        .captured_requests()
        .iter()
        .map(|r| r.messages[0].content.clone())
        .collect();
    assert_eq!(seen, ["one", "two", "three"]);
}
