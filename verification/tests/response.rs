use greentic_llm::completion::AssistantContent;
use greentic_llm::response::{
    map_choice, map_completion_error, stream_usage_event, CompletionFailure, ReportedUsage,
};
use greentic_llm::{FinishReason, LlmError, StreamEvent};
use rig_core::OneOrMany;

fn json(text: &str) -> serde_json::Value {
    serde_json::from_str(text).expect("valid JSON")
}

fn no_usage() -> ReportedUsage {
    ReportedUsage {
        input_tokens: 0,
        output_tokens: 0,
    }
}

fn text(s: &str) -> AssistantContent {
    AssistantContent::Text(s.into())
}

fn call(id: &str, call_id: Option<&str>) -> AssistantContent {
    AssistantContent::ToolCall {
        id: id.into(),
        call_id: call_id.map(str::to_string),
        name: "lookup".into(),
        arguments: json("{\"q\": \"y\"}"),
    }
}

#[test]
fn maps_choice_with_tool_calls() {
    let choice =
        OneOrMany::many(vec![text("thinking"), call("call_9", None)]).expect("non-empty");
    let resp = map_choice(choice, no_usage(), None, "test-model");
    assert_eq!(resp.content, "thinking");
    assert_eq!(resp.tool_calls.len(), 1);
    assert_eq!(resp.tool_calls[0].id, "call_9");
    assert_eq!(resp.tool_calls[0].name, "lookup");
    assert_eq!(resp.finish_reason, FinishReason::ToolCalls);
}

#[test]
fn maps_choice_prefers_call_id_when_present() {
    let choice = OneOrMany::one(AssistantContent::ToolCall {
        id: "fc_123".into(),
        call_id: Some("call_abc".into()),
        name: "lookup".into(),
        arguments: json("{}"),
    });
    let resp = map_choice(choice, no_usage(), None, "test-model");
    assert_eq!(resp.tool_calls[0].id, "call_abc");
}

#[test]
fn maps_text_only_choice_to_stop() {
    let choice = OneOrMany::one(text("hello"));
    let resp = map_choice(choice, no_usage(), None, "test-model");
    assert_eq!(resp.content, "hello");
    assert!(resp.tool_calls.is_empty());
    assert_eq!(resp.finish_reason, FinishReason::Stop);
}

#[test]
fn output_at_max_tokens_cap_maps_to_length() {
    let choice = OneOrMany::one(text("truncated…"));
    let mut usage = no_usage();
    usage.output_tokens = 4096;
    let resp = map_choice(choice, usage, Some(4096), "test-model");
    assert_eq!(resp.finish_reason, FinishReason::Length);
}

#[test]
fn unreported_usage_never_maps_to_length() {
    // Zero output tokens mean that the provider did not report usage: never
    // infer truncation from it, even with a cap set.
    let choice = OneOrMany::one(text("hello"));
    let resp = map_choice(choice, no_usage(), Some(1), "test-model");
    assert_eq!(resp.finish_reason, FinishReason::Stop);

    // Below-cap usage with a cap set is also a normal stop.
    let choice = OneOrMany::one(text("hello"));
    let mut usage = no_usage();
    usage.output_tokens = 10;
    let resp = map_choice(choice, usage, Some(4096), "test-model");
    assert_eq!(resp.finish_reason, FinishReason::Stop);
}

#[test]
fn a_zero_usage_reading_produces_no_usage_event() {
    assert!(stream_usage_event(no_usage(), "test-model").is_none());
}

#[test]
fn a_real_usage_reading_produces_a_usage_event() {
    let mut reported = no_usage();
    reported.input_tokens = 12;
    reported.output_tokens = 5;
    let event = stream_usage_event(reported, "test-model").expect("usage reported");
    match event {
        StreamEvent::Usage(u) => {
            assert_eq!(u.model, "test-model");
            assert_eq!(u.input_tokens, 12);
            assert_eq!(u.output_tokens, 5);
        }
        other => panic!("expected a Usage event, got {other:?}"),
    }
}

#[test]
fn maps_completion_error_variants() {
    match map_completion_error(CompletionFailure::InvalidStatusCodeWithMessage(
        429,
        "slow down".into(),
    )) {
        LlmError::Status { status, body } => {
            assert_eq!(status, 429);
            assert_eq!(body, "slow down");
        }
        other => panic!("expected Status, got {other:?}"),
    }
    assert!(matches!(
        map_completion_error(CompletionFailure::Response("bad json".into())),
        LlmError::Parse(_)
    ));
    assert!(matches!(
        map_completion_error(CompletionFailure::Provider("overloaded".into())),
        LlmError::Transport(_)
    ));
}

#[test]
fn every_failure_keeps_its_text() {
    match map_completion_error(CompletionFailure::InvalidStatusCode(503)) {
        LlmError::Status { status, body } => {
            assert_eq!(status, 503);
            assert_eq!(body, "");
        }
        other => panic!("expected Status, got {other:?}"),
    }
    let cases = [
        (
            CompletionFailure::Http("h".into()),
            "provider HTTP error: h",
        ),
        (
            CompletionFailure::Json("j".into()),
            "provider response could not be parsed: j",
        ),
        (
            CompletionFailure::Url("u".into()),
            "invalid provider configuration: u",
        ),
        (
            CompletionFailure::Request("r".into()),
            "provider HTTP error: r",
        ),
        (
            CompletionFailure::Response("s".into()),
            "provider response could not be parsed: s",
        ),
        (
            CompletionFailure::Provider("p".into()),
            "provider HTTP error: p",
        ),
    ];
    for (failure, message) in cases {
        assert_eq!(map_completion_error(failure).message(), message);
    }
}

#[test]
fn text_parts_are_joined_by_newlines() {
    let choice = OneOrMany::many(vec![
        text("a"),
        AssistantContent::Reasoning,
        text(""),
        call("call_1", None),
        text("b"),
        AssistantContent::Image,
    ])
    .expect("non-empty");
    let resp = map_choice(choice, no_usage(), None, "m");
    assert_eq!(resp.content, "a\n\nb");
    assert_eq!(resp.tool_calls.len(), 1);
}

#[test]
fn an_empty_opening_adds_no_line() {
    let choice = OneOrMany::many(vec![text(""), text("a"), text("b")]).expect("non-empty");
    let resp = map_choice(choice, no_usage(), None, "m");
    assert_eq!(resp.content, "a\nb");
}

#[test]
fn unsurfaced_parts_leave_an_empty_reply() {
    let choice = OneOrMany::one(AssistantContent::Reasoning);
    let resp = map_choice(choice, no_usage(), None, "m");
    assert_eq!(resp.content, "");
    assert!(resp.tool_calls.is_empty());
    assert_eq!(resp.finish_reason, FinishReason::Stop);
}

#[test]
fn tool_calls_win_over_truncation() {
    let choice = OneOrMany::one(call("call_1", None));
    let usage = ReportedUsage {
        input_tokens: 3,
        output_tokens: 9,
    };
    let resp = map_choice(choice, usage, Some(9), "m");
    assert_eq!(resp.finish_reason, FinishReason::ToolCalls);
}

#[test]
fn truncation_needs_a_cap() {
    let usage = ReportedUsage {
        input_tokens: 3,
        output_tokens: 9,
    };
    let resp = map_choice(OneOrMany::one(text("t")), usage, None, "m");
    assert_eq!(resp.finish_reason, FinishReason::Stop);
    let resp = map_choice(OneOrMany::one(text("t")), usage, Some(10), "m");
    assert_eq!(resp.finish_reason, FinishReason::Stop);
    let resp = map_choice(OneOrMany::one(text("t")), usage, Some(8), "m");
    assert_eq!(resp.finish_reason, FinishReason::Length);
}

#[test]
fn replies_always_carry_usage() {
    let usage = ReportedUsage {
        input_tokens: 12,
        output_tokens: 8,
    };
    let resp = map_choice(OneOrMany::one(text("t")), usage, None, "gpt-4o");
    let u = resp.usage.expect("usage present");
    assert_eq!(u.model, "gpt-4o");
    assert_eq!(u.input_tokens, 12);
    assert_eq!(u.output_tokens, 8);
    let resp = map_choice(OneOrMany::one(text("t")), no_usage(), None, "gpt-4o");
    assert_eq!(resp.usage.expect("usage present").output_tokens, 0);
}
