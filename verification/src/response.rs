//! From a provider's reply to the chat response: text, tool calls, finish
//! reason, usage, and errors.

use crate::completion::{take_assistant_parts, AssistantContent};
use crate::provider::{
    ChatResponse, FinishReason, LlmError, LlmErrorView, StreamEvent, StreamEventView, ToolCall,
    Usage, UsageView,
};
use rig_core::OneOrMany;
use vstd::prelude::*;
use vstd::string::*;

verus! {

/// Token counts as a provider reported them. Zero output tokens mean that the
/// provider did not report usage.
#[derive(Clone, Copy, Debug, PartialEq, Eq, Structural)]
pub struct ReportedUsage {
    pub input_tokens: u64,
    pub output_tokens: u64,
}

/// A successful completion: at least one content part, and the usage.
#[derive(Debug)]
pub struct Completion {
    pub choice: OneOrMany<AssistantContent>,
    pub usage: ReportedUsage,
}

/// A failed completion, by where it failed.
#[derive(Debug)]
pub enum CompletionFailure {
    /// The provider answered with an error status and no readable body.
    InvalidStatusCode(u16),
    /// The provider answered with an error status and a body.
    InvalidStatusCodeWithMessage(u16, String),
    /// Any other HTTP failure.
    Http(String),
    /// A body could not be encoded or decoded.
    Json(String),
    /// The endpoint is not a URL.
    Url(String),
    /// The request could not be built.
    Request(String),
    /// The response could not be understood.
    Response(String),
    /// The provider reported an error of its own.
    Provider(String),
}

// ---------------------------------------------------------------------------
// Models
// ---------------------------------------------------------------------------

/// The text of a reply: its text parts in order, each on a new line after
/// what came before it.
pub open spec fn reply_text(parts: Seq<AssistantContent>) -> Seq<char>
    decreases parts.len(),
{
    if parts.len() == 0 {
        Seq::empty()
    } else {
        let before = reply_text(parts.drop_last());
        match parts.last() {
            AssistantContent::Text(text) => if before.len() == 0 {
                text@
            } else {
                before + "\n"@ + text@
            },
            _ => before,
        }
    }
}

/// The text parts of a reply, in order.
pub open spec fn reply_lines(parts: Seq<AssistantContent>) -> Seq<Seq<char>> {
    parts.filter(|p: AssistantContent| p is Text).map_values(
        |p: AssistantContent| p->Text_0@,
    )
}

/// The id that correlates a call with its result: the provider's call id where
/// there is one, else the item's own id.
pub open spec fn correlation_id(id: String, call_id: Option<String>) -> String {
    match call_id {
        Some(c) => c,
        None => id,
    }
}

/// The call that a tool-call part surfaces.
pub open spec fn surfaced_call(part: AssistantContent) -> ToolCall {
    ToolCall {
        id: correlation_id(part->ToolCall_id, part->ToolCall_call_id),
        name: part->ToolCall_name,
        arguments: part->ToolCall_arguments,
    }
}

/// The tool calls of a reply, in order.
pub open spec fn reply_calls(parts: Seq<AssistantContent>) -> Seq<ToolCall> {
    parts.filter(|p: AssistantContent| p is ToolCall).map_values(
        |p: AssistantContent| surfaced_call(p),
    )
}

/// Whether the provider reported its usage.
pub open spec fn usage_reported(usage: ReportedUsage) -> bool {
    usage.output_tokens > 0
}

/// Whether a reply was cut off: the reported output reaches the requested cap.
pub open spec fn truncated(usage: ReportedUsage, cap: Option<u64>) -> bool {
    usage_reported(usage) && cap is Some && usage.output_tokens >= cap->0
}

/// Why a reply with these parts ended.
pub open spec fn reply_finish(
    parts: Seq<AssistantContent>,
    usage: ReportedUsage,
    cap: Option<u64>,
) -> FinishReason {
    if reply_calls(parts).len() > 0 {
        FinishReason::ToolCalls
    } else if truncated(usage, cap) {
        FinishReason::Length
    } else {
        FinishReason::Stop
    }
}

/// Usage attributed to a model.
pub open spec fn attributed(usage: ReportedUsage, model: Seq<char>) -> UsageView {
    UsageView {
        model,
        input_tokens: usage.input_tokens,
        output_tokens: usage.output_tokens,
    }
}

/// Whether `r` is the response that a reply stands for.
pub open spec fn answers(
    r: ChatResponse,
    parts: Seq<AssistantContent>,
    usage: ReportedUsage,
    cap: Option<u64>,
    model: Seq<char>,
) -> bool {
    &&& r.content@ == reply_text(parts)
    &&& r.tool_calls@ == reply_calls(parts)
    &&& r.finish_reason == reply_finish(parts, usage, cap)
    &&& r.usage is Some
    &&& r.usage->0@ == attributed(usage, model)
}

/// The error that a failure is reported as.
pub open spec fn failure_error(failure: CompletionFailure) -> LlmErrorView {
    match failure {
        CompletionFailure::InvalidStatusCode(status) => LlmErrorView::Status {
            status,
            body: Seq::empty(),
        },
        CompletionFailure::InvalidStatusCodeWithMessage(status, body) => LlmErrorView::Status {
            status,
            body: body@,
        },
        CompletionFailure::Http(text) => LlmErrorView::Transport(text@),
        CompletionFailure::Json(text) => LlmErrorView::Parse(text@),
        CompletionFailure::Url(text) => LlmErrorView::Config(text@),
        CompletionFailure::Request(text) => LlmErrorView::Transport(text@),
        CompletionFailure::Response(text) => LlmErrorView::Parse(text@),
        CompletionFailure::Provider(text) => LlmErrorView::Transport(text@),
    }
}

/// The usage event of a stream, if usage was reported.
pub open spec fn usage_event(usage: ReportedUsage, model: Seq<char>) -> Option<StreamEventView> {
    if usage_reported(usage) {
        Some(StreamEventView::Usage(attributed(usage, model)))
    } else {
        None
    }
}

// ---------------------------------------------------------------------------
// Conversion
// ---------------------------------------------------------------------------

/// The correlation id of a tool call.
pub(crate) fn take_correlation_id(id: String, call_id: Option<String>) -> (r: String)
    ensures
        r == correlation_id(id, call_id),
{
    match call_id {
        Some(c) => c,
        None => id,
    }
}

/// Map a provider's reply onto a [`ChatResponse`].
///
/// Text parts are concatenated (newline-joined); tool calls surface the
/// provider correlation id (`call_id` when present, else `id`) so the caller
/// can echo it back via [`crate::provider::ChatMessage::tool_result`].
/// Reasoning and image parts are not surfaced.
///
/// The reply carries no finish reason, so truncation is inferred from token
/// usage: when the reported `output_tokens` reaches the requested `max_tokens`
/// cap, the response was cut off and the finish reason is
/// [`FinishReason::Length`]. Providers that report no usage never report
/// `Length`.
///
/// `model` is the active model id; it is forwarded verbatim into
/// [`Usage::model`] so callers can attribute cost without keeping a separate
/// reference to the backend configuration.
pub fn map_choice(
    choice: OneOrMany<AssistantContent>,
    usage: ReportedUsage,
    requested_max_tokens: Option<u64>,
    model: &str,
) -> (r: ChatResponse)
    ensures
        answers(
            r,
            crate::completion::assistant_parts_in(choice),
            usage,
            requested_max_tokens,
            model@,
        ),
{
    let parts = take_assistant_parts(choice);
    let ghost all = parts@;
    let mut content = String::new();
    let mut tool_calls: Vec<ToolCall> = Vec::new();
    for part in it: parts
        invariant
            it.seq() == all,
            content@ == reply_text(all.take(it.index())),
            tool_calls@ == reply_calls(all.take(it.index())),
    {
        proof {
            lemma_reply_step(all, it.index());
            reveal_strlit("\n");
        }
        match part {
            AssistantContent::Text(text) => {
                if !content.as_str().is_empty() {
                    content.append("\n");
                }
                content.append(text.as_str());
                assert(content@ =~= reply_text(all.take(it.index() + 1)));
            },
            AssistantContent::ToolCall { id, call_id, name, arguments } => {
                tool_calls.push(
                    ToolCall { id: take_correlation_id(id, call_id), name, arguments },
                );
            },
            // Reasoning and image parts are not surfaced.
            AssistantContent::Reasoning => {},
            AssistantContent::Image => {},
        }
    }
    assert(all.take(all.len() as int) =~= all);
    let cut_off = usage.output_tokens > 0 && match requested_max_tokens {
        Some(cap) => usage.output_tokens >= cap,
        None => false,
    };
    let finish_reason = if tool_calls.len() > 0 {
        FinishReason::ToolCalls
    } else if cut_off {
        FinishReason::Length
    } else {
        FinishReason::Stop
    };
    let usage = Usage {
        model: model.to_string(),
        input_tokens: usage.input_tokens,
        output_tokens: usage.output_tokens,
    };
    ChatResponse { content, tool_calls, finish_reason, usage: Some(usage) }
}

/// Map end-of-stream usage onto a [`StreamEvent::Usage`], or `None` when the
/// provider did not report it.
///
/// A non-reporting provider yields zeros rather than an absence. This applies
/// the same `output_tokens == 0` convention [`map_choice`] uses for
/// truncation, so there is one rule for "the provider said nothing", not two.
pub fn stream_usage_event(reported: ReportedUsage, model: &str) -> (r: Option<StreamEvent>)
    ensures
        match r {
            Some(event) => usage_event(reported, model@) == Some(event@),
            None => usage_event(reported, model@) is None,
        },
{
    if reported.output_tokens == 0 {
        return None;
    }
    Some(
        StreamEvent::Usage(
            Usage {
                model: model.to_string(),
                input_tokens: reported.input_tokens,
                output_tokens: reported.output_tokens,
            },
        ),
    )
}

/// Map a failed completion onto [`LlmError`], preserving HTTP status codes
/// where there are any.
pub fn map_completion_error(failure: CompletionFailure) -> (r: LlmError)
    ensures
        r@ == failure_error(failure),
{
    match failure {
        CompletionFailure::InvalidStatusCode(status) => LlmError::Status {
            status,
            body: String::new(),
        },
        CompletionFailure::InvalidStatusCodeWithMessage(status, body) => LlmError::Status {
            status,
            body,
        },
        CompletionFailure::Http(text) => LlmError::Transport(text),
        CompletionFailure::Json(text) => LlmError::Parse(text),
        CompletionFailure::Url(text) => LlmError::Config(text),
        CompletionFailure::Request(text) => LlmError::Transport(text),
        CompletionFailure::Response(text) => LlmError::Parse(text),
        CompletionFailure::Provider(text) => LlmError::Transport(text),
    }
}

// ---------------------------------------------------------------------------
// Laws
// ---------------------------------------------------------------------------

/// A reply ends in `ToolCalls` exactly when it holds a tool call, and in
/// `Length` exactly when it holds none and its reported output reached the
/// cap; otherwise it ends in `Stop`.
pub proof fn finish_reason_is_exact(
    parts: Seq<AssistantContent>,
    usage: ReportedUsage,
    cap: Option<u64>,
)
    ensures
        reply_finish(parts, usage, cap) is ToolCalls <==> (exists|i: int|
            0 <= i < parts.len() && (#[trigger] parts[i]) is ToolCall),
        reply_finish(parts, usage, cap) is Length <==> (forall|i: int|
            0 <= i < parts.len() ==> !((#[trigger] parts[i]) is ToolCall)) && truncated(
            usage,
            cap,
        ),
        reply_finish(parts, usage, cap) is ToolCalls || reply_finish(parts, usage, cap) is Length
            || reply_finish(parts, usage, cap) is Stop,
{
    let is_call = |p: AssistantContent| p is ToolCall;
    if exists|i: int| 0 <= i < parts.len() && (#[trigger] parts[i]) is ToolCall {
        let i = choose|i: int| 0 <= i < parts.len() && (#[trigger] parts[i]) is ToolCall;
        assert(is_call(parts[i]));
        assert(parts.filter(is_call).contains(parts[i]));
    } else if reply_calls(parts).len() > 0 {
        let first = parts.filter(is_call)[0];
        assert(is_call(first));
        parts.lemma_filter_contains_rev(is_call, first);
    }
}

/// A provider that reports no usage never makes a reply end in `Length`,
/// whatever the cap, and never gives rise to a usage event.
pub proof fn unreported_usage_is_never_used(
    parts: Seq<AssistantContent>,
    usage: ReportedUsage,
    cap: Option<u64>,
    model: Seq<char>,
)
    requires
        !usage_reported(usage),
    ensures
        !(reply_finish(parts, usage, cap) is Length),
        usage_event(usage, model) is None,
{
}

/// The text of a reply is its text parts joined by newlines, unless it opens
/// with an empty text part that is followed by others: an empty opening adds
/// no line of its own.
pub proof fn reply_text_is_newline_joined(parts: Seq<AssistantContent>)
    requires
        reply_lines(parts).len() <= 1 || reply_lines(parts)[0].len() > 0,
    ensures
        reply_text(parts) == crate::text::join(reply_lines(parts), "\n"@),
    decreases parts.len(),
{
    reveal(Seq::filter);
    reveal_strlit("\n");
    if parts.len() > 0 {
        let rest = parts.drop_last();
        let before = reply_lines(rest);
        let lines = reply_lines(parts);
        if parts.last() is Text {
            assert(lines =~= before.push(parts.last()->Text_0@));
            assert(lines.drop_last() =~= before);
            if before.len() > 0 {
                assert(lines[0] == before[0]);
                reply_text_is_newline_joined(rest);
                join_is_not_empty(before);
            } else {
                reply_text_is_newline_joined(rest);
            }
        } else {
            assert(lines =~= before);
            reply_text_is_newline_joined(rest);
        }
    }
}

/// Lines that open with a non-empty one join to a non-empty text.
proof fn join_is_not_empty(lines: Seq<Seq<char>>)
    requires
        lines.len() > 0,
        lines[0].len() > 0,
    ensures
        crate::text::join(lines, "\n"@).len() > 0,
    decreases lines.len(),
{
    if lines.len() > 1 {
        assert(lines.drop_last()[0] == lines[0]);
        join_is_not_empty(lines.drop_last());
    }
}

/// One more part extends the text, or the calls, or neither.
proof fn lemma_reply_step(parts: Seq<AssistantContent>, i: int)
    requires
        0 <= i < parts.len(),
    ensures
        reply_text(parts.take(i + 1)) == match parts[i] {
            AssistantContent::Text(text) => if reply_text(parts.take(i)).len() == 0 {
                text@
            } else {
                reply_text(parts.take(i)) + "\n"@ + text@
            },
            _ => reply_text(parts.take(i)),
        },
        reply_calls(parts.take(i + 1)) == if parts[i] is ToolCall {
            reply_calls(parts.take(i)).push(surfaced_call(parts[i]))
        } else {
            reply_calls(parts.take(i))
        },
{
    reveal(Seq::filter);
    assert(parts.take(i + 1).drop_last() =~= parts.take(i));
    assert(parts.take(i + 1).last() == parts[i]);
    assert(reply_calls(parts.take(i + 1)) =~= if parts[i] is ToolCall {
        reply_calls(parts.take(i)).push(surfaced_call(parts[i]))
    } else {
        reply_calls(parts.take(i))
    });
}

} // verus!
