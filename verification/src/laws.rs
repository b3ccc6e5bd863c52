//! What callers can rely on, said of the operations themselves.
//!
//! Each law takes the arguments and the result of one or more calls, and says
//! how they relate in terms of the values alone: the fields of the messages,
//! the parts of the reply, the chunks of the stream, the texts of the errors.
//! `call_ensures(f, args, r)` reads "`f`, called with `args`, returned `r`".

#![allow(unused_imports)]

use crate::capabilities::{Capabilities, ProviderKind};
use crate::completion::{AssistantContent, CompletionRequest, Message, ToolChoice, UserContent};
use crate::credentials::{CredError, Credential, EnvCredentialSource, EnvVars};
use crate::mock::{TestLlmProvider, TestLlmProviderBuilder};
use crate::provider::{
    ChatMessage, ChatRequest, ChatResponse, LlmError, LlmErrorView,
    MessageRole, StreamEvent, StreamEventView, ToolCall, ToolDef,
};
use crate::request::{
    build_completion_request, build_preamble, map_tool_choice, resolve_tool_choice,
};
use crate::response::{
    map_choice, map_completion_error, stream_usage_event, Completion, CompletionFailure,
    ReportedUsage,
};
use crate::rig_backend::{
    check_capabilities, foundry_openai_base, plan_client, ClientPlan, Features, PendingChat,
    RigBackend,
};
use crate::stream::{map_rig_stream, StreamAdapter, StreamChunk, StreamEnd};
use rig_core::OneOrMany;
use vstd::prelude::*;

verus! {

// ---------------------------------------------------------------------------
// Requests
// ---------------------------------------------------------------------------

/// The history is the conversation. `at[k]` is the message that turn `k` came
/// from: turns come in the order of their messages; every user and tool message
/// has a turn, every assistant message has one unless it holds neither text nor
/// calls, and no system message has one. Turns keep their speaker and hold
/// exactly what was said:
///
/// - an assistant message becomes an assistant turn, and nothing else does: its
///   text first, unless that is empty, then its calls in order, with their ids,
///   names and arguments;
/// - a user message becomes its text, unless that is empty beside images, then
///   its images in order;
/// - a tool message becomes one result, under the id of the call it answers.
pub proof fn history_is_the_conversation<C>(
    req: ChatRequest,
    kind: ProviderKind,
    backend: &RigBackend<C>,
    out: CompletionRequest,
    pending: PendingChat,
) -> (at: Seq<int>)
    requires
        call_ensures(build_completion_request, (req, kind), Ok(out)) || call_ensures(
            RigBackend::<C>::chat_request,
            (backend, req),
            Ok((out, pending)),
        ),
    ensures
        ({
            let sent = crate::completion::messages_in(out.chat_history);
            let said = req.messages@;
            &&& at.len() == sent.len()
            &&& forall|k: int| 0 <= k < at.len() ==> 0 <= #[trigger] at[k] < said.len()
            &&& forall|k: int, l: int| 0 <= k < l < at.len() ==> at[k] < at[l]
            &&& forall|i: int|
                0 <= i < said.len() ==> (at.contains(i) <==> match (#[trigger] said[i]).role {
                    MessageRole::System => false,
                    MessageRole::User => true,
                    MessageRole::Assistant => said[i].content@.len() > 0
                        || said[i].tool_calls@.len() > 0,
                    MessageRole::Tool => true,
                })
            &&& forall|k: int|
                0 <= k < at.len() ==> ((#[trigger] sent[k]) is Assistant
                    <==> said[at[k]].role is Assistant)
            // Assistant turns.
            &&& forall|k: int|
                0 <= k < at.len() && said[at[k]].role is Assistant ==> {
                    let m = said[at[k]];
                    let parts = crate::completion::assistant_parts_in(
                        (#[trigger] sent[k])->Assistant_content,
                    );
                    let texts: int = if m.content@.len() > 0 { 1 } else { 0 };
                    &&& parts.len() == texts + m.tool_calls@.len()
                    &&& m.content@.len() > 0 ==> parts[0] == AssistantContent::Text(m.content)
                    &&& forall|j: int|
                        0 <= j < m.tool_calls@.len() ==> #[trigger] parts[texts + j]
                            == (AssistantContent::ToolCall {
                            id: m.tool_calls@[j].id,
                            call_id: None,
                            name: m.tool_calls@[j].name,
                            arguments: m.tool_calls@[j].arguments,
                        })
                }
            // User turns.
            &&& forall|k: int|
                0 <= k < at.len() && said[at[k]].role is User ==> {
                    let m = said[at[k]];
                    let parts = crate::completion::user_parts_in((#[trigger] sent[k])->User_content);
                    let texts: int = if m.content@.len() > 0 || m.images@.len() == 0 { 1 } else { 0 };
                    &&& parts.len() == texts + m.images@.len()
                    &&& texts == 1 ==> parts[0] == UserContent::Text(m.content)
                    &&& forall|j: int|
                        0 <= j < m.images@.len() ==> #[trigger] parts[texts + j]
                            == (UserContent::Image {
                            data_base64: m.images@[j].data_base64,
                            media_type: crate::completion::image_media_type_of(
                                m.images@[j].media_type@,
                            ),
                        })
                }
            // Tool results.
            &&& forall|k: int|
                0 <= k < at.len() && said[at[k]].role is Tool ==> {
                    let m = said[at[k]];
                    &&& m.tool_call_id is Some
                    &&& crate::completion::user_parts_in((#[trigger] sent[k])->User_content) == seq![
                        UserContent::ToolResult { id: m.tool_call_id->0, content: m.content },
                    ]
                }
        }),
{
    let sent = crate::completion::messages_in(out.chat_history);
    let said = req.messages@;
    let speaks = |m: ChatMessage| crate::request::takes_turn(m);
    let at = lemma_filter_positions(said, speaks);
    assert(out.history() == crate::request::turns(said));
    assert(out.history().len() == sent.len());
    assert forall|i: int| 0 <= i < said.len() implies (at.contains(i) <==> speaks(
        #[trigger] said[i],
    )) by {}
    assert forall|k: int| 0 <= k < at.len() implies (#[trigger] sent[k])@
        == crate::request::turn_of(said[at[k]]) && speaks(said[at[k]]) by {
        assert(out.history()[k] == sent[k]@);
        assert(crate::request::turns(said)[k] == crate::request::turn_of(said.filter(speaks)[k]));
    }
    assert(!crate::request::has_unkeyed(said));
    assert forall|k: int| 0 <= k < at.len() && said[at[k]].role is Tool implies said[at[k]].tool_call_id
        is Some by {
        assert(!crate::request::unkeyed(said[at[k]]));
    }
    assert forall|k: int| 0 <= k < at.len() && said[at[k]].role is Assistant implies {
        let m = said[at[k]];
        let parts = crate::completion::assistant_parts_in((#[trigger] sent[k])->Assistant_content);
        let texts: int = if m.content@.len() > 0 { 1 } else { 0 };
        &&& parts.len() == texts + m.tool_calls@.len()
        &&& m.content@.len() > 0 ==> parts[0] == AssistantContent::Text(m.content)
        &&& forall|j: int|
            0 <= j < m.tool_calls@.len() ==> #[trigger] parts[texts + j]
                == (AssistantContent::ToolCall {
                id: m.tool_calls@[j].id,
                call_id: None,
                name: m.tool_calls@[j].name,
                arguments: m.tool_calls@[j].arguments,
            })
    } by {
        assert(sent[k]@ == crate::request::turn_of(said[at[k]]));
    }
    assert forall|k: int| 0 <= k < at.len() && said[at[k]].role is User implies {
        let m = said[at[k]];
        let parts = crate::completion::user_parts_in((#[trigger] sent[k])->User_content);
        let texts: int = if m.content@.len() > 0 || m.images@.len() == 0 { 1 } else { 0 };
        &&& parts.len() == texts + m.images@.len()
        &&& texts == 1 ==> parts[0] == UserContent::Text(m.content)
        &&& forall|j: int|
            0 <= j < m.images@.len() ==> #[trigger] parts[texts + j] == (UserContent::Image {
                data_base64: m.images@[j].data_base64,
                media_type: crate::completion::image_media_type_of(m.images@[j].media_type@),
            })
    } by {
        assert(sent[k]@ == crate::request::turn_of(said[at[k]]));
    }
    at
}

/// Settings go out as asked. The temperature and the token budget are the
/// caller's; without a budget Anthropic gets the default and no one else gets
/// any. Every provider but Ollama gets the tools unchanged and the choice that
/// the text asks for; Ollama gets no choice, and no tools when asked for none.
pub proof fn settings_go_out_as_asked<C>(
    req: ChatRequest,
    kind: ProviderKind,
    backend: &RigBackend<C>,
    out: CompletionRequest,
    pending: PendingChat,
)
    requires
        call_ensures(build_completion_request, (req, kind), Ok(out)) || (backend.provider() == kind
            && call_ensures(RigBackend::<C>::chat_request, (backend, req), Ok((out, pending)))),
    ensures
        out.temperature == req.temperature,
        match req.max_tokens {
            Some(n) => out.max_tokens == Some(n as u64),
            None => out.max_tokens == if kind is Anthropic {
                Some(32_768u64)
            } else {
                None
            },
        },
        kind is Ollama && req.tool_choice is Some && req.tool_choice->0@ == "none"@
            ==> out.tools@.len() == 0,
        !(kind is Ollama && req.tool_choice is Some && req.tool_choice->0@ == "none"@)
            ==> out.tools@ == req.tools@,
        kind is Ollama || req.tool_choice is None ==> out.tool_choice is None,
        !(kind is Ollama) && req.tool_choice is Some ==> {
            let text = req.tool_choice->0@;
            &&& out.tool_choice is Some
            &&& out.tool_choice->0 is Auto <==> text == "auto"@
            &&& out.tool_choice->0 is Never <==> text == "none"@
            &&& out.tool_choice->0 is Required <==> text == "required"@
            &&& out.tool_choice->0 matches ToolChoice::Specific { function_names } ==> {
                &&& function_names@.len() == 1
                &&& function_names@[0]@ == text
            }
        },
{
    lemma_choice_words();
    lemma_choice_view(out.tool_choice);
}

/// A conversion is refused for three reasons, each exactly when it holds and in
/// this order: Ollama is asked to force a call; some tool message does not say
/// which call it answers; no message takes a turn.
pub proof fn refusals_have_a_cause(
    req: ChatRequest,
    kind: ProviderKind,
    r: Result<CompletionRequest, LlmError>,
)
    requires
        call_ensures(build_completion_request, (req, kind), r),
    ensures
        ({
            let said = req.messages@;
            let forced = kind is Ollama && req.tool_choice is Some && req.tool_choice->0@ != "auto"@
                && req.tool_choice->0@ != "none"@;
            let unkeyed = exists|i: int|
                0 <= i < said.len() && (#[trigger] said[i]).role is Tool
                    && said[i].tool_call_id is None;
            let silent = forall|i: int|
                0 <= i < said.len() ==> (#[trigger] said[i]).role is System || (
                said[i].role is Assistant && said[i].content@.len() == 0
                    && said[i].tool_calls@.len() == 0);
            &&& r is Err <==> forced || unkeyed || silent
            &&& forced ==> (r->Err_0 matches LlmError::UnsupportedCapability(what) && what@ == if (
            req.tool_choice->0@ == "required"@) {
                "tool_choice=required"@
            } else {
                "tool_choice=<named function>"@
            })
            &&& !forced && unkeyed ==> (r->Err_0 matches LlmError::Parse(text) && text@
                == "tool message missing tool_call_id"@)
            &&& !forced && !unkeyed && silent ==> (r->Err_0 matches LlmError::Parse(text) && text@
                == "request contained no user/assistant/tool messages"@)
        }),
{
    lemma_choice_words();
    let said = req.messages@;
    let speaks = |m: ChatMessage| crate::request::takes_turn(m);
    let at = lemma_filter_positions(said, speaks);
    assert(crate::request::turns(said).len() == at.len());
    if at.len() > 0 {
        assert(speaks(said[at[0]]));
    }
    if exists|i: int| 0 <= i < said.len() && speaks(#[trigger] said[i]) {
        let i = choose|i: int| 0 <= i < said.len() && speaks(#[trigger] said[i]);
        assert(at.contains(i));
    }
    assert(crate::request::has_unkeyed(said) <==> exists|i: int|
        0 <= i < said.len() && (#[trigger] said[i]).role is Tool && said[i].tool_call_id is None)
        by {
        if crate::request::has_unkeyed(said) {
            let i = choose|i: int| 0 <= i < said.len() && crate::request::unkeyed(#[trigger] said[i]);
            assert(said[i].role is Tool && said[i].tool_call_id is None);
        }
        if exists|i: int|
            0 <= i < said.len() && (#[trigger] said[i]).role is Tool
                && said[i].tool_call_id is None {
            let i = choose|i: int|
                0 <= i < said.len() && (#[trigger] said[i]).role is Tool
                    && said[i].tool_call_id is None;
            assert(crate::request::unkeyed(said[i]));
        }
    }
    let silent = forall|i: int|
        0 <= i < said.len() ==> (#[trigger] said[i]).role is System || (said[i].role is Assistant
            && said[i].content@.len() == 0 && said[i].tool_calls@.len() == 0);
    assert(silent <==> at.len() == 0) by {
        if !silent {
            let i = choose|i: int|
                0 <= i < said.len() && !((#[trigger] said[i]).role is System || (
                said[i].role is Assistant && said[i].content@.len() == 0
                    && said[i].tool_calls@.len() == 0));
            assert(speaks(said[i]));
        }
    }
}

/// The preamble collects the system texts. No messages have none; one more
/// system message puts its text behind what was there, one blank line apart;
/// one more message of any other role changes nothing.
pub proof fn preamble_collects_the_system_texts(
    shorter: &[ChatMessage],
    longer: &[ChatMessage],
    last: ChatMessage,
    before: Option<String>,
    after: Option<String>,
)
    requires
        call_ensures(build_preamble, (shorter,), before),
        call_ensures(build_preamble, (longer,), after),
        longer@ == shorter@.push(last),
    ensures
        shorter@.len() == 0 ==> before is None,
        last.role is System ==> after is Some && after->0@ == match before {
            Some(text) => text@ + "\n\n"@ + last.content@,
            None => last.content@,
        },
        !(last.role is System) ==> match before {
            Some(text) => after is Some && after->0@ == text@,
            None => after is None,
        },
{
    reveal(Seq::filter);
    let is_system = |m: ChatMessage| m.role is System;
    assert(longer@.drop_last() =~= shorter@);
    let texts = crate::request::system_texts(shorter@);
    if last.role is System {
        assert(crate::request::system_texts(longer@) =~= texts.push(last.content@));
        assert(texts.push(last.content@).drop_last() =~= texts);
    } else {
        assert(crate::request::system_texts(longer@) =~= texts);
    }
}

/// A request carries the preamble of its messages.
pub proof fn requests_carry_the_preamble<C>(
    req: ChatRequest,
    kind: ProviderKind,
    backend: &RigBackend<C>,
    out: CompletionRequest,
    pending: PendingChat,
    messages: &[ChatMessage],
    preamble: Option<String>,
)
    requires
        call_ensures(build_completion_request, (req, kind), Ok(out)) || call_ensures(
            RigBackend::<C>::chat_request,
            (backend, req),
            Ok((out, pending)),
        ),
        messages@ == req.messages@,
        call_ensures(build_preamble, (messages,), preamble),
    ensures
        out.preamble is Some <==> preamble is Some,
        preamble is Some ==> out.preamble->0@ == preamble->0@,
{
}

/// What a tool choice text asks for: nothing when there is none, one of three
/// things for the three words, and the one function of that name otherwise.
pub proof fn choice_words_are_exact(choice: Option<&str>, r: Option<ToolChoice>)
    requires
        call_ensures(map_tool_choice, (choice,), r),
    ensures
        r is None <==> choice is None,
        choice is Some ==> {
            &&& r->0 is Auto <==> choice->0@ == "auto"@
            &&& r->0 is Never <==> choice->0@ == "none"@
            &&& r->0 is Required <==> choice->0@ == "required"@
            &&& r->0 matches ToolChoice::Specific { function_names } ==> {
                &&& function_names@.len() == 1
                &&& function_names@[0]@ == choice->0@
            }
        },
{
    lemma_choice_words();
    lemma_choice_view(r);
}

/// Resolving a choice never changes a tool: they all go out, or none does, and
/// none does exactly when Ollama is asked to call none. Only Ollama refuses,
/// exactly when it is asked to force a call. A choice is forwarded as it was
/// asked for, to every provider but Ollama.
pub proof fn choices_are_resolved_by_provider(
    kind: ProviderKind,
    tools: Vec<ToolDef>,
    choice: Option<&str>,
    r: Result<(Vec<ToolDef>, Option<ToolChoice>), LlmError>,
)
    requires
        call_ensures(resolve_tool_choice, (kind, tools, choice), r),
    ensures
        r is Err <==> kind is Ollama && choice is Some && choice->0@ != "auto"@ && choice->0@
            != "none"@,
        r is Err ==> (r->Err_0 matches LlmError::UnsupportedCapability(what) && what@ == if (
        choice->0@ == "required"@) {
            "tool_choice=required"@
        } else {
            "tool_choice=<named function>"@
        }),
        r is Ok ==> r->Ok_0.0@ == if kind is Ollama && choice is Some && choice->0@ == "none"@ {
            Seq::<ToolDef>::empty()
        } else {
            tools@
        },
        r is Ok && (kind is Ollama || choice is None) ==> r->Ok_0.1 is None,
        r is Ok && !(kind is Ollama) && choice is Some ==> {
            let forwarded = r->Ok_0.1;
            &&& forwarded is Some
            &&& forwarded->0 is Auto <==> choice->0@ == "auto"@
            &&& forwarded->0 is Never <==> choice->0@ == "none"@
            &&& forwarded->0 is Required <==> choice->0@ == "required"@
            &&& forwarded->0 matches ToolChoice::Specific { function_names } ==> {
                &&& function_names@.len() == 1
                &&& function_names@[0]@ == choice->0@
            }
        },
{
    lemma_choice_words();
    if r is Ok {
        lemma_choice_view(r->Ok_0.1);
    }
}

// ---------------------------------------------------------------------------
// Replies
// ---------------------------------------------------------------------------

/// The tool calls of a reply surface in order and whole. `at[k]` is the part
/// that call `k` came from: every tool-call part surfaces and nothing else does;
/// a call has the name and the arguments of its part, whatever ids the part
/// carries, and the part's call id as its id or, without one, the part's own.
pub proof fn calls_surface_whole(
    choice: OneOrMany<AssistantContent>,
    usage: ReportedUsage,
    cap: Option<u64>,
    model: &str,
    r: ChatResponse,
) -> (at: Seq<int>)
    requires
        call_ensures(map_choice, (choice, usage, cap, model), r),
    ensures
        ({
            let parts = crate::completion::assistant_parts_in(choice);
            let calls = r.tool_calls@;
            &&& at.len() == calls.len()
            &&& forall|k: int| 0 <= k < at.len() ==> 0 <= #[trigger] at[k] < parts.len()
            &&& forall|k: int, l: int| 0 <= k < l < at.len() ==> at[k] < at[l]
            &&& forall|i: int|
                0 <= i < parts.len() ==> (at.contains(i) <==> (#[trigger] parts[i]) is ToolCall)
            &&& forall|k: int|
                0 <= k < at.len() ==> (parts[at[k]] matches AssistantContent::ToolCall {
                    id,
                    call_id,
                    name,
                    arguments,
                } && (#[trigger] calls[k]).name == name && calls[k].arguments == arguments && (
                call_id is Some ==> calls[k].id == call_id->0) && (call_id is None ==> calls[k].id
                    == id))
        }),
{
    let parts = crate::completion::assistant_parts_in(choice);
    let is_call = |p: AssistantContent| p is ToolCall;
    let at = lemma_filter_positions(parts, is_call);
    assert forall|k: int| 0 <= k < at.len() implies (parts[at[k]] matches AssistantContent::ToolCall {
        id,
        call_id,
        name,
        arguments,
    } && (#[trigger] r.tool_calls@[k]).name == name && r.tool_calls@[k].arguments == arguments && (
    call_id is Some ==> r.tool_calls@[k].id == call_id->0) && (call_id is None
        ==> r.tool_calls@[k].id == id)) by {
        assert(r.tool_calls@[k] == crate::response::surfaced_call(parts.filter(is_call)[k]));
        assert(is_call(parts[at[k]]));
    }
    assert forall|i: int| 0 <= i < parts.len() implies (at.contains(i) <==> (
    #[trigger] parts[i]) is ToolCall) by {
        assert(is_call(parts[i]) == (parts[i] is ToolCall));
    }
    at
}

/// The text of a reply grows by its text parts, each on a line of its own
/// unless nothing stands before it, and by nothing else.
pub proof fn reply_text_grows_by_lines(
    shorter: OneOrMany<AssistantContent>,
    longer: OneOrMany<AssistantContent>,
    last: AssistantContent,
    usages: (ReportedUsage, ReportedUsage),
    caps: (Option<u64>, Option<u64>),
    models: (&str, &str),
    before: ChatResponse,
    after: ChatResponse,
)
    requires
        call_ensures(map_choice, (shorter, usages.0, caps.0, models.0), before),
        call_ensures(map_choice, (longer, usages.1, caps.1, models.1), after),
        crate::completion::assistant_parts_in(longer) == crate::completion::assistant_parts_in(
            shorter,
        ).push(last),
    ensures
        last matches AssistantContent::Text(text) ==> after.content@ == if before.content@.len()
            == 0 {
            text@
        } else {
            before.content@ + "\n"@ + text@
        },
        !(last is Text) ==> after.content@ == before.content@,
{
    let parts = crate::completion::assistant_parts_in(longer);
    assert(parts.drop_last() =~= crate::completion::assistant_parts_in(shorter));
    assert(parts.last() == last);
}

/// The text of a reply with one part is that part's text, if it has any.
pub proof fn a_single_part_is_the_reply_text(
    choice: OneOrMany<AssistantContent>,
    usage: ReportedUsage,
    cap: Option<u64>,
    model: &str,
    part: AssistantContent,
    r: ChatResponse,
)
    requires
        call_ensures(map_choice, (choice, usage, cap, model), r),
        crate::completion::assistant_parts_in(choice) == seq![part],
    ensures
        part matches AssistantContent::Text(text) ==> r.content@ == text@,
        !(part is Text) ==> r.content@.len() == 0,
{
    let parts = crate::completion::assistant_parts_in(choice);
    assert(parts.drop_last() =~= Seq::<AssistantContent>::empty());
    assert(parts.last() == part);
    assert(crate::response::reply_text(parts.drop_last()).len() == 0);
}

/// A reply ends in `ToolCalls` exactly when some part is a tool call; else in
/// `Length` exactly when there is a cap and the output tokens are reported and
/// reach it; else in `Stop`. The usage is what was reported, under the model's
/// id.
pub proof fn replies_end_for_a_reason(
    choice: OneOrMany<AssistantContent>,
    usage: ReportedUsage,
    cap: Option<u64>,
    model: &str,
    r: ChatResponse,
)
    requires
        call_ensures(map_choice, (choice, usage, cap, model), r),
    ensures
        ({
            let parts = crate::completion::assistant_parts_in(choice);
            let called = exists|i: int| 0 <= i < parts.len() && (#[trigger] parts[i]) is ToolCall;
            let full = cap is Some && usage.output_tokens >= cap->0 && usage.output_tokens != 0;
            &&& called ==> r.finish_reason is ToolCalls
            &&& !called && full ==> r.finish_reason is Length
            &&& !called && !full ==> r.finish_reason is Stop
        }),
        r.usage matches Some(u) && u.model@ == model@ && u.input_tokens == usage.input_tokens
            && u.output_tokens == usage.output_tokens,
{
    let parts = crate::completion::assistant_parts_in(choice);
    crate::response::finish_reason_is_exact(parts, usage, cap);
    let at = calls_surface_whole(choice, usage, cap, model, r);
    if exists|i: int| 0 <= i < parts.len() && (#[trigger] parts[i]) is ToolCall {
        let i = choose|i: int| 0 <= i < parts.len() && (#[trigger] parts[i]) is ToolCall;
        assert(at.contains(i));
    } else if at.len() > 0 {
        assert(parts[at[0]] is ToolCall);
    }
}

/// Usage becomes an event exactly when output tokens were reported, with the
/// counts that were reported and the model's id.
pub proof fn usage_events_carry_the_report(
    reported: ReportedUsage,
    model: &str,
    r: Option<StreamEvent>,
)
    requires
        call_ensures(stream_usage_event, (reported, model), r),
    ensures
        r is Some <==> reported.output_tokens != 0,
        r is Some ==> (r->0 matches StreamEvent::Usage(u) && u.model@ == model@ && u.input_tokens
            == reported.input_tokens && u.output_tokens == reported.output_tokens),
{
}

/// A failure keeps its status and its text: an error status stays a status,
/// with the body where there is one; a body that could not be read is a parse
/// error, an endpoint that is no URL a configuration error, and everything else
/// a transport error.
pub proof fn failures_keep_their_text(failure: CompletionFailure, e: LlmError)
    requires
        call_ensures(map_completion_error, (failure,), e),
    ensures
        failure matches CompletionFailure::InvalidStatusCode(code) ==> (e matches LlmError::Status {
            status,
            body,
        } && status == code && body@.len() == 0),
        failure matches CompletionFailure::InvalidStatusCodeWithMessage(code, text) ==> (
        e matches LlmError::Status { status, body } && status == code && body@ == text@),
        failure matches CompletionFailure::Json(text) ==> (e matches LlmError::Parse(t) && t@
            == text@),
        failure matches CompletionFailure::Response(text) ==> (e matches LlmError::Parse(t) && t@
            == text@),
        failure matches CompletionFailure::Url(text) ==> (e matches LlmError::Config(t) && t@
            == text@),
        failure matches CompletionFailure::Http(text) ==> (e matches LlmError::Transport(t) && t@
            == text@),
        failure matches CompletionFailure::Request(text) ==> (e matches LlmError::Transport(t) && t@
            == text@),
        failure matches CompletionFailure::Provider(text) ==> (e matches LlmError::Transport(t)
            && t@ == text@),
{
}

/// An error's message names its cause and holds all that the error holds.
pub proof fn error_messages_are_complete(e: &LlmError, r: String)
    requires
        call_ensures(LlmError::message, (e,), r),
    ensures
        match *e {
            LlmError::Transport(text) => r@ == "provider HTTP error: "@ + text@,
            LlmError::Status { status, body } => r@ == "provider returned status "@
                + crate::text::decimal(status as nat) + ": "@ + body@,
            LlmError::Parse(text) => r@ == "provider response could not be parsed: "@ + text@,
            LlmError::UnsupportedCapability(name) => r@ == "capability '"@ + name@
                + "' not supported by this provider"@,
            LlmError::Config(text) => r@ == "invalid provider configuration: "@ + text@,
            LlmError::Other(text) => r@ == text@,
        },
{
}

/// A number is printed in decimal: digits only, the last one being the number
/// modulo ten, what stands before it being the rest divided by ten, and no zero
/// in front.
pub proof fn numbers_are_positional(n: u16, r: String, tenth: String)
    requires
        call_ensures(crate::text::decimal_text, (n,), r),
        call_ensures(crate::text::decimal_text, ((n / 10) as u16,), tenth),
    ensures
        r@ == crate::text::decimal(n as nat),
        r@.len() > 0,
        r@.last() as u32 == 48 + n % 10,
        n < 10 ==> r@.len() == 1,
        n >= 10 ==> r@.drop_last() == tenth@,
        n > 0 ==> r@[0] != '0',
        forall|i: int| 0 <= i < r@.len() ==> '0' <= #[trigger] r@[i] <= '9',
{
    lemma_decimal_digits(n as nat);
    if n >= 10 {
        assert(r@.drop_last() =~= crate::text::decimal((n / 10) as nat));
    }
}

// ---------------------------------------------------------------------------
// Streams
// ---------------------------------------------------------------------------

/// A chunk becomes its events and nothing else: a text its text; a tool call a
/// start with its name and an end with its arguments, both under its call id or,
/// without one, its own id; any other chunk nothing. The adapter remembers the
/// chunk and keeps the model.
pub proof fn chunks_become_their_events(
    adapter: &mut StreamAdapter,
    chunk: StreamChunk,
    r: Vec<StreamEvent>,
)
    requires
        call_ensures(StreamAdapter::push, (adapter, chunk), r),
    ensures
        final(adapter).chunks() == old(adapter).chunks().push(chunk),
        final(adapter).model_id() == old(adapter).model_id(),
        chunk matches StreamChunk::Text(text) ==> r@.len() == 1 && (
        r@[0] matches StreamEvent::TextChunk(t) && t@ == text@),
        chunk matches StreamChunk::ToolCall { id, call_id, name, arguments } ==> {
            let key = if call_id is Some {
                call_id->0@
            } else {
                id@
            };
            &&& r@.len() == 2
            &&& r@[0] matches StreamEvent::ToolCallStart { id: i, name: n } && i@ == key && n@
                == name@
            &&& r@[1] matches StreamEvent::ToolCallEnd { id: i, args } && i@ == key && args
                == arguments
        },
        chunk is Other ==> r@.len() == 0,
{
    let views = crate::provider::event_views(r@);
    assert(views == crate::stream::chunk_events(chunk));
    assert(views.len() == r@.len());
    if r@.len() > 0 {
        assert(views[0] == r@[0]@);
    }
    if r@.len() > 1 {
        assert(views[1] == r@[1]@);
    }
}

/// A new adapter has seen nothing and attributes usage to its model.
pub proof fn adapters_start_empty(model: String, adapter: StreamAdapter)
    requires
        call_ensures(StreamAdapter::new, (model,), adapter),
    ensures
        adapter.wf(),
        adapter.chunks().len() == 0,
        adapter.model_id() == model@,
{
}

/// A stream that ran to its end closes with the usage, exactly when output
/// tokens were reported, and then with `Done`. Whether `Done` says `ToolCalls`
/// depends on one thing alone: whether any chunk of the whole stream was a tool
/// call. It says `Stop` otherwise.
pub proof fn streams_close_for_a_reason(
    adapter: StreamAdapter,
    reported: Option<ReportedUsage>,
    r: Vec<StreamEvent>,
)
    requires
        call_ensures(StreamAdapter::finish, (adapter, reported), r),
    ensures
        ({
            let told = reported is Some && reported->0.output_tokens != 0;
            let called = exists|i: int|
                0 <= i < adapter.chunks().len() && (#[trigger] adapter.chunks()[i]) is ToolCall;
            &&& r@.len() == if told { 2int } else { 1 }
            &&& told ==> (r@[0] matches StreamEvent::Usage(u) && u.model@ == adapter.model_id()
                && u.input_tokens == reported->0.input_tokens && u.output_tokens
                == reported->0.output_tokens)
            &&& r@.last() matches StreamEvent::Done { finish_reason } && (called
                ==> finish_reason is ToolCalls) && (!called ==> finish_reason is Stop)
        }),
{
    let views = crate::provider::event_views(r@);
    assert(views == crate::stream::closing_events(
        adapter.chunks(),
        reported,
        adapter.model_id(),
    ));
    assert(views.len() == r@.len());
    assert(views[0] == r@[0]@);
    assert(views.last() == r@.last()@);
}

/// A stream that failed ends in the error of its failure.
pub proof fn failed_streams_end_in_their_error(
    adapter: StreamAdapter,
    failure: CompletionFailure,
    r: LlmError,
    mapped: LlmError,
)
    requires
        call_ensures(StreamAdapter::fail, (adapter, failure), r),
        call_ensures(map_completion_error, (failure,), mapped),
    ensures
        r@ == mapped@,
{
}

/// A whole stream. `at[i]` is the place of chunk `i`'s first item, and the last
/// entry of `at` is where the closing starts: each chunk takes the items that
/// its kind makes, in order and with no gaps, and after them come the usage, if
/// it was reported, and `Done`; or the one error of a failure. `Done` says
/// `ToolCalls` exactly when some chunk is a tool call.
pub proof fn streams_are_told_in_order(
    chunks: Vec<StreamChunk>,
    end: StreamEnd,
    model: String,
    items: Vec<Result<StreamEvent, LlmError>>,
) -> (at: Seq<int>)
    requires
        call_ensures(map_rig_stream, (chunks, end, model), items),
    ensures
        at.len() == chunks@.len() + 1,
        at[0] == 0,
        forall|i: int|
            0 <= i < chunks@.len() ==> 0 <= #[trigger] at[i] && at[i + 1] <= items@.len() && at[i
                + 1] - at[i] == match chunks@[i] {
                StreamChunk::Text(_) => 1int,
                StreamChunk::ToolCall { .. } => 2,
                StreamChunk::Other => 0,
            },
        forall|i: int|
            0 <= i < chunks@.len() ==> (#[trigger] chunks@[i] matches StreamChunk::Text(text) ==> (
            items@[at[i]] matches Ok(StreamEvent::TextChunk(t)) && t@ == text@)),
        forall|i: int|
            0 <= i < chunks@.len() ==> (#[trigger] chunks@[i] matches StreamChunk::ToolCall {
                id,
                call_id,
                name,
                arguments,
            } ==> {
                let key = if call_id is Some {
                    call_id->0@
                } else {
                    id@
                };
                &&& items@[at[i]] matches Ok(StreamEvent::ToolCallStart { id: s, name: n }) && s@
                    == key && n@ == name@
                &&& items@[at[i] + 1] matches Ok(StreamEvent::ToolCallEnd { id: s, args }) && s@
                    == key && args == arguments
            }),
        ({
            let n = at[chunks@.len() as int];
            let called = exists|i: int|
                0 <= i < chunks@.len() && (#[trigger] chunks@[i]) is ToolCall;
            match end {
                StreamEnd::Failed(failure) => {
                    &&& items@.len() == n + 1
                    &&& items@[n] is Err
                    &&& items@[n]->Err_0@ == crate::response::failure_error(failure)
                },
                StreamEnd::Finished(reported) => {
                    let told = reported is Some && reported->0.output_tokens != 0;
                    &&& items@.len() == n + if told { 2int } else { 1 }
                    &&& told ==> (items@[n] matches Ok(StreamEvent::Usage(u)) && u.model@ == model@
                        && u.input_tokens == reported->0.input_tokens && u.output_tokens
                        == reported->0.output_tokens)
                    &&& items@.last() matches Ok(StreamEvent::Done { finish_reason }) && (called
                        ==> finish_reason is ToolCalls) && (!called ==> finish_reason is Stop)
                },
            }
        }),
{
    let all = chunks@;
    let body = crate::stream::body_events(all);
    let views = items@.map_values(
        |item: Result<StreamEvent, LlmError>| crate::stream::item_view(item),
    );
    let at = lemma_chunk_places(all);
    assert(views == crate::stream::transcript(all, end, model@));
    assert(views.len() == items@.len());
    assert forall|j: int| 0 <= j < items@.len() implies crate::stream::item_view(
        #[trigger] items@[j],
    ) == views[j] by {}
    assert forall|j: int| 0 <= j < body.len() implies #[trigger] views[j] == Ok::<
        StreamEventView,
        LlmErrorView,
    >(body[j]) by {}
    assert forall|i: int| 0 <= i < all.len() implies (#[trigger] all[i] matches StreamChunk::Text(
        text,
    ) ==> (items@[at[i]] matches Ok(StreamEvent::TextChunk(t)) && t@ == text@)) by {
        if all[i] is Text {
            let j = at[i];
            assert(0 <= j < body.len());
            assert(crate::stream::item_view(items@[j]) == views[j]);
            assert(views[j] == Ok::<StreamEventView, LlmErrorView>(body[j]));
        }
    }
    assert forall|i: int| 0 <= i < all.len() implies (#[trigger] all[i] matches StreamChunk::ToolCall {
        id,
        call_id,
        name,
        arguments,
    } ==> {
        let key = if call_id is Some {
            call_id->0@
        } else {
            id@
        };
        &&& items@[at[i]] matches Ok(StreamEvent::ToolCallStart { id: s, name: n }) && s@ == key
            && n@ == name@
        &&& items@[at[i] + 1] matches Ok(StreamEvent::ToolCallEnd { id: s, args }) && s@ == key
            && args == arguments
    }) by {
        if all[i] is ToolCall {
            let j = at[i];
            assert(0 <= j < body.len() - 1);
            assert(crate::stream::item_view(items@[j]) == views[j]);
            assert(crate::stream::item_view(items@[j + 1]) == views[j + 1]);
            assert(views[j] == Ok::<StreamEventView, LlmErrorView>(body[j]));
            assert(views[j + 1] == Ok::<StreamEventView, LlmErrorView>(body[j + 1]));
        }
    }
    let n = at[all.len() as int];
    assert(n == body.len());
    assert(crate::stream::item_view(items@[n]) == views[n]);
    assert(crate::stream::item_view(items@.last()) == views.last());
    at
}

/// Errors with the same model are the same error: of one sort, with the same
/// texts and the same status.
pub proof fn error_models_leave_nothing_out(a: LlmError, b: LlmError)
    requires
        a@ == b@,
    ensures
        match a {
            LlmError::Transport(text) => b matches LlmError::Transport(t) && t@ == text@,
            LlmError::Status { status, body } => b matches LlmError::Status { status: s, body: t }
                && s == status && t@ == body@,
            LlmError::Parse(text) => b matches LlmError::Parse(t) && t@ == text@,
            LlmError::UnsupportedCapability(name) => b matches LlmError::UnsupportedCapability(n)
                && n@ == name@,
            LlmError::Config(text) => b matches LlmError::Config(t) && t@ == text@,
            LlmError::Other(text) => b matches LlmError::Other(t) && t@ == text@,
        },
{
}

// ---------------------------------------------------------------------------
// Messages
// ---------------------------------------------------------------------------

/// A message constructor sets what it names and nothing else: no images, no
/// calls but those given, no call id but the one given.
pub proof fn constructors_set_what_they_name<S: Into<String>, I: Into<String>>(
    role: MessageRole,
    content: S,
    id: I,
    calls: Vec<ToolCall>,
    m: ChatMessage,
)
    requires
        call_ensures(ChatMessage::text::<S>, (role, content), m) || call_ensures(
            ChatMessage::system::<S>,
            (content,),
            m,
        ) && role is System || call_ensures(ChatMessage::user::<S>, (content,), m) && role is User
            || call_ensures(ChatMessage::assistant::<S>, (content,), m) && role is Assistant
            || call_ensures(ChatMessage::assistant_with_tool_calls::<S>, (content, calls), m)
            && role is Assistant || call_ensures(
            ChatMessage::tool_result::<I, S>,
            (id, content),
            m,
        ) && role is Tool,
    ensures
        m.role == role,
        call_ensures(<S as Into<String>>::into, (content,), m.content),
        m.images@.len() == 0,
        m.tool_calls@.len() == 0 || m.tool_calls@ == calls@ && role is Assistant,
        m.tool_call_id is None || role is Tool && call_ensures(
            <I as Into<String>>::into,
            (id,),
            m.tool_call_id->0,
        ),
{
}

/// The replay of a turn keeps its calls, and a result keeps the id of the call
/// it answers.
pub proof fn tool_messages_keep_their_link<S: Into<String>, I: Into<String>>(
    content: S,
    id: I,
    calls: Vec<ToolCall>,
    replayed: ChatMessage,
    result: ChatMessage,
)
    requires
        call_ensures(ChatMessage::assistant_with_tool_calls::<S>, (content, calls), replayed),
        call_ensures(ChatMessage::tool_result::<I, S>, (id, content), result),
    ensures
        replayed.tool_calls@ == calls@,
        result.tool_call_id is Some,
        call_ensures(<I as Into<String>>::into, (id,), result.tool_call_id->0),
{
}

/// A copied message holds all that the original holds.
pub proof fn message_copies_are_whole(m: &ChatMessage, r: ChatMessage)
    requires
        call_ensures(ChatMessage::clone, (m,), r),
    ensures
        r.role == m.role,
        r.content@ == m.content@,
        r.images@ == m.images@,
        r.tool_calls@ == m.tool_calls@,
        r.tool_call_id == m.tool_call_id,
{
}

/// A copied request holds all that the original holds, message by message.
pub proof fn request_copies_are_whole(req: &ChatRequest, r: ChatRequest)
    requires
        call_ensures(ChatRequest::clone, (req,), r),
    ensures
        r.messages@.len() == req.messages@.len(),
        forall|i: int|
            0 <= i < r.messages@.len() ==> {
                let a = #[trigger] r.messages@[i];
                let b = req.messages@[i];
                &&& a.role == b.role
                &&& a.content@ == b.content@
                &&& a.images@ == b.images@
                &&& a.tool_calls@ == b.tool_calls@
                &&& a.tool_call_id == b.tool_call_id
            },
        r.tools@ == req.tools@,
        r.tool_choice == req.tool_choice,
        r.max_tokens == req.max_tokens,
        r.temperature == req.temperature,
{
}

/// A copied response holds all that the original holds.
pub proof fn response_copies_are_whole(resp: &ChatResponse, r: ChatResponse)
    requires
        call_ensures(ChatResponse::clone, (resp,), r),
    ensures
        r.content@ == resp.content@,
        r.tool_calls@ == resp.tool_calls@,
        r.finish_reason == resp.finish_reason,
        r.usage == resp.usage,
{
}

/// A copied turn has the same speaker and the same parts.
pub proof fn turn_copies_are_whole(m: &Message, r: Message)
    requires
        call_ensures(Message::clone, (m,), r),
    ensures
        m matches Message::User { content } ==> (r matches Message::User { content: c }
            && crate::completion::user_parts_in(c) == crate::completion::user_parts_in(*content)),
        m matches Message::Assistant { content } ==> (r matches Message::Assistant { content: c }
            && crate::completion::assistant_parts_in(c) == crate::completion::assistant_parts_in(
            *content,
        )),
{
}

// ---------------------------------------------------------------------------
// Providers and credentials
// ---------------------------------------------------------------------------

/// Parsing finds a provider exactly when the text spells its identifier,
/// character by character, in whatever ASCII case. An unknown text is reported
/// back in lower case.
pub proof fn parsing_spells_the_identifier(
    s: &str,
    r: Result<ProviderKind, String>,
    kind: ProviderKind,
    id: &'static str,
)
    requires
        call_ensures(ProviderKind::from_str, (s,), r),
        call_ensures(ProviderKind::as_str, (&kind,), id),
    ensures
        ({
            let lower = |c: char|
                if 'A' <= c && c <= 'Z' {
                    (c as u32 + 32) as char
                } else {
                    c
                };
            let spells = s@.len() == id@.len() && forall|i: int|
                0 <= i < id@.len() ==> #[trigger] id@[i] == lower(s@[i]);
            &&& r == Ok::<ProviderKind, String>(kind) <==> spells
            &&& r matches Err(message) ==> message@.len() == 18 + s@.len() && message@.take(18)
                == "unknown provider: "@ && forall|i: int|
                0 <= i < s@.len() ==> #[trigger] message@[18 + i] == lower(s@[i])
        }),
{
    let lowered = crate::text::ascii_lower(s@);
    let lower = |c: char|
        if 'A' <= c && c <= 'Z' {
            (c as u32 + 32) as char
        } else {
            c
        };
    assert(lowered.len() == s@.len());
    assert forall|i: int| 0 <= i < s@.len() implies #[trigger] lowered[i] == lower(s@[i]) by {}
    let spells = s@.len() == id@.len() && forall|i: int|
        0 <= i < id@.len() ==> #[trigger] id@[i] == lower(s@[i]);
    if spells {
        assert(id@ =~= lowered);
        assert(kind.named_by(s@));
        if r is Ok {
            crate::capabilities::names_are_unambiguous(s@, kind, r->Ok_0);
        }
    }
    if r == Ok::<ProviderKind, String>(kind) {
        assert(id@ == lowered);
    }
    if r is Err {
        reveal_strlit("unknown provider: ");
        let message = r->Err_0;
        assert(message@ == "unknown provider: "@ + lowered);
        assert(message@.take(18) =~= "unknown provider: "@);
    }
}

/// The environment holds a credential for a provider exactly when its provider
/// text parses to that provider and, if that provider requires an API key, the
/// key is there and not empty. A provider that requires none is served whatever
/// the key holds: Ollama, Llamafile and Bedrock among them. The credential is
/// made of the variables as they are. Anything else is `Missing`, and says for
/// whom.
pub proof fn the_environment_is_read_as_it_is(
    source: &EnvCredentialSource,
    kind: ProviderKind,
    vars: EnvVars,
    r: Result<Credential, CredError>,
    named: &str,
    parsed: Result<ProviderKind, String>,
    needs_key: bool,
)
    requires
        call_ensures(EnvCredentialSource::get_credential, (source, kind, vars), r),
        vars.provider is Some ==> vars.provider->0@ == named@,
        call_ensures(ProviderKind::from_str, (named,), parsed),
        call_ensures(ProviderKind::requires_api_key, (&kind,), needs_key),
    ensures
        ({
            let active = vars.provider is Some && parsed == Ok::<ProviderKind, String>(kind);
            let has_key = vars.api_key is Some && vars.api_key->0@.len() > 0;
            &&& r is Ok <==> active && (has_key || !needs_key)
            &&& active && (kind is Ollama || kind is Llamafile || kind is Bedrock) ==> r is Ok
            &&& needs_key <==> !(kind is Ollama || kind is Llamafile || kind is Bedrock)
        }),
        r matches Err(e) ==> (e matches CredError::Missing(whom) && whom == kind),
        r matches Ok(cred) ==> {
            &&& vars.api_key is Some ==> cred.api_key@ == vars.api_key->0@
            &&& vars.api_key is None ==> cred.api_key@.len() == 0
            &&& cred.base_url == vars.base_url
            &&& cred.expires_at is None
            &&& cred.api_version == vars.api_version
            &&& cred.aws_profile == vars.aws_profile
        },
{
    if parsed is Ok && vars.provider is Some && kind.named_by(named@) {
        crate::capabilities::names_are_unambiguous(named@, kind, parsed->Ok_0);
    }
}

/// The debug text shows every field but the key, in order, and marks the key as
/// redacted. It is the same whatever the key.
pub proof fn debug_text_shows_all_but_the_key(
    cred: &Credential,
    other: &Credential,
    r: String,
    s: String,
)
    requires
        call_ensures(Credential::debug_text, (cred,), r),
        call_ensures(Credential::debug_text, (other,), s),
    ensures
        r@ == "Credential { api_key: \"[REDACTED]\", base_url: "@
            + crate::credentials::debug_of_text(crate::text::opt_text(cred.base_url))
            + ", expires_at: "@ + (match cred.expires_at {
            Some(t) => crate::credentials::debug_of_time(t.secs, t.nanos),
            None => "None"@,
        }) + ", api_version: "@ + crate::credentials::debug_of_text(
            crate::text::opt_text(cred.api_version),
        ) + ", aws_profile: "@ + crate::credentials::debug_of_text(
            crate::text::opt_text(cred.aws_profile),
        ) + " }"@,
        cred.base_url == other.base_url && cred.expires_at == other.expires_at && cred.api_version
            == other.api_version && cred.aws_profile == other.aws_profile ==> r@ == s@,
{
}

/// A credential error says what is wrong and names the provider.
pub proof fn credential_errors_name_the_provider(
    e: &CredError,
    r: String,
    kind: ProviderKind,
    label: &'static str,
)
    requires
        call_ensures(CredError::message, (e,), r),
        call_ensures(ProviderKind::variant_name, (&kind,), label),
    ensures
        *e == CredError::Missing(kind) ==> r@ == "missing credential for provider "@ + label@,
        *e == CredError::Expired(kind) ==> r@ == "credential expired for provider "@ + label@,
        e matches CredError::Other(text) ==> r@ == text@,
{
}

/// A copied credential holds all that the original holds.
pub proof fn credential_copies_are_whole(cred: &Credential, copy: Credential)
    requires
        call_ensures(Credential::clone, (cred,), copy),
    ensures
        copy.api_key@ == cred.api_key@,
        copy.base_url == cred.base_url,
        copy.expires_at == cred.expires_at,
        copy.api_version == cred.api_version,
        copy.aws_profile == cred.aws_profile,
{
}

// ---------------------------------------------------------------------------
// Backends
// ---------------------------------------------------------------------------

/// A Foundry endpoint loses its trailing slashes, all of them and nothing else,
/// and then ends in the v1 path: it is kept where it does already, and the path
/// is put behind it where it does not. `k` is where the trailing slashes start.
pub proof fn foundry_endpoints_end_in_the_path(endpoint: &str, r: String, k: int)
    requires
        call_ensures(foundry_openai_base, (endpoint,), r),
        0 <= k <= endpoint@.len(),
        forall|i: int| k <= i < endpoint@.len() ==> #[trigger] endpoint@[i] == '/',
        k > 0 ==> endpoint@[k - 1] != '/',
    ensures
        ({
            let kept = endpoint@.take(k);
            let path = "/openai/v1"@;
            if kept.len() >= path.len() && kept.skip(kept.len() - path.len()) == path {
                r@ == kept
            } else {
                r@ == kept + path
            }
        }),
{
    lemma_trim_end(endpoint@, '/', k);
}

/// What a client is made from. The local daemons need no key; Azure and Foundry
/// need an endpoint; Bedrock has to be built in, takes no endpoint, and goes by
/// the named profile if there is one; everyone else is a keyed client. Plans
/// name their provider and hold the credential's values as they are.
pub proof fn plans_hold_the_credential<'a>(
    features: Features,
    kind: ProviderKind,
    cred: &'a Credential,
    r: Result<ClientPlan<'a>, LlmError>,
)
    requires
        call_ensures(plan_client, (features, kind, cred), r),
    ensures
        r is Err <==> (kind is Azure || kind is AzureFoundry) && cred.base_url is None
            || kind is Bedrock && (!features.bedrock || cred.base_url is Some),
        r is Err ==> r->Err_0 is Config,
        kind is Azure && cred.base_url is None ==> r->Err_0->Config_0@
            == "azure requires base_url, e.g. https://{resource}.openai.azure.com"@,
        kind is AzureFoundry && cred.base_url is None ==> r->Err_0->Config_0@
            == "azure-foundry requires base_url, e.g. https://{resource}.services.ai.azure.com"@,
        kind is Bedrock && !features.bedrock ==> r->Err_0->Config_0@
            == "greentic-llm was built without the `bedrock` cargo feature"@,
        kind is Bedrock && features.bedrock && cred.base_url is Some ==> r->Err_0->Config_0@
            == "bedrock does not support base_url; set the region via AWS env vars or aws_profile"@,
        r matches Ok(plan) ==> match plan {
            ClientPlan::Keyed { provider, api_key, base_url } => {
                &&& provider == kind
                &&& !(kind is Ollama || kind is Llamafile || kind is Azure || kind is AzureFoundry
                    || kind is Bedrock)
                &&& api_key@ == cred.api_key@
                &&& base_url is Some <==> cred.base_url is Some
                &&& base_url is Some ==> base_url->0@ == cred.base_url->0@
            },
            ClientPlan::Keyless { provider, base_url } => {
                &&& provider == kind
                &&& kind is Ollama || kind is Llamafile
                &&& base_url is Some <==> cred.base_url is Some
                &&& base_url is Some ==> base_url->0@ == cred.base_url->0@
            },
            ClientPlan::Azure { api_key, endpoint, api_version } => {
                &&& kind is Azure
                &&& api_key@ == cred.api_key@
                &&& endpoint@ == cred.base_url->0@
                &&& api_version is Some <==> cred.api_version is Some
                &&& api_version is Some ==> api_version->0@ == cred.api_version->0@
            },
            ClientPlan::Foundry { api_key, .. } => {
                &&& kind is AzureFoundry
                &&& api_key@ == cred.api_key@
            },
            ClientPlan::BedrockProfile { profile } => {
                &&& kind is Bedrock
                &&& cred.aws_profile is Some
                &&& profile@ == cred.aws_profile->0@
            },
            ClientPlan::BedrockEnvironment => kind is Bedrock && cred.aws_profile is None,
        },
{
}

/// A Foundry plan goes to the normalised endpoint.
pub proof fn foundry_plans_go_to_the_normal_endpoint<'a>(
    features: Features,
    cred: &'a Credential,
    r: Result<ClientPlan<'a>, LlmError>,
    endpoint: &str,
    base: String,
)
    requires
        call_ensures(plan_client, (features, ProviderKind::AzureFoundry, cred), r),
        cred.base_url is Some,
        endpoint@ == cred.base_url->0@,
        call_ensures(foundry_openai_base, (endpoint,), base),
    ensures
        r matches Ok(plan) && (plan matches ClientPlan::Foundry { v1_base, .. } && v1_base@ == base@),
{
}

/// A backend is what it was made of: it answers with the provider's identifier,
/// the model and the client that it was given, and with the provider's feature
/// surface. A client that could not be made is a transport error, or for
/// Bedrock a configuration error, that names the provider and the reason.
pub proof fn backends_are_what_they_were_made_of<C>(
    kind: ProviderKind,
    model: &str,
    built: Result<C, String>,
    r: Result<RigBackend<C>, LlmError>,
    id: &'static str,
    name: &'static str,
    answered: &str,
    client: &C,
    caps: Capabilities,
)
    requires
        call_ensures(RigBackend::<C>::from_connection, (kind, model, built), r),
        call_ensures(ProviderKind::as_str, (&kind,), id),
        r is Ok ==> {
            &&& call_ensures(RigBackend::<C>::provider_name, (&r->Ok_0,), name)
            &&& call_ensures(RigBackend::<C>::model, (&r->Ok_0,), answered)
            &&& call_ensures(RigBackend::<C>::client, (&r->Ok_0,), client)
            &&& call_ensures(RigBackend::<C>::capabilities, (&r->Ok_0,), caps)
        },
    ensures
        r is Ok <==> built is Ok,
        r is Ok ==> {
            &&& r->Ok_0.provider() == kind
            &&& r->Ok_0.model_id() == model@
            &&& name@ == id@
            &&& answered@ == model@
            &&& *client == built->Ok_0
            &&& caps == Capabilities {
                chat: true,
                tools: kind.offers_tools(),
                streaming: true,
                vision: kind.offers_vision(),
                system_prompt: true,
            }
        },
        r is Err && !(kind is Bedrock) ==> (r->Err_0 matches LlmError::Transport(text) && text@ == id@
            + " client: "@ + built->Err_0@),
        r is Err && kind is Bedrock ==> (r->Err_0 matches LlmError::Config(text) && text@ == id@
            + " client: "@ + built->Err_0@),
{
}

/// Making a backend asks for a client exactly when there is a plan, hands over
/// that plan, and comes to what the client came to; without a plan it comes to
/// the plan's error.
pub proof fn backends_are_made_from_their_plan<
    'a,
    C,
    F: FnOnce(ClientPlan<'a>) -> Result<C, String>,
>(
    features: Features,
    kind: ProviderKind,
    model: &str,
    cred: &'a Credential,
    connect: F,
    r: Result<RigBackend<C>, LlmError>,
    planned: Result<ClientPlan<'a>, LlmError>,
)
    requires
        call_ensures(RigBackend::<C>::new::<F>, (features, kind, model, cred, connect), r),
        call_ensures(plan_client, (features, kind, cred), planned),
    ensures
        planned matches Err(e) ==> r is Err && r->Err_0@ == e@,
        planned matches Ok(plan) ==> exists|handed: ClientPlan<'a>, built: Result<C, String>|
            {
                &&& handed@ == plan@
                &&& #[trigger] call_ensures(connect, (handed,), built)
                &&& r is Ok <==> built is Ok
                &&& r is Ok ==> r->Ok_0.provider() == kind && r->Ok_0.model_id() == model@
                    && r->Ok_0.handle() == built->Ok_0
            },
{
    if planned is Ok {
        let (handed, built) = choose|handed: ClientPlan<'a>, built: Result<C, String>|
            {
                &&& handed@ == planned->Ok_0@
                &&& #[trigger] call_ensures(connect, (handed,), built)
                &&& RigBackend::constructed(r, kind, model@, built)
            };
        assert(call_ensures(connect, (handed,), built));
    }
}

/// Plans with the same model are the same plan: for the same provider, from the
/// same values.
pub proof fn plan_models_leave_nothing_out<'a>(a: ClientPlan<'a>, b: ClientPlan<'a>)
    requires
        a@ == b@,
    ensures
        match a {
            ClientPlan::Keyed { provider, api_key, base_url } => {
                b matches ClientPlan::Keyed { provider: p, api_key: k, base_url: u } && p == provider
                    && k@ == api_key@ && (u is Some <==> base_url is Some) && (u is Some ==> u->0@
                    == base_url->0@)
            },
            ClientPlan::Keyless { provider, base_url } => {
                b matches ClientPlan::Keyless { provider: p, base_url: u } && p == provider && (
                u is Some <==> base_url is Some) && (u is Some ==> u->0@ == base_url->0@)
            },
            ClientPlan::Azure { api_key, endpoint, api_version } => {
                b matches ClientPlan::Azure { api_key: k, endpoint: e, api_version: v } && k@
                    == api_key@ && e@ == endpoint@ && (v is Some <==> api_version is Some) && (
                v is Some ==> v->0@ == api_version->0@)
            },
            ClientPlan::Foundry { api_key, v1_base } => {
                b matches ClientPlan::Foundry { api_key: k, v1_base: u } && k@ == api_key@ && u@
                    == v1_base@
            },
            ClientPlan::BedrockProfile { profile } => {
                b matches ClientPlan::BedrockProfile { profile: p } && p@ == profile@
            },
            ClientPlan::BedrockEnvironment => b is BedrockEnvironment,
        },
{
}

/// A request is let through exactly when it carries no tools that the surface
/// lacks and no message anywhere in it carries an image that the surface lacks.
/// Tools are complained of first.
pub proof fn the_gate_looks_at_every_message(
    caps: Capabilities,
    req: &ChatRequest,
    r: Result<(), LlmError>,
)
    requires
        call_ensures(check_capabilities, (caps, req), r),
    ensures
        ({
            let said = req.messages@;
            let pictured = exists|i: int|
                0 <= i < said.len() && (#[trigger] said[i]).images@.len() > 0;
            let no_tools = req.tools@.len() > 0 && !caps.tools;
            let no_vision = pictured && !caps.vision;
            &&& r is Err <==> no_tools || no_vision
            &&& no_tools ==> (r->Err_0 matches LlmError::UnsupportedCapability(what) && what@
                == "tools"@)
            &&& !no_tools && no_vision ==> (r->Err_0 matches LlmError::UnsupportedCapability(what)
                && what@ == "vision"@)
        }),
{
}

/// A chat is refused before anything is sent when its request exceeds the
/// backend's surface: tools first, then an image in any message. Otherwise it
/// is refused exactly when, and as, its conversion is.
pub proof fn chats_pass_the_gate_first<C>(
    backend: &RigBackend<C>,
    req: ChatRequest,
    r: Result<(CompletionRequest, PendingChat), LlmError>,
    caps: Capabilities,
    converted: Result<CompletionRequest, LlmError>,
)
    requires
        call_ensures(RigBackend::<C>::chat_request, (backend, req), r),
        call_ensures(RigBackend::<C>::capabilities, (backend,), caps),
        call_ensures(build_completion_request, (req, backend.provider()), converted),
    ensures
        ({
            let said = req.messages@;
            let pictured = exists|i: int|
                0 <= i < said.len() && (#[trigger] said[i]).images@.len() > 0;
            let no_tools = req.tools@.len() > 0 && !caps.tools;
            let no_vision = pictured && !caps.vision;
            &&& r is Err <==> no_tools || no_vision || converted is Err
            &&& no_tools ==> (r->Err_0 matches LlmError::UnsupportedCapability(what) && what@
                == "tools"@)
            &&& !no_tools && no_vision ==> (r->Err_0 matches LlmError::UnsupportedCapability(what)
                && what@ == "vision"@)
            &&& !no_tools && !no_vision && converted is Err ==> r->Err_0@ == converted->Err_0@
        }),
{
}

/// No image ever goes out to a provider without vision, and no tool to one
/// without tools: an accepted request to the first holds no image part in any
/// of its turns, and one to the second no tool.
pub proof fn nothing_unsupported_goes_out<C>(
    backend: &RigBackend<C>,
    req: ChatRequest,
    out: CompletionRequest,
    pending: PendingChat,
    caps: Capabilities,
    k: int,
    j: int,
)
    requires
        call_ensures(RigBackend::<C>::chat_request, (backend, req), Ok((out, pending))),
        call_ensures(RigBackend::<C>::capabilities, (backend,), caps),
    ensures
        !caps.tools ==> out.tools@.len() == 0,
        ({
            let sent = crate::completion::messages_in(out.chat_history);
            !caps.vision && 0 <= k < sent.len() && sent[k] is User ==> {
                let parts = crate::completion::user_parts_in(sent[k]->User_content);
                0 <= j < parts.len() ==> !(parts[j] is Image)
            }
        }),
{
    let sent = crate::completion::messages_in(out.chat_history);
    let said = req.messages@;
    let at = history_is_the_conversation(req, backend.provider(), backend, out, pending);
    settings_go_out_as_asked(req, backend.provider(), backend, out, pending);
    if !caps.tools {
        assert(req.tools@.len() == 0);
    }
    if !caps.vision && 0 <= k < sent.len() && sent[k] is User {
        let m = said[at[k]];
        assert(m.images@.len() == 0) by {
            if m.images@.len() > 0 {
                assert(crate::rig_backend::has_images(said));
            }
        }
        assert(at.contains(at[k]));
        let parts = crate::completion::user_parts_in(sent[k]->User_content);
        if m.role is User {
            assert(parts.len() == 1);
        } else {
            assert(m.role is Tool);
        }
    }
}

/// A reply to a pending chat is answered as it is: under the backend's model,
/// and with the budget that the chat's request carried. A failure is answered
/// by its error.
pub proof fn chats_are_answered_under_their_budget<C>(
    backend: &RigBackend<C>,
    req: ChatRequest,
    out: CompletionRequest,
    pending: PendingChat,
    reply: Result<Completion, CompletionFailure>,
    r: Result<ChatResponse, LlmError>,
    model: &str,
    direct: ChatResponse,
    mapped: LlmError,
)
    requires
        call_ensures(RigBackend::<C>::chat_request, (backend, req), Ok((out, pending))),
        call_ensures(RigBackend::<C>::chat_response, (backend, pending, reply), r),
        call_ensures(RigBackend::<C>::model, (backend,), model),
        reply matches Ok(c) ==> call_ensures(
            map_choice,
            (c.choice, c.usage, out.max_tokens, model),
            direct,
        ),
        reply matches Err(failure) ==> call_ensures(map_completion_error, (failure,), mapped),
    ensures
        r is Ok <==> reply is Ok,
        r matches Ok(response) ==> {
            &&& response.content@ == direct.content@
            &&& response.tool_calls@ == direct.tool_calls@
            &&& response.finish_reason == direct.finish_reason
            &&& response.usage is Some && direct.usage is Some
            &&& response.usage->0.model@ == direct.usage->0.model@
            &&& response.usage->0.input_tokens == direct.usage->0.input_tokens
            &&& response.usage->0.output_tokens == direct.usage->0.output_tokens
        },
        r matches Err(e) ==> e@ == mapped@,
{
}

/// An opened stream is handed on unchanged, with an adapter that has seen
/// nothing yet and attributes usage to the backend's model. A stream that did
/// not open is answered by the error of its failure.
pub proof fn opened_streams_are_handed_on<C, S>(
    backend: &RigBackend<C>,
    opened: Result<S, CompletionFailure>,
    r: Result<(StreamAdapter, S), LlmError>,
    model: &str,
    mapped: LlmError,
)
    requires
        call_ensures(RigBackend::<C>::chat_stream::<S>, (backend, opened), r),
        call_ensures(RigBackend::<C>::model, (backend,), model),
        opened matches Err(failure) ==> call_ensures(map_completion_error, (failure,), mapped),
    ensures
        r is Ok <==> opened is Ok,
        r matches Ok((adapter, stream)) ==> {
            &&& stream == opened->Ok_0
            &&& adapter.wf()
            &&& adapter.chunks().len() == 0
            &&& adapter.model_id() == model@
        },
        r matches Err(e) ==> e@ == mapped@,
{
}

// ---------------------------------------------------------------------------
// Test double
// ---------------------------------------------------------------------------

/// A chat with the test double always succeeds and is captured behind those
/// before it. While the script lasts, its first response answers and is used
/// up; after that, the fallback text does, without calls or usage. Nothing else
/// changes.
pub proof fn the_double_answers_from_its_script(
    provider: &mut TestLlmProvider,
    req: ChatRequest,
    r: Result<ChatResponse, LlmError>,
)
    requires
        call_ensures(TestLlmProvider::chat, (provider, req), r),
    ensures
        r is Ok,
        final(provider).received() == old(provider).received().push(req),
        old(provider).script().len() > 0 ==> r->Ok_0 == old(provider).script()[0]
            && old(provider).script() == seq![r->Ok_0] + final(provider).script(),
        old(provider).script().len() == 0 ==> {
            &&& final(provider).script().len() == 0
            &&& r->Ok_0.content@ == old(provider).fallback()
            &&& r->Ok_0.tool_calls@.len() == 0
            &&& r->Ok_0.finish_reason is Stop
            &&& r->Ok_0.usage is None
        },
        final(provider).surface() == old(provider).surface(),
        final(provider).name() == old(provider).name(),
        final(provider).model_id() == old(provider).model_id(),
        final(provider).fallback() == old(provider).fallback(),
{
    if old(provider).script().len() > 0 {
        let rest = final(provider).script();
        assert(old(provider).script() =~= seq![old(provider).script()[0]] + rest);
    }
}

/// The captured requests are the requests that were made, whole and in order.
pub proof fn the_double_captures_whole_requests(
    provider: &TestLlmProvider,
    r: Vec<ChatRequest>,
    i: int,
    j: int,
)
    requires
        call_ensures(TestLlmProvider::captured_requests, (provider,), r),
        0 <= i < provider.received().len(),
    ensures
        r@.len() == provider.received().len(),
        ({
            let a = r@[i];
            let b = provider.received()[i];
            &&& a.messages@.len() == b.messages@.len()
            &&& 0 <= j < a.messages@.len() ==> {
                &&& a.messages@[j].role == b.messages@[j].role
                &&& a.messages@[j].content@ == b.messages@[j].content@
                &&& a.messages@[j].images@ == b.messages@[j].images@
                &&& a.messages@[j].tool_calls@ == b.messages@[j].tool_calls@
                &&& a.messages@[j].tool_call_id == b.messages@[j].tool_call_id
            }
            &&& a.tools@ == b.tools@
            &&& a.tool_choice == b.tool_choice
            &&& a.max_tokens == b.max_tokens
            &&& a.temperature == b.temperature
        }),
{
    assert(r@[i].same_as(provider.received()[i]));
}

/// The test double streams its fallback text and then `Done`, exactly when its
/// surface has streaming; else it says what is missing.
pub proof fn the_double_streams_its_text(
    provider: &TestLlmProvider,
    req: ChatRequest,
    r: Result<Vec<StreamEvent>, LlmError>,
)
    requires
        call_ensures(TestLlmProvider::chat_stream, (provider, req), r),
    ensures
        r is Ok <==> provider.surface().streaming,
        r matches Ok(events) ==> {
            &&& events@.len() == 2
            &&& events@[0] matches StreamEvent::TextChunk(t) && t@ == provider.fallback()
            &&& events@[1] matches StreamEvent::Done { finish_reason } && finish_reason is Stop
        },
        r matches Err(e) ==> (e matches LlmError::UnsupportedCapability(what) && what@
            == "streaming"@),
{
    if r is Ok {
        let views = crate::provider::event_views(r->Ok_0@);
        assert(views.len() == r->Ok_0@.len());
        assert(views[0] == r->Ok_0@[0]@);
        assert(views[1] == r->Ok_0@[1]@);
    }
}

/// The test double says of itself what it was built with.
pub proof fn the_double_describes_itself(
    provider: &TestLlmProvider,
    caps: Capabilities,
    name: &'static str,
    model: &str,
)
    requires
        call_ensures(TestLlmProvider::capabilities, (provider,), caps),
        call_ensures(TestLlmProvider::provider_name, (provider,), name),
        call_ensures(TestLlmProvider::model, (provider,), model),
    ensures
        caps == provider.surface(),
        name@ == provider.name(),
        model@ == provider.model_id(),
{
}

/// Each builder step sets the one thing it names and leaves the rest: the
/// surface, the name, and a response at the end of the script.
pub proof fn builder_steps_set_one_thing(
    builder: TestLlmProviderBuilder,
    caps: Capabilities,
    name: &'static str,
    response: ChatResponse,
    surfaced: TestLlmProviderBuilder,
    named: TestLlmProviderBuilder,
    scripted: TestLlmProviderBuilder,
    built: TestLlmProvider,
)
    requires
        call_ensures(TestLlmProviderBuilder::capabilities, (builder, caps), surfaced),
        call_ensures(TestLlmProviderBuilder::provider_name, (builder, name), named),
        call_ensures(TestLlmProviderBuilder::script_response, (builder, response), scripted),
        call_ensures(TestLlmProviderBuilder::build, (builder,), built),
    ensures
        ({
            let b = builder.built();
            let s = surfaced.built();
            let n = named.built();
            let q = scripted.built();
            &&& s.surface() == caps
            &&& n.surface() == b.surface() && q.surface() == b.surface()
            &&& n.name() == name@
            &&& s.name() == b.name() && q.name() == b.name()
            &&& q.script() == b.script().push(response)
            &&& s.script() == b.script() && n.script() == b.script()
            &&& s.model_id() == b.model_id() && n.model_id() == b.model_id() && q.model_id()
                == b.model_id()
            &&& s.fallback() == b.fallback() && n.fallback() == b.fallback() && q.fallback()
                == b.fallback()
            &&& s.received() == b.received() && n.received() == b.received() && q.received()
                == b.received()
            &&& built == b
        }),
{
}

/// The builder's text steps: the model and the fallback text, each set alone.
pub proof fn builder_texts_set_one_thing<S: Into<String>>(
    builder: TestLlmProviderBuilder,
    text: S,
    modelled: TestLlmProviderBuilder,
    answering: TestLlmProviderBuilder,
)
    requires
        call_ensures(TestLlmProviderBuilder::model::<S>, (builder, text), modelled),
        call_ensures(TestLlmProviderBuilder::response_text::<S>, (builder, text), answering),
    ensures
        ({
            let b = builder.built();
            let m = modelled.built();
            let a = answering.built();
            &&& exists|t: String|
                #[trigger] call_ensures(<S as Into<String>>::into, (text,), t) && m.model_id() == t@
            &&& exists|t: String|
                #[trigger] call_ensures(<S as Into<String>>::into, (text,), t) && a.fallback() == t@
            &&& m.fallback() == b.fallback() && a.model_id() == b.model_id()
            &&& m.surface() == b.surface() && a.surface() == b.surface()
            &&& m.name() == b.name() && a.name() == b.name()
            &&& m.script() == b.script() && a.script() == b.script()
            &&& m.received() == b.received() && a.received() == b.received()
        }),
{
}

// ---------------------------------------------------------------------------
// Lemmas
// ---------------------------------------------------------------------------

/// Where the kept items of a sequence stand in it.
proof fn lemma_filter_positions<A>(s: Seq<A>, keep: spec_fn(A) -> bool) -> (at: Seq<int>)
    ensures
        at.len() == s.filter(keep).len(),
        forall|k: int|
            0 <= k < at.len() ==> 0 <= #[trigger] at[k] < s.len() && keep(s[at[k]]) && s.filter(
                keep,
            )[k] == s[at[k]],
        forall|k: int, l: int| 0 <= k < l < at.len() ==> at[k] < at[l],
        forall|i: int| 0 <= i < s.len() ==> (at.contains(i) <==> keep(#[trigger] s[i])),
    decreases s.len(),
{
    reveal(Seq::filter);
    if s.len() == 0 {
        Seq::empty()
    } else {
        let rest = s.drop_last();
        let before = lemma_filter_positions(rest, keep);
        let n = s.len() - 1;
        let at = if keep(s.last()) {
            before.push(n)
        } else {
            before
        };
        assert forall|i: int| 0 <= i < s.len() implies (at.contains(i) <==> keep(#[trigger] s[i])) by {
            if i < n {
                assert(rest[i] == s[i]);
                if before.contains(i) {
                    let k = choose|k: int| 0 <= k < before.len() && before[k] == i;
                    assert(at[k] == i);
                }
                if at.contains(i) {
                    let k = choose|k: int| 0 <= k < at.len() && at[k] == i;
                    assert(before[k] == i);
                }
            } else if keep(s[i]) {
                assert(at[before.len() as int] == i);
            }
        }
        at
    }
}

/// Decimal numbers are made of digits, the last one telling the remainder, and
/// do not start with a zero.
proof fn lemma_decimal_digits(n: nat)
    ensures
        crate::text::decimal(n).len() > 0,
        crate::text::decimal(n).last() as u32 == 48 + n % 10,
        n > 0 ==> crate::text::decimal(n)[0] != '0',
        forall|i: int|
            0 <= i < crate::text::decimal(n).len() ==> '0' <= #[trigger] crate::text::decimal(n)[i]
                <= '9',
    decreases n,
{
    if n >= 10 {
        lemma_decimal_digits(n / 10);
        let before = crate::text::decimal(n / 10);
        let text = crate::text::decimal(n);
        assert(text =~= before.push(crate::text::digit(n % 10)));
        assert forall|i: int| 0 <= i < text.len() implies '0' <= #[trigger] text[i] <= '9' by {
            if i < before.len() {
                assert(text[i] == before[i]);
            }
        }
        assert(text[0] == before[0]);
    }
}

/// Where the events of each chunk stand among the events of all.
proof fn lemma_chunk_places(chunks: Seq<StreamChunk>) -> (at: Seq<int>)
    ensures
        ({
            let body = crate::stream::body_events(chunks);
            &&& at.len() == chunks.len() + 1
            &&& at[0] == 0
            &&& at.last() == body.len()
            &&& forall|i: int|
                0 <= i < chunks.len() ==> 0 <= #[trigger] at[i] && at[i + 1] <= body.len() && at[i
                    + 1] - at[i] == match chunks[i] {
                    StreamChunk::Text(_) => 1int,
                    StreamChunk::ToolCall { .. } => 2,
                    StreamChunk::Other => 0,
                }
            &&& forall|i: int|
                0 <= i < chunks.len() ==> (#[trigger] chunks[i] matches StreamChunk::Text(text)
                    ==> body[at[i]] == StreamEventView::TextChunk(text@))
            &&& forall|i: int|
                0 <= i < chunks.len() ==> (#[trigger] chunks[i] matches StreamChunk::ToolCall {
                    id,
                    call_id,
                    name,
                    arguments,
                } ==> {
                    let key = if call_id is Some {
                        call_id->0@
                    } else {
                        id@
                    };
                    &&& body[at[i]] == (StreamEventView::ToolCallStart { id: key, name: name@ })
                    &&& body[at[i] + 1] == (StreamEventView::ToolCallEnd { id: key, args: arguments })
                })
        }),
    decreases chunks.len(),
{
    let body = crate::stream::body_events(chunks);
    if chunks.len() == 0 {
        seq![0int]
    } else {
        let rest = chunks.drop_last();
        let before = lemma_chunk_places(rest);
        let earlier = crate::stream::body_events(rest);
        let added = crate::stream::chunk_events(chunks.last());
        let n = chunks.len() - 1;
        let at = before.push(body.len() as int);
        assert(body =~= earlier + added);
        assert(at[n] == before.last());
        assert forall|i: int| 0 <= i < chunks.len() implies 0 <= #[trigger] at[i] && at[i + 1]
            <= body.len() && at[i + 1] - at[i] == match chunks[i] {
            StreamChunk::Text(_) => 1int,
            StreamChunk::ToolCall { .. } => 2,
            StreamChunk::Other => 0,
        } by {
            if i < n {
                assert(before[i] == at[i] && before[i + 1] == at[i + 1]);
                assert(rest[i] == chunks[i]);
            }
        }
        assert forall|i: int| 0 <= i < chunks.len() implies (
        #[trigger] chunks[i] matches StreamChunk::Text(text) ==> body[at[i]]
            == StreamEventView::TextChunk(text@)) by {
            if i < n {
                assert(rest[i] == chunks[i]);
                assert(before[i] == at[i]);
            }
        }
        assert forall|i: int| 0 <= i < chunks.len() implies (
        #[trigger] chunks[i] matches StreamChunk::ToolCall { id, call_id, name, arguments } ==> {
            let key = if call_id is Some {
                call_id->0@
            } else {
                id@
            };
            &&& body[at[i]] == (StreamEventView::ToolCallStart { id: key, name: name@ })
            &&& body[at[i] + 1] == (StreamEventView::ToolCallEnd { id: key, args: arguments })
        }) by {
            if i < n {
                assert(rest[i] == chunks[i]);
                assert(before[i] == at[i] && before[i + 1] == at[i + 1]);
            }
        }
        at
    }
}

/// Trimming cuts a text off where its trailing run starts.
proof fn lemma_trim_end(s: Seq<char>, c: char, k: int)
    requires
        0 <= k <= s.len(),
        forall|i: int| k <= i < s.len() ==> #[trigger] s[i] == c,
        k > 0 ==> s[k - 1] != c,
    ensures
        crate::text::trim_end(s, c) == s.take(k),
    decreases s.len(),
{
    if k < s.len() {
        assert(s.last() == c);
        lemma_trim_end(s.drop_last(), c, k);
        assert(s.drop_last().take(k) =~= s.take(k));
    } else {
        assert(s.take(k) =~= s);
    }
}

/// The words of a tool choice differ.
proof fn lemma_choice_words()
    ensures
        "auto"@ != "none"@,
        "auto"@ != "required"@,
        "none"@ != "required"@,
{
    reveal_strlit("auto");
    reveal_strlit("none");
    reveal_strlit("required");
    assert("auto"@[0] != "none"@[0]);
    assert("auto"@[0] != "required"@[0]);
    assert("none"@[0] != "required"@[0]);
}

/// The names in a choice of functions are those in its model.
proof fn lemma_choice_view(choice: Option<ToolChoice>)
    ensures
        choice matches Some(ToolChoice::Specific { function_names })
            ==> choice->0@->Specific_0.len() == function_names@.len() && (function_names@.len() == 1
            ==> choice->0@->Specific_0[0] == function_names@[0]@),
{
}

} // verus!
