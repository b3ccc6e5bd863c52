//! From a chat request to the provider-neutral completion request.
//!
//! System messages are folded into the preamble; user, assistant and tool
//! turns become the chat history. Tool results are user turns keyed by
//! `tool_call_id`, the same id that a response surfaces for the call, so
//! caller-driven tool loops round-trip.

use crate::capabilities::ProviderKind;
use crate::completion::{
    image_media_type, many_assistant_parts, many_messages, many_user_parts, one_user_part,
    AssistantContent, CompletionRequest, Message, ToolChoice, ToolChoiceView, Turn, UserContent,
};
use crate::provider::{
    ChatImage, ChatMessage, ChatRequest, LlmError, LlmErrorView, MessageRole, ToolCall, ToolDef,
};
use crate::text::same_text;
use vstd::prelude::*;
use vstd::string::*;

verus! {

/// Default `max_tokens` for Anthropic, which rejects requests without one.
///
/// Deliberately generous: a small default (e.g. 4096) silently truncates rich
/// responses such as multi-card AdaptiveCard flows inlined in a single reply.
/// Callers that want a tighter budget can always pass an explicit
/// `max_tokens`; this constant only applies when none is provided.
pub const ANTHROPIC_DEFAULT_MAX_TOKENS: u64 = 32_768;

// ---------------------------------------------------------------------------
// Models
// ---------------------------------------------------------------------------

/// The texts of the system messages, in order.
pub open spec fn system_texts(messages: Seq<ChatMessage>) -> Seq<Seq<char>> {
    messages.filter(|m: ChatMessage| m.role is System).map_values(|m: ChatMessage| m.content@)
}

/// The preamble of a conversation: its system texts, one blank line apart.
pub open spec fn preamble_of(messages: Seq<ChatMessage>) -> Option<Seq<char>> {
    if system_texts(messages).len() == 0 {
        None
    } else {
        Some(crate::text::join(system_texts(messages), "\n\n"@))
    }
}

/// The part that an image attachment becomes.
pub open spec fn image_part(image: ChatImage) -> UserContent {
    UserContent::Image {
        data_base64: image.data_base64,
        media_type: crate::completion::image_media_type_of(image.media_type@),
    }
}

/// The part that a replayed tool call becomes.
pub open spec fn call_part(call: ToolCall) -> AssistantContent {
    AssistantContent::ToolCall {
        id: call.id,
        call_id: None,
        name: call.name,
        arguments: call.arguments,
    }
}

/// The parts of a user turn: the text, unless it is empty beside images, and
/// then the images in order.
pub open spec fn user_parts(m: ChatMessage) -> Seq<UserContent> {
    let text = if m.content@.len() > 0 || m.images@.len() == 0 {
        seq![UserContent::Text(m.content)]
    } else {
        Seq::empty()
    };
    text + m.images@.map_values(|image: ChatImage| image_part(image))
}

/// The parts of an assistant turn: the text, unless it is empty, and then the
/// tool calls in order.
pub open spec fn assistant_parts(m: ChatMessage) -> Seq<AssistantContent> {
    let text = if m.content@.len() > 0 {
        seq![AssistantContent::Text(m.content)]
    } else {
        Seq::empty()
    };
    text + m.tool_calls@.map_values(|call: ToolCall| call_part(call))
}

/// Whether a message takes a turn in the chat history. System messages are in
/// the preamble instead, and empty assistant rows are placeholders.
pub open spec fn takes_turn(m: ChatMessage) -> bool {
    match m.role {
        MessageRole::System => false,
        MessageRole::User => true,
        MessageRole::Assistant => m.content@.len() > 0 || m.tool_calls@.len() > 0,
        MessageRole::Tool => true,
    }
}

/// The turn that a message takes.
pub open spec fn turn_of(m: ChatMessage) -> Turn {
    match m.role {
        MessageRole::Assistant => Turn::Assistant(assistant_parts(m)),
        MessageRole::Tool => Turn::User(
            seq![UserContent::ToolResult { id: m.tool_call_id->0, content: m.content }],
        ),
        _ => Turn::User(user_parts(m)),
    }
}

/// The chat history of a conversation.
pub open spec fn turns(messages: Seq<ChatMessage>) -> Seq<Turn> {
    messages.filter(|m: ChatMessage| takes_turn(m)).map_values(|m: ChatMessage| turn_of(m))
}

/// Whether a message is a tool result that does not say which call it answers.
pub open spec fn unkeyed(m: ChatMessage) -> bool {
    m.role is Tool && m.tool_call_id is None
}

/// Whether some message of the conversation is an unkeyed tool result.
pub open spec fn has_unkeyed(messages: Seq<ChatMessage>) -> bool {
    exists|i: int| 0 <= i < messages.len() && unkeyed(#[trigger] messages[i])
}

/// What a `tool_choice` text asks for.
pub open spec fn asked_choice(choice: Seq<char>) -> ToolChoiceView {
    if choice == "auto"@ {
        ToolChoiceView::Auto
    } else if choice == "none"@ {
        ToolChoiceView::Never
    } else if choice == "required"@ {
        ToolChoiceView::Required
    } else {
        ToolChoiceView::Specific(seq![choice])
    }
}

/// What an optional `tool_choice` text asks for.
pub open spec fn mapped_choice(choice: Option<Seq<char>>) -> Option<ToolChoiceView> {
    match choice {
        None => None,
        Some(text) => Some(asked_choice(text)),
    }
}

/// Why a provider's wire protocol cannot express a `tool_choice`, if it
/// cannot. Only Ollama has limits: it cannot force a call.
pub open spec fn choice_refusal(kind: ProviderKind, choice: Option<Seq<char>>) -> Option<
    LlmErrorView,
> {
    if kind is Ollama {
        match mapped_choice(choice) {
            Some(ToolChoiceView::Required) => Some(
                LlmErrorView::UnsupportedCapability("tool_choice=required"@),
            ),
            Some(ToolChoiceView::Specific(_)) => Some(
                LlmErrorView::UnsupportedCapability("tool_choice=<named function>"@),
            ),
            _ => None,
        }
    } else {
        None
    }
}

/// The tools that go out. Ollama is kept from calling tools by not being told
/// of any.
pub open spec fn sent_tools(
    kind: ProviderKind,
    tools: Seq<ToolDef>,
    choice: Option<Seq<char>>,
) -> Seq<ToolDef> {
    if kind is Ollama && mapped_choice(choice) == Some(ToolChoiceView::Never) {
        Seq::empty()
    } else {
        tools
    }
}

/// The tool choice that goes out. Ollama has no such field on the wire.
pub open spec fn sent_choice(kind: ProviderKind, choice: Option<Seq<char>>) -> Option<
    ToolChoiceView,
> {
    if kind is Ollama {
        None
    } else {
        mapped_choice(choice)
    }
}

/// The model of an optional tool choice.
pub open spec fn opt_choice(choice: Option<ToolChoice>) -> Option<ToolChoiceView> {
    match choice {
        Some(c) => Some(c@),
        None => None,
    }
}

/// The token budget that goes out.
pub open spec fn sent_max_tokens(kind: ProviderKind, max_tokens: Option<u32>) -> Option<u64> {
    match max_tokens {
        Some(n) => Some(n as u64),
        None => if kind is Anthropic {
            Some(ANTHROPIC_DEFAULT_MAX_TOKENS)
        } else {
            None
        },
    }
}

/// Why a request cannot be converted for a provider, if it cannot. A refused
/// tool choice comes first, then an unkeyed tool result, then an empty
/// history.
pub open spec fn conversion_refusal(req: ChatRequest, kind: ProviderKind) -> Option<LlmErrorView> {
    if choice_refusal(kind, crate::text::opt_text(req.tool_choice)) is Some {
        choice_refusal(kind, crate::text::opt_text(req.tool_choice))
    } else if has_unkeyed(req.messages@) {
        Some(LlmErrorView::Parse("tool message missing tool_call_id"@))
    } else if turns(req.messages@).len() == 0 {
        Some(LlmErrorView::Parse("request contained no user/assistant/tool messages"@))
    } else {
        None
    }
}

/// Whether `out` is the completion request that `req` stands for.
pub open spec fn converts_to(req: ChatRequest, kind: ProviderKind, out: CompletionRequest) -> bool {
    &&& crate::text::opt_text(out.preamble) == preamble_of(req.messages@)
    &&& out.history() == turns(req.messages@)
    &&& out.tools@ == sent_tools(kind, req.tools@, crate::text::opt_text(req.tool_choice))
    &&& opt_choice(out.tool_choice) == sent_choice(kind, crate::text::opt_text(req.tool_choice))
    &&& out.max_tokens == sent_max_tokens(kind, req.max_tokens)
    &&& out.temperature == req.temperature
}

// ---------------------------------------------------------------------------
// Conversion
// ---------------------------------------------------------------------------

/// Concatenate every system message in the conversation into a single preamble
/// string. Returns `None` if no system message is present.
pub fn build_preamble(messages: &[ChatMessage]) -> (r: Option<String>)
    ensures
        crate::text::opt_text(r) == preamble_of(messages@),
{
    let mut found = false;
    let mut preamble = String::new();
    let mut i: usize = 0;
    while i < messages.len()
        invariant
            i <= messages@.len(),
            found == (system_texts(messages@.take(i as int)).len() > 0),
            preamble@ == crate::text::join(system_texts(messages@.take(i as int)), "\n\n"@),
        decreases messages.len() - i,
    {
        proof {
            lemma_system_texts_step(messages@, i as int);
        }
        if messages[i].role == MessageRole::System {
            let ghost before = system_texts(messages@.take(i as int));
            assert(before.push(messages@[i as int].content@).drop_last() =~= before);
            if found {
                preamble.append("\n\n");
            }
            preamble.append(messages[i].content.as_str());
            found = true;
        }
        i = i + 1;
    }
    assert(messages@.take(messages@.len() as int) =~= messages@);
    if found {
        Some(preamble)
    } else {
        None
    }
}

/// Map the `tool_choice` string convention (`"auto"` / `"none"` /
/// `"required"` / a specific tool name) onto a [`ToolChoice`].
pub fn map_tool_choice(choice: Option<&str>) -> (r: Option<ToolChoice>)
    ensures
        opt_choice(r) == mapped_choice(
            match choice {
                Some(text) => Some(text@),
                None => None,
            },
        ),
{
    match choice {
        None => None,
        Some(text) => {
            if same_text(text, "auto") {
                Some(ToolChoice::Auto)
            } else if same_text(text, "none") {
                Some(ToolChoice::Never)
            } else if same_text(text, "required") {
                Some(ToolChoice::Required)
            } else {
                let mut function_names: Vec<String> = Vec::new();
                function_names.push(text.to_string());
                assert(function_names@.map_values(|name: String| name@) =~= seq![text@]);
                Some(ToolChoice::Specific { function_names })
            }
        },
    }
}

/// Resolve the caller's `tool_choice` against what the provider's wire
/// protocol can express. Returns the tools to advertise and the choice to
/// forward.
///
/// Every provider except Ollama forwards the choice unchanged. Ollama has no
/// `tool_choice` on the wire and always behaves like `auto`: when tools are
/// present the model may call one or answer in text. So:
///
/// | `tool_choice`      | Ollama behaviour                                  |
/// |--------------------|---------------------------------------------------|
/// | absent / `"auto"`  | tools sent unchanged, no choice forwarded         |
/// | `"none"`           | tools are **not sent**, so the model cannot call one |
/// | `"required"`       | refused: `UnsupportedCapability`                  |
/// | a function name    | refused: `UnsupportedCapability`                  |
///
/// The last two are refused rather than degraded. A caller asking to force a
/// call expects its next step to receive one; quietly sending a plain `auto`
/// request would let the model answer in text and break that step downstream,
/// far from the cause. To steer Ollama toward one function, send only that
/// function in `tools`.
pub fn resolve_tool_choice(kind: ProviderKind, tools: Vec<ToolDef>, choice: Option<&str>) -> (r:
    Result<(Vec<ToolDef>, Option<ToolChoice>), LlmError>)
    ensures
        ({
            let asked = match choice {
                Some(text) => Some(text@),
                None => None,
            };
            match r {
                Ok((out, forwarded)) => {
                    &&& choice_refusal(kind, asked) is None
                    &&& out@ == sent_tools(kind, tools@, asked)
                    &&& opt_choice(forwarded) == sent_choice(kind, asked)
                },
                Err(e) => choice_refusal(kind, asked) == Some(e@),
            }
        }),
{
    if kind != ProviderKind::Ollama {
        return Ok((tools, map_tool_choice(choice)));
    }
    match map_tool_choice(choice) {
        None | Some(ToolChoice::Auto) => Ok((tools, None)),
        Some(ToolChoice::Never) => Ok((Vec::new(), None)),
        Some(ToolChoice::Required) => Err(LlmError::UnsupportedCapability("tool_choice=required")),
        Some(ToolChoice::Specific { .. }) => Err(
            LlmError::UnsupportedCapability("tool_choice=<named function>"),
        ),
    }
}

/// The parts of a user message, taken out of it.
fn take_user_parts(m: ChatMessage) -> (r: Vec<UserContent>)
    ensures
        r@ == user_parts(m),
{
    let mut parts: Vec<UserContent> = Vec::new();
    if !m.content.as_str().is_empty() || m.images.len() == 0 {
        parts.push(UserContent::Text(m.content));
    }
    let ghost text = parts@;
    let ghost images = m.images@;
    for image in it: m.images
        invariant
            it.seq() == images,
            parts@ == text + images.take(it.index()).map_values(
                |image: ChatImage| image_part(image),
            ),
    {
        let media_type = image_media_type(image.media_type.as_str());
        proof {
            let n = it.index();
            assert(images.take(n + 1).map_values(|image: ChatImage| image_part(image))
                =~= images.take(n).map_values(|image: ChatImage| image_part(image)).push(
                image_part(images[n]),
            ));
        }
        parts.push(UserContent::Image { data_base64: image.data_base64, media_type });
    }
    assert(images.take(images.len() as int) =~= images);
    parts
}

/// The parts of an assistant message, taken out of it.
fn take_assistant_parts_of(m: ChatMessage) -> (r: Vec<AssistantContent>)
    ensures
        r@ == assistant_parts(m),
{
    let mut parts: Vec<AssistantContent> = Vec::new();
    if !m.content.as_str().is_empty() {
        parts.push(AssistantContent::Text(m.content));
    }
    let ghost text = parts@;
    let ghost calls = m.tool_calls@;
    for call in it: m.tool_calls
        invariant
            it.seq() == calls,
            parts@ == text + calls.take(it.index()).map_values(|call: ToolCall| call_part(call)),
    {
        proof {
            let n = it.index();
            assert(calls.take(n + 1).map_values(|call: ToolCall| call_part(call)) =~= calls.take(
                n,
            ).map_values(|call: ToolCall| call_part(call)).push(call_part(calls[n])));
        }
        parts.push(
            AssistantContent::ToolCall {
                id: call.id,
                call_id: None,
                name: call.name,
                arguments: call.arguments,
            },
        );
    }
    assert(calls.take(calls.len() as int) =~= calls);
    parts
}

/// The turn of one message: `Ok(None)` when it takes none, an error when it is
/// an unkeyed tool result.
fn take_turn(m: ChatMessage) -> (r: Result<Option<Message>, LlmError>)
    ensures
        match r {
            Ok(Some(message)) => !unkeyed(m) && takes_turn(m) && message@ == turn_of(m),
            Ok(None) => !unkeyed(m) && !takes_turn(m),
            Err(e) => unkeyed(m) && e@ == LlmErrorView::Parse(
                "tool message missing tool_call_id"@,
            ),
        },
{
    match m.role {
        MessageRole::System => Ok(None),
        MessageRole::User => {
            match many_user_parts(take_user_parts(m)) {
                Ok(content) => Ok(Some(Message::User { content })),
                Err(_) => Err(LlmError::Parse("empty user content".to_string())),
            }
        },
        MessageRole::Assistant => {
            // An empty assistant turn is skipped rather than refused; some
            // callers store placeholder assistant rows.
            match many_assistant_parts(take_assistant_parts_of(m)) {
                Ok(content) => Ok(Some(Message::Assistant { content })),
                Err(_) => Ok(None),
            }
        },
        MessageRole::Tool => {
            // Providers key tool results to the originating call; an unkeyed
            // result would be silently misattributed, so fail fast instead of
            // sending an empty id.
            match m.tool_call_id {
                Some(id) => Ok(
                    Some(
                        Message::User {
                            content: one_user_part(
                                UserContent::ToolResult { id, content: m.content },
                            ),
                        },
                    ),
                ),
                None => Err(LlmError::Parse("tool message missing tool_call_id".to_string())),
            }
        },
    }
}

/// Convert a [`ChatRequest`] into a provider-neutral [`CompletionRequest`].
///
/// Consumes the request so message payloads (notably base64 image data, which
/// can be multiple megabytes) move into the completion request instead of
/// being copied.
pub fn build_completion_request(req: ChatRequest, kind: ProviderKind) -> (r: Result<
    CompletionRequest,
    LlmError,
>)
    ensures
        match r {
            Ok(out) => conversion_refusal(req, kind) is None && converts_to(req, kind, out),
            Err(e) => conversion_refusal(req, kind) == Some(e@),
        },
{
    let ChatRequest { messages, tools, tool_choice, max_tokens, temperature } = req;

    // Resolve tool_choice first: a choice the provider cannot express fails
    // here, before any message conversion.
    let choice = match &tool_choice {
        Some(text) => Some(text.as_str()),
        None => None,
    };
    let (tools, tool_choice) = match resolve_tool_choice(kind, tools, choice) {
        Ok(resolved) => resolved,
        Err(e) => {
            return Err(e);
        },
    };

    // The preamble is built while the messages are still borrowable; the loop
    // below consumes them.
    let preamble = build_preamble(messages.as_slice());
    let ghost all = messages@;
    let mut history: Vec<Message> = Vec::new();
    for m in it: messages
        invariant
            it.seq() == all,
            all == req.messages@,
            choice_refusal(kind, crate::text::opt_text(req.tool_choice)) is None,
            !has_unkeyed(all.take(it.index())),
            history@.map_values(|m: Message| m@) == turns(all.take(it.index())),
    {
        proof {
            lemma_turns_step(all, it.index());
        }
        let ghost before = history@;
        match take_turn(m) {
            Ok(Some(message)) => {
                history.push(message);
                assert(history@.map_values(|m: Message| m@) =~= before.map_values(
                    |m: Message| m@,
                ).push(message@));
            },
            Ok(None) => {},
            Err(e) => {
                assert(unkeyed(all[it.index()]));
                return Err(e);
            },
        }
    }
    assert(all.take(all.len() as int) =~= all);
    let chat_history = match many_messages(history) {
        Ok(list) => list,
        Err(_) => {
            assert(history@.map_values(|m: Message| m@).len() == 0);
            return Err(
                LlmError::Parse("request contained no user/assistant/tool messages".to_string()),
            );
        },
    };
    assert(history@.map_values(|m: Message| m@).len() > 0);

    // Anthropic's API requires max_tokens; default it when the caller did not
    // set one so requests do not fail provider-side.
    let max_tokens = match max_tokens {
        Some(n) => Some(n as u64),
        None => if kind == ProviderKind::Anthropic {
            Some(ANTHROPIC_DEFAULT_MAX_TOKENS)
        } else {
            None
        },
    };

    Ok(CompletionRequest { preamble, chat_history, tools, temperature, max_tokens, tool_choice })
}

// ---------------------------------------------------------------------------
// Laws
// ---------------------------------------------------------------------------

/// A longer conversation only adds to the history: what was said before keeps
/// its turns, in order.
pub proof fn history_grows_at_the_end(before: Seq<ChatMessage>, after: Seq<ChatMessage>)
    ensures
        turns(before + after) == turns(before) + turns(after),
{
    let speaks = |m: ChatMessage| takes_turn(m);
    Seq::filter_distributes_over_add(before, after, speaks);
    assert(turns(before + after) =~= turns(before) + turns(after));
}

/// System messages are in the preamble and nowhere else, and nothing else is
/// in the preamble: leaving them out does not change the history, and leaving
/// everything else out does not change the preamble.
pub proof fn system_messages_make_the_preamble(messages: Seq<ChatMessage>)
    ensures
        turns(messages.filter(|m: ChatMessage| !(m.role is System))) == turns(messages),
        preamble_of(messages.filter(|m: ChatMessage| m.role is System)) == preamble_of(messages),
{
    lemma_turns_without_system(messages);
    lemma_system_texts_alone(messages);
}

/// A conversation has a preamble exactly when it has a system message.
pub proof fn preamble_needs_a_system_message(messages: Seq<ChatMessage>)
    ensures
        preamble_of(messages) is Some <==> exists|i: int|
            0 <= i < messages.len() && (#[trigger] messages[i]).role is System,
{
    let is_system = |m: ChatMessage| m.role is System;
    if exists|i: int| 0 <= i < messages.len() && (#[trigger] messages[i]).role is System {
        let i = choose|i: int| 0 <= i < messages.len() && (#[trigger] messages[i]).role is System;
        assert(is_system(messages[i]));
        assert(messages.filter(is_system).contains(messages[i]));
    } else if messages.filter(is_system).len() > 0 {
        let first = messages.filter(is_system)[0];
        assert(is_system(first));
        messages.lemma_filter_contains_rev(is_system, first);
    }
}

/// Every turn that goes out has at least one part.
pub proof fn turns_are_never_empty(m: ChatMessage)
    requires
        takes_turn(m),
    ensures
        match turn_of(m) {
            Turn::User(parts) => parts.len() > 0,
            Turn::Assistant(parts) => parts.len() > 0,
        },
{
}

/// Every provider but Ollama is sent the tools and the tool choice exactly as
/// asked, and refuses no choice.
pub proof fn other_providers_forward_unchanged(
    kind: ProviderKind,
    tools: Seq<ToolDef>,
    choice: Option<Seq<char>>,
)
    requires
        !(kind is Ollama),
    ensures
        choice_refusal(kind, choice) is None,
        sent_tools(kind, tools, choice) == tools,
        sent_choice(kind, choice) == mapped_choice(choice),
{
}

/// Ollama is never sent a tool choice. A choice to force a call is refused; a
/// choice of no tools withholds them; any other sends them unchanged.
pub proof fn ollama_honours_or_refuses(tools: Seq<ToolDef>, choice: Option<Seq<char>>)
    ensures
        sent_choice(ProviderKind::Ollama, choice) is None,
        choice_refusal(ProviderKind::Ollama, choice) is Some <==> (choice is Some && choice->0
            != "auto"@ && choice->0 != "none"@),
        choice == Some("none"@) ==> sent_tools(ProviderKind::Ollama, tools, choice).len() == 0,
        choice is None || choice == Some("auto"@) ==> sent_tools(ProviderKind::Ollama, tools, choice)
            == tools,
{
    reveal_strlit("auto");
    reveal_strlit("none");
    reveal_strlit("required");
    assert("auto"@[0] != "none"@[0]);
}

/// Anthropic always gets a token budget; every other provider gets one exactly
/// when the caller set it. A budget that the caller set goes out unchanged.
pub proof fn budgets_are_kept(kind: ProviderKind, max_tokens: Option<u32>)
    ensures
        sent_max_tokens(kind, max_tokens) is Some <==> kind is Anthropic || max_tokens is Some,
        max_tokens is Some ==> sent_max_tokens(kind, max_tokens) == Some(max_tokens->0 as u64),
{
}

/// The tool loop round-trips. A reply's calls, replayed as an assistant turn
/// and answered by one tool result each, go out unchanged as call parts, and
/// each result goes out under the id that the reply correlated its call by.
pub proof fn tool_loop_round_trips(
    parts: Seq<AssistantContent>,
    replayed: ChatMessage,
    results: Seq<ChatMessage>,
    i: int,
)
    requires
        replayed.role is Assistant,
        replayed.tool_calls@ == crate::response::reply_calls(parts),
        results.len() == replayed.tool_calls@.len(),
        forall|j: int|
            0 <= j < results.len() ==> (#[trigger] results[j]).role is Tool
                && results[j].tool_call_id == Some(replayed.tool_calls@[j].id),
        0 <= i < results.len(),
    ensures
        !has_unkeyed(seq![replayed] + results),
        ({
            let out = turns(seq![replayed] + results);
            let texts = assistant_parts(replayed).len() - results.len();
            let call = crate::response::reply_calls(parts)[i];
            &&& out.len() == 1 + results.len()
            &&& out[0] == Turn::Assistant(assistant_parts(replayed))
            &&& assistant_parts(replayed)[texts + i] == call_part(call)
            &&& out[1 + i] == Turn::User(
                seq![UserContent::ToolResult { id: call.id, content: results[i].content }],
            )
        }),
{
    let speaks = |m: ChatMessage| takes_turn(m);
    let all = seq![replayed] + results;
    assert forall|j: int| 0 <= j < all.len() implies speaks(#[trigger] all[j]) && !unkeyed(all[j]) by {
        if j > 0 {
            assert(all[j] == results[j - 1]);
        }
    }
    lemma_all_kept(all);
    assert(all[1 + i] == results[i]);
}

// ---------------------------------------------------------------------------
// Lemmas
// ---------------------------------------------------------------------------

/// When every message takes a turn, the history has one turn per message.
proof fn lemma_all_kept(messages: Seq<ChatMessage>)
    requires
        forall|j: int| 0 <= j < messages.len() ==> takes_turn(#[trigger] messages[j]),
    ensures
        turns(messages) == messages.map_values(|m: ChatMessage| turn_of(m)),
    decreases messages.len(),
{
    reveal(Seq::filter);
    if messages.len() > 0 {
        let rest = messages.drop_last();
        assert forall|j: int| 0 <= j < rest.len() implies takes_turn(#[trigger] rest[j]) by {
            assert(rest[j] == messages[j]);
        }
        lemma_all_kept(rest);
        assert(takes_turn(messages[messages.len() - 1]));
        assert(turns(messages) =~= turns(rest).push(turn_of(messages.last())));
    }
    assert(turns(messages) =~= messages.map_values(|m: ChatMessage| turn_of(m)));
}

/// Leaving out the system messages does not change the history.
proof fn lemma_turns_without_system(messages: Seq<ChatMessage>)
    ensures
        turns(messages.filter(|m: ChatMessage| !(m.role is System))) == turns(messages),
    decreases messages.len(),
{
    reveal(Seq::filter);
    let others = |m: ChatMessage| !(m.role is System);
    if messages.len() > 0 {
        let rest = messages.drop_last();
        lemma_turns_without_system(rest);
        if others(messages.last()) {
            let kept = rest.filter(others).push(messages.last());
            assert(messages.filter(others) =~= kept);
            assert(kept.drop_last() =~= rest.filter(others));
            assert(turns(kept) =~= if takes_turn(messages.last()) {
                turns(rest).push(turn_of(messages.last()))
            } else {
                turns(rest)
            });
            assert(turns(messages) =~= turns(kept));
        } else {
            assert(turns(messages) =~= turns(rest));
        }
    }
}

/// Leaving out everything but the system messages does not change the texts.
proof fn lemma_system_texts_alone(messages: Seq<ChatMessage>)
    ensures
        system_texts(messages.filter(|m: ChatMessage| m.role is System)) == system_texts(messages),
    decreases messages.len(),
{
    reveal(Seq::filter);
    let is_system = |m: ChatMessage| m.role is System;
    if messages.len() > 0 {
        let rest = messages.drop_last();
        lemma_system_texts_alone(rest);
        if is_system(messages.last()) {
            let kept = rest.filter(is_system).push(messages.last());
            assert(messages.filter(is_system) =~= kept);
            assert(kept.drop_last() =~= rest.filter(is_system));
            assert(system_texts(kept) =~= system_texts(rest).push(messages.last().content@));
            assert(system_texts(messages) =~= system_texts(kept));
        } else {
            assert(system_texts(messages) =~= system_texts(rest));
        }
    }
}

/// One more message adds its text to the system texts, or nothing.
proof fn lemma_system_texts_step(messages: Seq<ChatMessage>, i: int)
    requires
        0 <= i < messages.len(),
    ensures
        system_texts(messages.take(i + 1)) == if messages[i].role is System {
            system_texts(messages.take(i)).push(messages[i].content@)
        } else {
            system_texts(messages.take(i))
        },
{
    reveal(Seq::filter);
    assert(messages.take(i + 1).drop_last() =~= messages.take(i));
    assert(messages.take(i + 1).last() == messages[i]);
    assert(system_texts(messages.take(i + 1)) =~= if messages[i].role is System {
        system_texts(messages.take(i)).push(messages[i].content@)
    } else {
        system_texts(messages.take(i))
    });
}

/// One more message adds its turn to the history, or nothing, and adds itself
/// to the candidates for an unkeyed result.
proof fn lemma_turns_step(messages: Seq<ChatMessage>, i: int)
    requires
        0 <= i < messages.len(),
    ensures
        turns(messages.take(i + 1)) == if takes_turn(messages[i]) {
            turns(messages.take(i)).push(turn_of(messages[i]))
        } else {
            turns(messages.take(i))
        },
        has_unkeyed(messages.take(i + 1)) <==> has_unkeyed(messages.take(i)) || unkeyed(
            messages[i],
        ),
        unkeyed(messages[i]) ==> has_unkeyed(messages),
{
    reveal(Seq::filter);
    let longer = messages.take(i + 1);
    let shorter = messages.take(i);
    assert(longer.drop_last() =~= shorter);
    assert(longer.last() == messages[i]);
    assert(turns(longer) =~= if takes_turn(messages[i]) {
        turns(shorter).push(turn_of(messages[i]))
    } else {
        turns(shorter)
    });
    if has_unkeyed(longer) {
        let j = choose|j: int| 0 <= j < longer.len() && unkeyed(#[trigger] longer[j]);
        if j < i {
            assert(unkeyed(shorter[j]));
        }
    }
    if has_unkeyed(shorter) {
        let j = choose|j: int| 0 <= j < shorter.len() && unkeyed(#[trigger] shorter[j]);
        assert(unkeyed(longer[j]));
    }
    if unkeyed(messages[i]) {
        assert(unkeyed(longer[i]));
    }
}

} // verus!
