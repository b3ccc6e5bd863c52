//! The request, response, stream and error types that flow between callers and
//! provider backends.
//!
//! Design notes:
//! - Tool linkage is carried on [`ChatMessage`] itself: assistant turns replay
//!   their requested calls via `tool_calls`, and [`MessageRole::Tool`] messages
//!   reference the call they answer via `tool_call_id` (the result payload
//!   travels in `content`). Use [`ChatMessage::assistant_with_tool_calls`] and
//!   [`ChatMessage::tool_result`] to construct them.
//! - JSON (tool schemas and tool arguments) is carried and never looked into.
//! - The sampling temperature is carried as the bits of a single-precision
//!   number, see [`Temperature`].

use crate::text::{concat2, decimal_text};
use vstd::prelude::*;
use vstd::string::*;

verus! {

/// `serde_json::Value`: any JSON value, opaque here.
#[verifier::external_type_specification]
#[verifier::external_body]
pub struct ExJsonValue(serde_json::Value);

/// `serde_json::Value::clone`: the derived clone is the same JSON value.
pub assume_specification[ <serde_json::Value as Clone>::clone ](v: &serde_json::Value) -> (r:
    serde_json::Value)
    ensures
        r == *v,
;

/// Role of a chat message in the conversation history.
#[derive(Clone, Copy, Debug, PartialEq, Eq, Structural)]
pub enum MessageRole {
    System,
    User,
    Assistant,
    Tool,
}

/// A vision attachment carried with a [`ChatMessage`].
#[derive(Debug)]
pub struct ChatImage {
    /// Base64-encoded image bytes (no `data:` prefix).
    pub data_base64: String,
    /// IANA media type (e.g. `image/png`, `image/jpeg`).
    pub media_type: String,
}

/// A tool call requested by the assistant.
#[derive(Debug)]
pub struct ToolCall {
    pub id: String,
    pub name: String,
    pub arguments: serde_json::Value,
}

/// Tool definition advertised to the provider for function calling.
#[derive(Debug)]
pub struct ToolDef {
    pub name: String,
    pub description: String,
    /// JSON Schema describing the tool's parameters.
    pub schema: serde_json::Value,
}

/// A single message in a chat conversation.
#[derive(Debug)]
pub struct ChatMessage {
    pub role: MessageRole,
    pub content: String,
    /// Optional vision attachments. Empty `Vec` is canonical when no images
    /// are attached (avoids `Option<Vec<...>>` ambiguity).
    pub images: Vec<ChatImage>,
    /// Tool calls made by this assistant turn. Populated when replaying a
    /// multi-round tool-calling conversation; empty for non-assistant roles.
    pub tool_calls: Vec<ToolCall>,
    /// For [`MessageRole::Tool`] messages: id of the tool call this message
    /// answers. Providers that key results to calls require it.
    pub tool_call_id: Option<String>,
}

/// A sampling temperature: an IEEE 754 single-precision number, kept by its
/// bits so that it is carried to the provider unchanged.
#[derive(Clone, Copy, Debug, PartialEq, Eq, Structural)]
pub struct Temperature {
    pub bits: u32,
}

/// One-shot chat request.
#[derive(Debug)]
pub struct ChatRequest {
    pub messages: Vec<ChatMessage>,
    pub tools: Vec<ToolDef>,
    /// Optional tool selection hint. Conventionally `"auto"`, `"required"`,
    /// `"none"`, or a specific tool name; provider-specific semantics apply.
    pub tool_choice: Option<String>,
    pub max_tokens: Option<u32>,
    pub temperature: Option<Temperature>,
}

/// Token usage for one completion, normalized across providers.
///
/// Token counts default to `0` when a provider does not report usage. `model`
/// is the active model id that served the request.
#[derive(Debug, PartialEq, Eq)]
pub struct Usage {
    pub model: String,
    pub input_tokens: u64,
    pub output_tokens: u64,
}

/// Why the provider stopped generating tokens.
#[derive(Debug, PartialEq)]
pub enum FinishReason {
    Stop,
    ToolCalls,
    Length,
    ContentFilter,
    Other(String),
}

/// One-shot chat response.
#[derive(Debug)]
pub struct ChatResponse {
    pub content: String,
    pub tool_calls: Vec<ToolCall>,
    pub finish_reason: FinishReason,
    /// Token usage for this completion. `None` when the backend cannot report
    /// it.
    pub usage: Option<Usage>,
}

/// Streaming event emitted while a streamed completion runs.
#[derive(Debug)]
pub enum StreamEvent {
    /// Incremental assistant text.
    TextChunk(String),
    /// Start marker for a tool call (id + name known, args incoming).
    ToolCallStart { id: String, name: String },
    /// Partial tool-call argument delta (provider-specific JSON fragment).
    ToolCallArgs { id: String, args_delta: String },
    /// Tool call complete with parsed arguments.
    ToolCallEnd { id: String, args: serde_json::Value },
    /// Token usage, sent before `Done` and only when the provider reported it.
    Usage(Usage),
    /// Stream terminated.
    Done { finish_reason: FinishReason },
}

/// Errors returned by provider backends.
#[derive(Debug)]
pub enum LlmError {
    Transport(String),
    Status { status: u16, body: String },
    Parse(String),
    UnsupportedCapability(&'static str),
    /// The provider was configured incorrectly (missing endpoint, unsupported
    /// option, or a backend that is not part of this build).
    Config(String),
    /// Any other failure, by its message.
    Other(String),
}

// ---------------------------------------------------------------------------
// Models
// ---------------------------------------------------------------------------

/// Model of [`Usage`].
#[verifier::ext_equal]
pub struct UsageView {
    pub model: Seq<char>,
    pub input_tokens: u64,
    pub output_tokens: u64,
}

impl View for Usage {
    type V = UsageView;

    open spec fn view(&self) -> UsageView {
        UsageView {
            model: self.model@,
            input_tokens: self.input_tokens,
            output_tokens: self.output_tokens,
        }
    }
}

/// Model of [`StreamEvent`].
#[verifier::ext_equal]
pub enum StreamEventView {
    TextChunk(Seq<char>),
    ToolCallStart { id: Seq<char>, name: Seq<char> },
    ToolCallArgs { id: Seq<char>, args_delta: Seq<char> },
    ToolCallEnd { id: Seq<char>, args: serde_json::Value },
    Usage(UsageView),
    Done { finish_reason: FinishReason },
}

impl View for StreamEvent {
    type V = StreamEventView;

    open spec fn view(&self) -> StreamEventView {
        match *self {
            StreamEvent::TextChunk(text) => StreamEventView::TextChunk(text@),
            StreamEvent::ToolCallStart { id, name } => StreamEventView::ToolCallStart {
                id: id@,
                name: name@,
            },
            StreamEvent::ToolCallArgs { id, args_delta } => StreamEventView::ToolCallArgs {
                id: id@,
                args_delta: args_delta@,
            },
            StreamEvent::ToolCallEnd { id, args } => StreamEventView::ToolCallEnd { id: id@, args },
            StreamEvent::Usage(usage) => StreamEventView::Usage(usage@),
            StreamEvent::Done { finish_reason } => StreamEventView::Done { finish_reason },
        }
    }
}

/// Model of [`LlmError`].
#[verifier::ext_equal]
pub enum LlmErrorView {
    Transport(Seq<char>),
    Status { status: u16, body: Seq<char> },
    Parse(Seq<char>),
    UnsupportedCapability(Seq<char>),
    Config(Seq<char>),
    Other(Seq<char>),
}

impl View for LlmError {
    type V = LlmErrorView;

    open spec fn view(&self) -> LlmErrorView {
        match *self {
            LlmError::Transport(text) => LlmErrorView::Transport(text@),
            LlmError::Status { status, body } => LlmErrorView::Status { status, body: body@ },
            LlmError::Parse(text) => LlmErrorView::Parse(text@),
            LlmError::UnsupportedCapability(name) => LlmErrorView::UnsupportedCapability(name@),
            LlmError::Config(text) => LlmErrorView::Config(text@),
            LlmError::Other(text) => LlmErrorView::Other(text@),
        }
    }
}

impl LlmErrorView {
    /// What an error says when it is displayed.
    pub open spec fn message(self) -> Seq<char> {
        match self {
            LlmErrorView::Transport(text) => "provider HTTP error: "@ + text,
            LlmErrorView::Status { status, body } => "provider returned status "@ + crate::text::decimal(
                status as nat,
            ) + ": "@ + body,
            LlmErrorView::Parse(text) => "provider response could not be parsed: "@ + text,
            LlmErrorView::UnsupportedCapability(name) => "capability '"@ + name
                + "' not supported by this provider"@,
            LlmErrorView::Config(text) => "invalid provider configuration: "@ + text,
            LlmErrorView::Other(text) => text,
        }
    }
}

/// The events, each by its model.
pub open spec fn event_views(events: Seq<StreamEvent>) -> Seq<StreamEventView> {
    events.map_values(|e: StreamEvent| e@)
}

impl ChatMessage {
    /// Whether two messages hold the same role, text, images, calls and call
    /// id.
    pub open spec fn same_as(self, other: ChatMessage) -> bool {
        &&& self.role == other.role
        &&& self.content == other.content
        &&& self.images@ == other.images@
        &&& self.tool_calls@ == other.tool_calls@
        &&& self.tool_call_id == other.tool_call_id
    }
}

impl ChatRequest {
    /// Whether two requests hold the same messages, tools and settings.
    pub open spec fn same_as(self, other: ChatRequest) -> bool {
        &&& self.messages@.len() == other.messages@.len()
        &&& forall|i: int|
            0 <= i < self.messages@.len() ==> (#[trigger] self.messages@[i]).same_as(
                other.messages@[i],
            )
        &&& self.tools@ == other.tools@
        &&& self.tool_choice == other.tool_choice
        &&& self.max_tokens == other.max_tokens
        &&& self.temperature == other.temperature
    }
}

impl ChatResponse {
    /// Whether two responses hold the same text, calls, finish reason and
    /// usage.
    pub open spec fn same_as(self, other: ChatResponse) -> bool {
        &&& self.content == other.content
        &&& self.tool_calls@ == other.tool_calls@
        &&& self.finish_reason == other.finish_reason
        &&& self.usage == other.usage
    }
}

// ---------------------------------------------------------------------------
// Constructors and messages
// ---------------------------------------------------------------------------

impl ChatMessage {
    /// Build a plain text message with the given role (no images, no tool
    /// linkage).
    pub fn text<S: Into<String>>(role: MessageRole, content: S) -> (r: ChatMessage)
        ensures
            r.role == role,
            call_ensures(<S as Into<String>>::into, (content,), r.content),
            r.images@.len() == 0,
            r.tool_calls@.len() == 0,
            r.tool_call_id is None,
    {
        ChatMessage {
            role,
            content: content.into(),
            images: Vec::new(),
            tool_calls: Vec::new(),
            tool_call_id: None,
        }
    }

    /// Build a [`MessageRole::System`] text message.
    pub fn system<S: Into<String>>(content: S) -> (r: ChatMessage)
        ensures
            r.role is System,
            call_ensures(<S as Into<String>>::into, (content,), r.content),
            r.images@.len() == 0,
            r.tool_calls@.len() == 0,
            r.tool_call_id is None,
    {
        ChatMessage::text(MessageRole::System, content)
    }

    /// Build a [`MessageRole::User`] text message.
    pub fn user<S: Into<String>>(content: S) -> (r: ChatMessage)
        ensures
            r.role is User,
            call_ensures(<S as Into<String>>::into, (content,), r.content),
            r.images@.len() == 0,
            r.tool_calls@.len() == 0,
            r.tool_call_id is None,
    {
        ChatMessage::text(MessageRole::User, content)
    }

    /// Build a [`MessageRole::Assistant`] text message.
    pub fn assistant<S: Into<String>>(content: S) -> (r: ChatMessage)
        ensures
            r.role is Assistant,
            call_ensures(<S as Into<String>>::into, (content,), r.content),
            r.images@.len() == 0,
            r.tool_calls@.len() == 0,
            r.tool_call_id is None,
    {
        ChatMessage::text(MessageRole::Assistant, content)
    }

    /// Build an assistant turn that requested tool calls. Used when replaying
    /// a multi-round tool-calling conversation back to the provider.
    pub fn assistant_with_tool_calls<S: Into<String>>(
        content: S,
        tool_calls: Vec<ToolCall>,
    ) -> (r: ChatMessage)
        ensures
            r.role is Assistant,
            call_ensures(<S as Into<String>>::into, (content,), r.content),
            r.images@.len() == 0,
            r.tool_calls == tool_calls,
            r.tool_call_id is None,
    {
        ChatMessage {
            role: MessageRole::Assistant,
            content: content.into(),
            images: Vec::new(),
            tool_calls,
            tool_call_id: None,
        }
    }

    /// Build a [`MessageRole::Tool`] message carrying the result of the tool
    /// call identified by `tool_call_id`.
    pub fn tool_result<I: Into<String>, S: Into<String>>(tool_call_id: I, content: S) -> (r:
        ChatMessage)
        ensures
            r.role is Tool,
            call_ensures(<S as Into<String>>::into, (content,), r.content),
            r.images@.len() == 0,
            r.tool_calls@.len() == 0,
            r.tool_call_id is Some,
            call_ensures(<I as Into<String>>::into, (tool_call_id,), r.tool_call_id->0),
    {
        let id: String = tool_call_id.into();
        ChatMessage {
            role: MessageRole::Tool,
            content: content.into(),
            images: Vec::new(),
            tool_calls: Vec::new(),
            tool_call_id: Some(id),
        }
    }
}

impl Default for Usage {
    fn default() -> (r: Usage)
        ensures
            r.model@ == Seq::<char>::empty(),
            r.input_tokens == 0,
            r.output_tokens == 0,
    {
        Usage { model: String::new(), input_tokens: 0, output_tokens: 0 }
    }
}

impl LlmError {
    /// The error's text for logs and users.
    pub fn message(&self) -> (r: String)
        ensures
            r@ == self@.message(),
    {
        match self {
            LlmError::Transport(text) => concat2("provider HTTP error: ", text.as_str()),
            LlmError::Status { status, body } => {
                let number = decimal_text(*status);
                let mut text = concat2("provider returned status ", number.as_str());
                text.append(": ");
                text.append(body.as_str());
                text
            },
            LlmError::Parse(text) => {
                concat2("provider response could not be parsed: ", text.as_str())
            },
            LlmError::UnsupportedCapability(name) => {
                let mut text = concat2("capability '", name);
                text.append("' not supported by this provider");
                text
            },
            LlmError::Config(text) => concat2("invalid provider configuration: ", text.as_str()),
            LlmError::Other(text) => text.clone(),
        }
    }
}

// ---------------------------------------------------------------------------
// Clones
// ---------------------------------------------------------------------------

impl Clone for ChatImage {
    fn clone(&self) -> (r: ChatImage)
        ensures
            r == *self,
    {
        ChatImage { data_base64: self.data_base64.clone(), media_type: self.media_type.clone() }
    }
}

impl Clone for ToolCall {
    fn clone(&self) -> (r: ToolCall)
        ensures
            r == *self,
    {
        ToolCall {
            id: self.id.clone(),
            name: self.name.clone(),
            arguments: self.arguments.clone(),
        }
    }
}

impl Clone for ToolDef {
    fn clone(&self) -> (r: ToolDef)
        ensures
            r == *self,
    {
        ToolDef {
            name: self.name.clone(),
            description: self.description.clone(),
            schema: self.schema.clone(),
        }
    }
}

impl Clone for Usage {
    fn clone(&self) -> (r: Usage)
        ensures
            r == *self,
    {
        Usage {
            model: self.model.clone(),
            input_tokens: self.input_tokens,
            output_tokens: self.output_tokens,
        }
    }
}

impl Clone for FinishReason {
    fn clone(&self) -> (r: FinishReason)
        ensures
            r == *self,
    {
        match self {
            FinishReason::Stop => FinishReason::Stop,
            FinishReason::ToolCalls => FinishReason::ToolCalls,
            FinishReason::Length => FinishReason::Length,
            FinishReason::ContentFilter => FinishReason::ContentFilter,
            FinishReason::Other(text) => FinishReason::Other(text.clone()),
        }
    }
}

impl Clone for StreamEvent {
    fn clone(&self) -> (r: StreamEvent)
        ensures
            r == *self,
    {
        match self {
            StreamEvent::TextChunk(text) => StreamEvent::TextChunk(text.clone()),
            StreamEvent::ToolCallStart { id, name } => StreamEvent::ToolCallStart {
                id: id.clone(),
                name: name.clone(),
            },
            StreamEvent::ToolCallArgs { id, args_delta } => StreamEvent::ToolCallArgs {
                id: id.clone(),
                args_delta: args_delta.clone(),
            },
            StreamEvent::ToolCallEnd { id, args } => StreamEvent::ToolCallEnd {
                id: id.clone(),
                args: args.clone(),
            },
            StreamEvent::Usage(usage) => StreamEvent::Usage(usage.clone()),
            StreamEvent::Done { finish_reason } => StreamEvent::Done {
                finish_reason: finish_reason.clone(),
            },
        }
    }
}

/// A copy of an optional text.
pub(crate) fn copy_text(text: &Option<String>) -> (r: Option<String>)
    ensures
        r == *text,
{
    match text {
        Some(t) => Some(t.clone()),
        None => None,
    }
}

fn copy_images(images: &Vec<ChatImage>) -> (r: Vec<ChatImage>)
    ensures
        r@ == images@,
{
    let r = images.clone();
    assert(forall|i: int| 0 <= i < r@.len() ==> cloned::<ChatImage>(images@[i], #[trigger] r@[i]));
    assert(r@ =~= images@);
    r
}

fn copy_calls(calls: &Vec<ToolCall>) -> (r: Vec<ToolCall>)
    ensures
        r@ == calls@,
{
    let r = calls.clone();
    assert(forall|i: int| 0 <= i < r@.len() ==> cloned::<ToolCall>(calls@[i], #[trigger] r@[i]));
    assert(r@ =~= calls@);
    r
}

fn copy_tools(tools: &Vec<ToolDef>) -> (r: Vec<ToolDef>)
    ensures
        r@ == tools@,
{
    let r = tools.clone();
    assert(forall|i: int| 0 <= i < r@.len() ==> cloned::<ToolDef>(tools@[i], #[trigger] r@[i]));
    assert(r@ =~= tools@);
    r
}

impl Clone for ChatMessage {
    fn clone(&self) -> (r: ChatMessage)
        ensures
            r.same_as(*self),
    {
        ChatMessage {
            role: self.role,
            content: self.content.clone(),
            images: copy_images(&self.images),
            tool_calls: copy_calls(&self.tool_calls),
            tool_call_id: copy_text(&self.tool_call_id),
        }
    }
}

impl Clone for ChatRequest {
    fn clone(&self) -> (r: ChatRequest)
        ensures
            r.same_as(*self),
    {
        let messages = self.messages.clone();
        assert(forall|i: int|
            0 <= i < messages@.len() ==> cloned::<ChatMessage>(
                self.messages@[i],
                #[trigger] messages@[i],
            ));
        ChatRequest {
            messages,
            tools: copy_tools(&self.tools),
            tool_choice: copy_text(&self.tool_choice),
            max_tokens: self.max_tokens,
            temperature: self.temperature,
        }
    }
}

impl Clone for ChatResponse {
    fn clone(&self) -> (r: ChatResponse)
        ensures
            r.same_as(*self),
    {
        ChatResponse {
            content: self.content.clone(),
            tool_calls: copy_calls(&self.tool_calls),
            finish_reason: self.finish_reason.clone(),
            usage: match &self.usage {
                Some(usage) => Some(usage.clone()),
                None => None,
            },
        }
    }
}

} // verus!
