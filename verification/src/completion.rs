//! The provider-neutral completion request and the parts it is made of.
//!
//! These types hold, as plain values, what rig's own message types hold for
//! the content this crate sends and reads. The lists that must not be empty
//! are rig's [`OneOrMany`].

use crate::provider::{Temperature, ToolDef};
use rig_core::message::MimeType;
use rig_core::{EmptyListError, OneOrMany};
use vstd::prelude::*;

verus! {

// ---------------------------------------------------------------------------
// Types
// ---------------------------------------------------------------------------

/// The image formats a provider can be told about.
#[derive(Clone, Copy, Debug, PartialEq, Eq, Structural)]
pub enum ImageMediaType {
    JPEG,
    PNG,
    GIF,
    WEBP,
    HEIC,
    HEIF,
    SVG,
}

/// One part of a user turn.
#[derive(Debug)]
pub enum UserContent {
    Text(String),
    /// A base64-encoded image. `media_type` is `None` when the attachment's
    /// media type is not one the providers know.
    Image { data_base64: String, media_type: Option<ImageMediaType> },
    /// The result of the tool call `id`.
    ToolResult { id: String, content: String },
}

/// One part of an assistant turn.
#[derive(Debug)]
pub enum AssistantContent {
    Text(String),
    /// A tool call. Some APIs hand out a `call_id` for correlation beside the
    /// item's own `id`.
    ToolCall {
        id: String,
        call_id: Option<String>,
        name: String,
        arguments: serde_json::Value,
    },
    /// Reasoning emitted by the assistant.
    Reasoning,
    /// An image emitted by the assistant.
    Image,
}

/// One turn of the chat history.
#[derive(Debug)]
#[allow(inconsistent_fields)]
pub enum Message {
    User { content: OneOrMany<UserContent> },
    Assistant { content: OneOrMany<AssistantContent> },
}

/// Which tools the model may or must call.
#[derive(Debug)]
pub enum ToolChoice {
    Auto,
    /// No tool may be called.
    Never,
    Required,
    Specific { function_names: Vec<String> },
}

/// A completion request, ready for a provider client.
#[derive(Debug)]
pub struct CompletionRequest {
    pub preamble: Option<String>,
    pub chat_history: OneOrMany<Message>,
    pub tools: Vec<ToolDef>,
    pub temperature: Option<Temperature>,
    pub max_tokens: Option<u64>,
    pub tool_choice: Option<ToolChoice>,
}

// ---------------------------------------------------------------------------
// Models
// ---------------------------------------------------------------------------

/// Model of [`Message`]: whose turn it is, and its parts in order.
#[verifier::ext_equal]
pub enum Turn {
    User(Seq<UserContent>),
    Assistant(Seq<AssistantContent>),
}

impl View for Message {
    type V = Turn;

    open spec fn view(&self) -> Turn {
        match *self {
            Message::User { content } => Turn::User(user_parts_in(content)),
            Message::Assistant { content } => Turn::Assistant(assistant_parts_in(content)),
        }
    }
}

/// Model of [`ToolChoice`].
#[verifier::ext_equal]
pub enum ToolChoiceView {
    Auto,
    Never,
    Required,
    Specific(Seq<Seq<char>>),
}

impl View for ToolChoice {
    type V = ToolChoiceView;

    open spec fn view(&self) -> ToolChoiceView {
        match *self {
            ToolChoice::Auto => ToolChoiceView::Auto,
            ToolChoice::Never => ToolChoiceView::Never,
            ToolChoice::Required => ToolChoiceView::Required,
            ToolChoice::Specific { function_names } => ToolChoiceView::Specific(
                function_names@.map_values(|name: String| name@),
            ),
        }
    }
}

impl CompletionRequest {
    /// The turns of the chat history, in order.
    pub open spec fn history(self) -> Seq<Turn> {
        messages_in(self.chat_history).map_values(|m: Message| m@)
    }
}

/// The image format that an IANA media type stands for, if it is a known one.
pub open spec fn image_media_type_of(mime: Seq<char>) -> Option<ImageMediaType> {
    if mime == "image/jpeg"@ {
        Some(ImageMediaType::JPEG)
    } else if mime == "image/png"@ {
        Some(ImageMediaType::PNG)
    } else if mime == "image/gif"@ {
        Some(ImageMediaType::GIF)
    } else if mime == "image/webp"@ {
        Some(ImageMediaType::WEBP)
    } else if mime == "image/heic"@ {
        Some(ImageMediaType::HEIC)
    } else if mime == "image/heif"@ {
        Some(ImageMediaType::HEIF)
    } else if mime == "image/svg+xml"@ {
        Some(ImageMediaType::SVG)
    } else {
        None
    }
}

// ---------------------------------------------------------------------------
// Facts about rig
// ---------------------------------------------------------------------------

/// `rig_core::OneOrMany`: a list that holds at least one item.
#[verifier::external_type_specification]
#[verifier::external_body]
#[verifier::reject_recursive_types(T)]
pub struct ExOneOrMany<T>(OneOrMany<T>);

/// `rig_core::one_or_many::EmptyListError`: a list was empty where it must not
/// be.
#[verifier::external_type_specification]
#[verifier::external_body]
pub struct ExEmptyListError(EmptyListError);

/// The turns that a list holds, in order.
pub uninterp spec fn messages_in(list: OneOrMany<Message>) -> Seq<Message>;

/// The user parts that a list holds, in order.
pub uninterp spec fn user_parts_in(list: OneOrMany<UserContent>) -> Seq<UserContent>;

/// The assistant parts that a list holds, in order.
pub uninterp spec fn assistant_parts_in(list: OneOrMany<AssistantContent>) -> Seq<AssistantContent>;

/// `OneOrMany::many` on turns: fails exactly on an empty list, and otherwise
/// holds the given items in the given order.
#[verifier::external_body]
pub(crate) fn many_messages(items: Vec<Message>) -> (r: Result<OneOrMany<Message>, EmptyListError>)
    ensures
        r is Ok <==> items@.len() > 0,
        r matches Ok(list) ==> messages_in(list) == items@,
{
    OneOrMany::many(items)
}

/// `OneOrMany::many` on user parts: fails exactly on an empty list, and
/// otherwise holds the given items in the given order.
#[verifier::external_body]
pub(crate) fn many_user_parts(items: Vec<UserContent>) -> (r: Result<
    OneOrMany<UserContent>,
    EmptyListError,
>)
    ensures
        r is Ok <==> items@.len() > 0,
        r matches Ok(list) ==> user_parts_in(list) == items@,
{
    OneOrMany::many(items)
}

/// `OneOrMany::many` on assistant parts: fails exactly on an empty list, and
/// otherwise holds the given items in the given order.
#[verifier::external_body]
pub(crate) fn many_assistant_parts(items: Vec<AssistantContent>) -> (r: Result<
    OneOrMany<AssistantContent>,
    EmptyListError,
>)
    ensures
        r is Ok <==> items@.len() > 0,
        r matches Ok(list) ==> assistant_parts_in(list) == items@,
{
    OneOrMany::many(items)
}

/// `OneOrMany::one` on a user part: the list holds that one item.
#[verifier::external_body]
pub(crate) fn one_user_part(item: UserContent) -> (r: OneOrMany<UserContent>)
    ensures
        user_parts_in(r) == seq![item],
{
    OneOrMany::one(item)
}

/// `OneOrMany::into_iter` on assistant parts: hands out every item in order,
/// and there is at least one.
#[verifier::external_body]
pub(crate) fn take_assistant_parts(list: OneOrMany<AssistantContent>) -> (r: Vec<AssistantContent>)
    ensures
        r@ == assistant_parts_in(list),
        r@.len() > 0,
{
    list.into_iter().collect()
}

/// `OneOrMany::clone` on user parts, derived: clones each item in its place,
/// and a cloned part equals the original.
#[verifier::external_body]
fn copy_user_parts(list: &OneOrMany<UserContent>) -> (r: OneOrMany<UserContent>)
    ensures
        user_parts_in(r) == user_parts_in(*list),
{
    list.clone()
}

/// `OneOrMany::clone` on assistant parts, derived: clones each item in its
/// place, and a cloned part equals the original.
#[verifier::external_body]
fn copy_assistant_parts(list: &OneOrMany<AssistantContent>) -> (r: OneOrMany<AssistantContent>)
    ensures
        assistant_parts_in(r) == assistant_parts_in(*list),
{
    list.clone()
}

/// `rig_core::message::ImageMediaType::from_mime_type`: knows seven media
/// types, spelled exactly, and answers `None` to every other text.
#[verifier::external_body]
pub(crate) fn image_media_type(mime: &str) -> (r: Option<ImageMediaType>)
    ensures
        r == image_media_type_of(mime@),
{
    rig_core::message::ImageMediaType::from_mime_type(mime).map(|known| match known {
        rig_core::message::ImageMediaType::JPEG => ImageMediaType::JPEG,
        rig_core::message::ImageMediaType::PNG => ImageMediaType::PNG,
        rig_core::message::ImageMediaType::GIF => ImageMediaType::GIF,
        rig_core::message::ImageMediaType::WEBP => ImageMediaType::WEBP,
        rig_core::message::ImageMediaType::HEIC => ImageMediaType::HEIC,
        rig_core::message::ImageMediaType::HEIF => ImageMediaType::HEIF,
        rig_core::message::ImageMediaType::SVG => ImageMediaType::SVG,
    })
}

// ---------------------------------------------------------------------------
// Clones
// ---------------------------------------------------------------------------

impl Clone for UserContent {
    fn clone(&self) -> (r: UserContent)
        ensures
            r == *self,
    {
        match self {
            UserContent::Text(text) => UserContent::Text(text.clone()),
            UserContent::Image { data_base64, media_type } => UserContent::Image {
                data_base64: data_base64.clone(),
                media_type: *media_type,
            },
            UserContent::ToolResult { id, content } => UserContent::ToolResult {
                id: id.clone(),
                content: content.clone(),
            },
        }
    }
}

impl Clone for AssistantContent {
    fn clone(&self) -> (r: AssistantContent)
        ensures
            r == *self,
    {
        match self {
            AssistantContent::Text(text) => AssistantContent::Text(text.clone()),
            AssistantContent::ToolCall { id, call_id, name, arguments } => {
                AssistantContent::ToolCall {
                    id: id.clone(),
                    call_id: crate::provider::copy_text(call_id),
                    name: name.clone(),
                    arguments: arguments.clone(),
                }
            },
            AssistantContent::Reasoning => AssistantContent::Reasoning,
            AssistantContent::Image => AssistantContent::Image,
        }
    }
}

impl Clone for Message {
    fn clone(&self) -> (r: Message)
        ensures
            r@ == self@,
    {
        match self {
            Message::User { content } => Message::User { content: copy_user_parts(content) },
            Message::Assistant { content } => Message::Assistant {
                content: copy_assistant_parts(content),
            },
        }
    }
}

} // verus!
