//! Provider-agnostic multi-LLM abstraction for the Greentic platform.
//!
//! Answers exactly one question: "send this chat to provider X, get a
//! response or a stream back." Knows nothing about tenants, roles, admin
//! backends, or tool dispatch.
//!
//! - [`capabilities`]: the providers and their feature surfaces.
//! - [`credentials`]: credentials and the environment-backed source.
//! - [`provider`]: requests, responses, stream events and errors.
//! - [`completion`]: the provider-neutral completion request.
//! - [`request`]: from a chat request to a completion request.
//! - [`response`]: from a provider's reply to a chat response.
//! - [`stream`]: from a provider's stream to stream events.
//! - [`rig_backend`]: one provider, one model, one client.
//! - [`mock`]: a scriptable test double.
//! - [`text`]: text helpers and models.
//! - [`laws`]: what callers can rely on, said of arguments and results.

pub mod capabilities;
pub mod completion;
pub mod credentials;
pub mod laws;
pub mod mock;
pub mod provider;
pub mod request;
pub mod response;
pub mod rig_backend;
pub mod stream;
pub mod text;

pub use capabilities::{Capabilities, ProviderKind};
pub use credentials::{CredError, Credential, EnvCredentialSource, EnvVars, Timestamp};
pub use provider::{
    ChatImage, ChatMessage, ChatRequest, ChatResponse, FinishReason, LlmError, MessageRole,
    StreamEvent, Temperature, ToolCall, ToolDef, Usage,
};
pub use rig_backend::{ClientPlan, Features, PendingChat, RigBackend};
