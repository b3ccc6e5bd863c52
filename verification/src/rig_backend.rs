//! [`RigBackend`]: one provider, one model, one provider client.
//!
//! Scope: one-shot chat and streamed chat, including tool calling and vision
//! wherever the provider's [`Capabilities`] allow them (requests that exceed
//! the capability matrix are rejected with
//! `LlmError::UnsupportedCapability("tools")` / `("vision")`). One request is
//! one completion: the **caller** drives the tool loop. It dispatches the
//! returned `ChatResponse::tool_calls`, appends the assistant turn via
//! `ChatMessage::assistant_with_tool_calls` plus one `ChatMessage::tool_result`
//! per call, and sends the conversation again.
//!
//! Tools are dynamic: they come with each request and may differ between
//! requests, so a request is converted as a whole each time.
//!
//! The provider client itself (HTTP connection and auth headers) is the type
//! parameter of the backend. What it is made from is a [`ClientPlan`]:
//!
//! - Azure requires `cred.base_url` (the resource endpoint) and accepts an
//!   optional `cred.api_version`; the key is sent as the `api-key` header.
//! - Azure AI Foundry (serverless "Models as a Service") rides Foundry's
//!   OpenAI-compatible v1 surface: `cred.base_url` is the Foundry resource
//!   endpoint (`https://{resource}.services.ai.azure.com`), normalised to
//!   `{endpoint}/openai/v1`, with the API key sent as a bearer token.
//!   `cred.api_version` is ignored (the v1 surface is unversioned).
//! - Bedrock authenticates through the AWS credential chain: `cred.api_key` is
//!   ignored, `cred.aws_profile` selects a named profile, and `cred.base_url`
//!   is rejected because the AWS SDK derives the endpoint from the region.
//! - Ollama and Llamafile are keyless local daemons; `base_url` defaults to
//!   the daemon's own.

use crate::capabilities::{Capabilities, ProviderKind};
use crate::completion::{AssistantContent, CompletionRequest};
use crate::credentials::Credential;
use crate::provider::{ChatMessage, ChatRequest, ChatResponse, LlmError, LlmErrorView};
use crate::request::build_completion_request;
use crate::response::{
    map_choice, map_completion_error, Completion, CompletionFailure, ReportedUsage,
};
use crate::stream::StreamAdapter;
use crate::text::{concat2, has_suffix, trim_trailing};
use vstd::prelude::*;
use vstd::string::*;

verus! {

/// The optional backends of a build.
#[derive(Clone, Copy, Debug, PartialEq, Eq, Structural)]
pub struct Features {
    /// The AWS Bedrock backend, off by default because it pulls in the AWS
    /// SDK.
    pub bedrock: bool,
}

impl Default for Features {
    fn default() -> (r: Features)
        ensures
            !r.bedrock,
    {
        Features { bedrock: false }
    }
}

/// What a provider client is made from.
pub enum ClientPlan<'a> {
    /// The provider's bearer-style client, at the provider's own endpoint
    /// unless another is given.
    Keyed { provider: ProviderKind, api_key: &'a str, base_url: Option<&'a str> },
    /// A client of the provider's local daemon, at the daemon's own address
    /// unless another is given.
    Keyless { provider: ProviderKind, base_url: Option<&'a str> },
    /// An Azure OpenAI client; the key goes out as the `api-key` header.
    Azure { api_key: &'a str, endpoint: &'a str, api_version: Option<&'a str> },
    /// An OpenAI client at Foundry's v1 surface.
    Foundry { api_key: &'a str, v1_base: String },
    /// A Bedrock client of a named AWS profile.
    BedrockProfile { profile: &'a str },
    /// A Bedrock client of the ambient AWS credential chain.
    BedrockEnvironment,
}

/// Backend of one provider and model, over a provider client `C`.
pub struct RigBackend<C> {
    kind: ProviderKind,
    model: String,
    client: C,
}

/// A chat whose completion request was handed out and whose reply is still to
/// come. It keeps the token budget that the request carried.
pub struct PendingChat {
    max_tokens: Option<u64>,
}

// ---------------------------------------------------------------------------
// Models
// ---------------------------------------------------------------------------

/// Model of [`ClientPlan`].
#[verifier::ext_equal]
pub enum ClientPlanView {
    Keyed { provider: ProviderKind, api_key: Seq<char>, base_url: Option<Seq<char>> },
    Keyless { provider: ProviderKind, base_url: Option<Seq<char>> },
    Azure { api_key: Seq<char>, endpoint: Seq<char>, api_version: Option<Seq<char>> },
    Foundry { api_key: Seq<char>, v1_base: Seq<char> },
    BedrockProfile { profile: Seq<char> },
    BedrockEnvironment,
}

/// An optional slice by its characters.
pub open spec fn opt_str(text: Option<&str>) -> Option<Seq<char>> {
    match text {
        Some(t) => Some(t@),
        None => None,
    }
}

impl<'a> View for ClientPlan<'a> {
    type V = ClientPlanView;

    open spec fn view(&self) -> ClientPlanView {
        match *self {
            ClientPlan::Keyed { provider, api_key, base_url } => ClientPlanView::Keyed {
                provider,
                api_key: api_key@,
                base_url: opt_str(base_url),
            },
            ClientPlan::Keyless { provider, base_url } => ClientPlanView::Keyless {
                provider,
                base_url: opt_str(base_url),
            },
            ClientPlan::Azure { api_key, endpoint, api_version } => ClientPlanView::Azure {
                api_key: api_key@,
                endpoint: endpoint@,
                api_version: opt_str(api_version),
            },
            ClientPlan::Foundry { api_key, v1_base } => ClientPlanView::Foundry {
                api_key: api_key@,
                v1_base: v1_base@,
            },
            ClientPlan::BedrockProfile { profile } => ClientPlanView::BedrockProfile {
                profile: profile@,
            },
            ClientPlan::BedrockEnvironment => ClientPlanView::BedrockEnvironment,
        }
    }
}

impl ClientPlanView {
    /// The provider whose client the plan is for.
    pub open spec fn client_of(self) -> ProviderKind {
        match self {
            ClientPlanView::Keyed { provider, .. } => provider,
            ClientPlanView::Keyless { provider, .. } => provider,
            ClientPlanView::Azure { .. } => ProviderKind::Azure,
            ClientPlanView::Foundry { .. } => ProviderKind::AzureFoundry,
            ClientPlanView::BedrockProfile { .. } => ProviderKind::Bedrock,
            ClientPlanView::BedrockEnvironment => ProviderKind::Bedrock,
        }
    }
}

/// The OpenAI-compatible v1 base of a Foundry endpoint: the endpoint without
/// trailing slashes, and with the v1 path unless it is there already.
pub open spec fn foundry_base(endpoint: Seq<char>) -> Seq<char> {
    let trimmed = crate::text::trim_end(endpoint, '/');
    if crate::text::ends_with(trimmed, "/openai/v1"@) {
        trimmed
    } else {
        trimmed + "/openai/v1"@
    }
}

/// What a client for `kind` is made from, or why there is none.
pub open spec fn planned(features: Features, kind: ProviderKind, cred: Credential) -> Result<
    ClientPlanView,
    LlmErrorView,
> {
    let base_url = crate::text::opt_text(cred.base_url);
    match kind {
        ProviderKind::Ollama | ProviderKind::Llamafile => Ok(
            ClientPlanView::Keyless { provider: kind, base_url },
        ),
        ProviderKind::Azure => match base_url {
            Some(endpoint) => Ok(
                ClientPlanView::Azure {
                    api_key: cred.api_key@,
                    endpoint,
                    api_version: crate::text::opt_text(cred.api_version),
                },
            ),
            None => Err(
                LlmErrorView::Config(
                    "azure requires base_url, e.g. https://{resource}.openai.azure.com"@,
                ),
            ),
        },
        ProviderKind::AzureFoundry => match base_url {
            Some(endpoint) => Ok(
                ClientPlanView::Foundry {
                    api_key: cred.api_key@,
                    v1_base: foundry_base(endpoint),
                },
            ),
            None => Err(
                LlmErrorView::Config(
                    "azure-foundry requires base_url, e.g. https://{resource}.services.ai.azure.com"@,
                ),
            ),
        },
        ProviderKind::Bedrock => if !features.bedrock {
            Err(
                LlmErrorView::Config(
                    "greentic-llm was built without the `bedrock` cargo feature"@,
                ),
            )
        } else if base_url is Some {
            Err(
                LlmErrorView::Config(
                    "bedrock does not support base_url; set the region via AWS env vars or aws_profile"@,
                ),
            )
        } else {
            match crate::text::opt_text(cred.aws_profile) {
                Some(profile) => Ok(ClientPlanView::BedrockProfile { profile }),
                None => Ok(ClientPlanView::BedrockEnvironment),
            }
        },
        _ => Ok(ClientPlanView::Keyed { provider: kind, api_key: cred.api_key@, base_url }),
    }
}

/// The error for a client that could not be made. Bedrock's is a matter of
/// configuration, since its client is made from the AWS environment.
pub open spec fn connection_error(kind: ProviderKind, reason: Seq<char>) -> LlmErrorView {
    let text = kind.id() + " client: "@ + reason;
    if kind is Bedrock {
        LlmErrorView::Config(text)
    } else {
        LlmErrorView::Transport(text)
    }
}

/// Whether some message carries an image.
pub open spec fn has_images(messages: Seq<ChatMessage>) -> bool {
    exists|i: int| 0 <= i < messages.len() && (#[trigger] messages[i]).images@.len() > 0
}

/// Why a request exceeds a feature surface, if it does. Tools come first.
pub open spec fn gate_refusal(caps: Capabilities, req: ChatRequest) -> Option<LlmErrorView> {
    if req.tools@.len() > 0 && !caps.tools {
        Some(LlmErrorView::UnsupportedCapability("tools"@))
    } else if has_images(req.messages@) && !caps.vision {
        Some(LlmErrorView::UnsupportedCapability("vision"@))
    } else {
        None
    }
}

/// Why a request is refused by a provider's backend before anything is sent,
/// if it is: the capability gate comes first, then the conversion.
pub open spec fn chat_refusal(kind: ProviderKind, req: ChatRequest) -> Option<LlmErrorView> {
    if gate_refusal(kind.surface(), req) is Some {
        gate_refusal(kind.surface(), req)
    } else {
        crate::request::conversion_refusal(req, kind)
    }
}

impl PendingChat {
    /// The token budget of the request that was handed out.
    pub closed spec fn cap(self) -> Option<u64> {
        self.max_tokens
    }
}

impl<C> RigBackend<C> {
    /// The provider.
    pub closed spec fn provider(self) -> ProviderKind {
        self.kind
    }

    /// The model id.
    pub closed spec fn model_id(self) -> Seq<char> {
        self.model@
    }

    /// The provider client.
    pub closed spec fn handle(self) -> C {
        self.client
    }

    /// Whether `r` is what construction comes to, once the attempt to make the
    /// client has come to `built`.
    pub open spec fn constructed(
        r: Result<RigBackend<C>, LlmError>,
        kind: ProviderKind,
        model: Seq<char>,
        built: Result<C, String>,
    ) -> bool {
        match built {
            Ok(client) => {
                &&& r is Ok
                &&& r->Ok_0.provider() == kind
                &&& r->Ok_0.model_id() == model
                &&& r->Ok_0.handle() == client
            },
            Err(reason) => r is Err && r->Err_0@ == connection_error(kind, reason@),
        }
    }
}

// ---------------------------------------------------------------------------
// Construction
// ---------------------------------------------------------------------------

/// Normalise a Foundry resource endpoint to its OpenAI-compatible v1 base.
///
/// Users may supply the bare resource endpoint
/// (`https://{resource}.services.ai.azure.com`) or the full v1 path; both
/// resolve to `{endpoint}/openai/v1` so the OpenAI client posts to the right
/// route.
pub fn foundry_openai_base(endpoint: &str) -> (r: String)
    ensures
        r@ == foundry_base(endpoint@),
{
    let trimmed = trim_trailing(endpoint, '/');
    if has_suffix(trimmed, "/openai/v1") {
        trimmed.to_string()
    } else {
        concat2(trimmed, "/openai/v1")
    }
}

/// An optional text as a slice.
fn as_slice_option(text: &Option<String>) -> (r: Option<&str>)
    ensures
        opt_str(r) == crate::text::opt_text(*text),
{
    match text {
        Some(t) => Some(t.as_str()),
        None => None,
    }
}

/// Settle what the client of a provider is made from.
///
/// `cred.base_url` overrides the provider's default endpoint. For Ollama and
/// Llamafile the credential's `api_key` is ignored and `base_url` defaults to
/// the local daemon. See the module docs for Azure and Bedrock specifics.
pub fn plan_client<'a>(features: Features, kind: ProviderKind, cred: &'a Credential) -> (r: Result<
    ClientPlan<'a>,
    LlmError,
>)
    ensures
        match r {
            Ok(plan) => planned(features, kind, *cred) == Ok::<ClientPlanView, LlmErrorView>(plan@),
            Err(e) => planned(features, kind, *cred) == Err::<ClientPlanView, LlmErrorView>(e@),
        },
{
    match kind {
        ProviderKind::Ollama | ProviderKind::Llamafile => Ok(
            ClientPlan::Keyless { provider: kind, base_url: as_slice_option(&cred.base_url) },
        ),
        ProviderKind::Azure => {
            // Azure's endpoint is per-resource, so there is no usable default:
            // require it up front instead of failing on the first request.
            match &cred.base_url {
                Some(endpoint) => Ok(
                    ClientPlan::Azure {
                        api_key: cred.api_key.as_str(),
                        endpoint: endpoint.as_str(),
                        api_version: as_slice_option(&cred.api_version),
                    },
                ),
                None => Err(
                    LlmError::Config(
                        String::from(
                            "azure requires base_url, e.g. https://{resource}.openai.azure.com",
                        ),
                    ),
                ),
            }
        },
        ProviderKind::AzureFoundry => {
            // Foundry's OpenAI-compatible v1 surface accepts the resource API
            // key as a bearer token and takes the model id in the request
            // body; only the base URL is Foundry-specific.
            match &cred.base_url {
                Some(endpoint) => Ok(
                    ClientPlan::Foundry {
                        api_key: cred.api_key.as_str(),
                        v1_base: foundry_openai_base(endpoint.as_str()),
                    },
                ),
                None => Err(
                    LlmError::Config(
                        String::from(
                            "azure-foundry requires base_url, e.g. https://{resource}.services.ai.azure.com",
                        ),
                    ),
                ),
            }
        },
        ProviderKind::Bedrock => {
            if !features.bedrock {
                return Err(
                    LlmError::Config(
                        String::from("greentic-llm was built without the `bedrock` cargo feature"),
                    ),
                );
            }
            // The AWS SDK derives the endpoint from the region, so a base_url
            // override would be silently ignored: reject it.
            if cred.base_url.is_some() {
                return Err(
                    LlmError::Config(
                        String::from(
                            "bedrock does not support base_url; set the region via AWS env vars or aws_profile",
                        ),
                    ),
                );
            }
            match &cred.aws_profile {
                Some(profile) => Ok(ClientPlan::BedrockProfile { profile: profile.as_str() }),
                None => Ok(ClientPlan::BedrockEnvironment),
            }
        },
        _ => Ok(
            ClientPlan::Keyed {
                provider: kind,
                api_key: cred.api_key.as_str(),
                base_url: as_slice_option(&cred.base_url),
            },
        ),
    }
}

impl<C> RigBackend<C> {
    /// The backend, once the attempt to make its client has come to `built`.
    pub fn from_connection(kind: ProviderKind, model: &str, built: Result<C, String>) -> (r: Result<
        RigBackend<C>,
        LlmError,
    >)
        ensures
            RigBackend::constructed(r, kind, model@, built),
    {
        match built {
            Ok(client) => Ok(RigBackend { kind, model: model.to_string(), client }),
            Err(reason) => {
                let mut text = concat2(kind.as_str(), " client: ");
                text.append(reason.as_str());
                if kind == ProviderKind::Bedrock {
                    Err(LlmError::Config(text))
                } else {
                    Err(LlmError::Transport(text))
                }
            },
        }
    }

    /// Construct a backend for the given provider with the supplied model name
    /// and credentials. `connect` makes the provider client from its plan, and
    /// is called only where there is one.
    pub fn new<'a, F: FnOnce(ClientPlan<'a>) -> Result<C, String>>(
        features: Features,
        kind: ProviderKind,
        model: &str,
        cred: &'a Credential,
        connect: F,
    ) -> (r: Result<RigBackend<C>, LlmError>)
        requires
            forall|plan: ClientPlan<'a>|
                planned(features, kind, *cred) == Ok::<ClientPlanView, LlmErrorView>(plan@)
                    ==> call_requires(connect, (plan,)),
        ensures
            match planned(features, kind, *cred) {
                Err(e) => r is Err && r->Err_0@ == e,
                Ok(view) => exists|plan: ClientPlan<'a>, built: Result<C, String>|
                    {
                        &&& plan@ == view
                        &&& #[trigger] call_ensures(connect, (plan,), built)
                        &&& RigBackend::constructed(r, kind, model@, built)
                    },
            },
    {
        match plan_client(features, kind, cred) {
            Ok(plan) => {
                let built = connect(plan);
                RigBackend::from_connection(kind, model, built)
            },
            Err(e) => Err(e),
        }
    }

    /// The feature surface of the provider.
    pub fn capabilities(&self) -> (r: Capabilities)
        ensures
            r == self.provider().surface(),
    {
        Capabilities::from(self.kind)
    }

    /// Stable provider identifier for telemetry and error messages.
    pub fn provider_name(&self) -> (r: &'static str)
        ensures
            r@ == self.provider().id(),
    {
        self.kind.as_str()
    }

    /// Active model identifier.
    pub fn model(&self) -> (r: &str)
        ensures
            r@ == self.model_id(),
    {
        self.model.as_str()
    }

    /// The provider client.
    pub fn client(&self) -> (r: &C)
        ensures
            *r == self.handle(),
    {
        &self.client
    }
}

// ---------------------------------------------------------------------------
// Chat
// ---------------------------------------------------------------------------

/// Whether some message carries an image.
fn any_images(messages: &[ChatMessage]) -> (r: bool)
    ensures
        r == has_images(messages@),
{
    let mut i: usize = 0;
    while i < messages.len()
        invariant
            i <= messages@.len(),
            forall|j: int| 0 <= j < i ==> (#[trigger] messages@[j]).images@.len() == 0,
        decreases messages.len() - i,
    {
        if messages[i].images.len() > 0 {
            return true;
        }
        i = i + 1;
    }
    false
}

/// Reject a request that exceeds a feature surface.
pub fn check_capabilities(caps: Capabilities, req: &ChatRequest) -> (r: Result<(), LlmError>)
    ensures
        match r {
            Ok(_) => gate_refusal(caps, *req) is None,
            Err(e) => gate_refusal(caps, *req) == Some(e@),
        },
{
    if req.tools.len() > 0 && !caps.tools {
        return Err(LlmError::UnsupportedCapability("tools"));
    }
    if any_images(req.messages.as_slice()) && !caps.vision {
        return Err(LlmError::UnsupportedCapability("vision"));
    }
    Ok(())
}

impl<C> RigBackend<C> {
    /// The completion request to send for a chat, one-shot or streamed, and
    /// what is to be kept of it until the reply comes. Requests carrying tools
    /// or images are rejected up front with `UnsupportedCapability("tools")` /
    /// `("vision")` when the provider's capability matrix does not advertise
    /// the feature.
    pub fn chat_request(&self, req: ChatRequest) -> (r: Result<
        (CompletionRequest, PendingChat),
        LlmError,
    >)
        ensures
            match r {
                Ok((out, pending)) => {
                    &&& chat_refusal(self.provider(), req) is None
                    &&& crate::request::converts_to(req, self.provider(), out)
                    &&& pending.cap() == out.max_tokens
                },
                Err(e) => chat_refusal(self.provider(), req) == Some(e@),
            },
    {
        match check_capabilities(self.capabilities(), &req) {
            Ok(_) => match build_completion_request(req, self.kind) {
                Ok(out) => {
                    let pending = PendingChat { max_tokens: out.max_tokens };
                    Ok((out, pending))
                },
                Err(e) => Err(e),
            },
            Err(e) => Err(e),
        }
    }

    /// The outcome of a pending chat, once the provider has replied. The
    /// budget that its request carried is what truncation is inferred by.
    pub fn chat_response(
        &self,
        pending: PendingChat,
        reply: Result<Completion, CompletionFailure>,
    ) -> (r: Result<ChatResponse, LlmError>)
        ensures
            match reply {
                Ok(completion) => r is Ok && crate::response::answers(
                    r->Ok_0,
                    crate::completion::assistant_parts_in(completion.choice),
                    completion.usage,
                    pending.cap(),
                    self.model_id(),
                ),
                Err(failure) => r is Err && r->Err_0@ == crate::response::failure_error(failure),
            },
    {
        match reply {
            Ok(completion) => Ok(
                map_choice(
                    completion.choice,
                    completion.usage,
                    pending.max_tokens,
                    self.model.as_str(),
                ),
            ),
            Err(failure) => Err(map_completion_error(failure)),
        }
    }

    /// The provider's stream and the adapter for it, once the provider has
    /// opened the stream or failed to.
    pub fn chat_stream<S>(&self, opened: Result<S, CompletionFailure>) -> (r: Result<
        (StreamAdapter, S),
        LlmError,
    >)
        ensures
            match opened {
                Ok(stream) => {
                    &&& r is Ok
                    &&& r->Ok_0.0.wf()
                    &&& r->Ok_0.0.chunks() == Seq::<crate::stream::StreamChunk>::empty()
                    &&& r->Ok_0.0.model_id() == self.model_id()
                    &&& r->Ok_0.1 == stream
                },
                Err(failure) => r is Err && r->Err_0@ == crate::response::failure_error(failure),
            },
    {
        match opened {
            Ok(stream) => Ok((StreamAdapter::new(self.model.clone()), stream)),
            Err(failure) => Err(map_completion_error(failure)),
        }
    }
}

// ---------------------------------------------------------------------------
// Laws
// ---------------------------------------------------------------------------

/// Normalising a Foundry endpoint gives a v1 base without a trailing slash,
/// and normalising that base again changes nothing.
pub proof fn foundry_base_is_normal(endpoint: Seq<char>)
    ensures
        crate::text::ends_with(foundry_base(endpoint), "/openai/v1"@),
        crate::text::trim_end(foundry_base(endpoint), '/') == foundry_base(endpoint),
        foundry_base(foundry_base(endpoint)) == foundry_base(endpoint),
{
    reveal_strlit("/openai/v1");
    let path = "/openai/v1"@;
    let base = foundry_base(endpoint);
    let trimmed = crate::text::trim_end(endpoint, '/');
    if !crate::text::ends_with(trimmed, path) {
        assert(base.skip(base.len() - path.len()) =~= path);
    }
    assert(base.skip(base.len() - path.len())[path.len() - 1] == base.last());
    assert(base.last() == '1');
}

/// The bare endpoint, the endpoint with slashes behind it, and the full v1
/// path all resolve to the same base.
pub proof fn foundry_spellings_agree(endpoint: Seq<char>)
    ensures
        foundry_base(endpoint.push('/')) == foundry_base(endpoint),
        foundry_base(foundry_base(endpoint).push('/')) == foundry_base(endpoint),
{
    assert(endpoint.push('/').drop_last() =~= endpoint);
    let base = foundry_base(endpoint);
    assert(base.push('/').drop_last() =~= base);
    foundry_base_is_normal(endpoint);
}

/// A credential without an endpoint, with Bedrock built in, is enough for
/// every provider but the two Azure ones; and where there is a plan, it is
/// made from the key exactly for the providers that need one.
pub proof fn plans_follow_the_provider(features: Features, kind: ProviderKind, cred: Credential)
    ensures
        features.bedrock && cred.base_url is None ==> (planned(features, kind, cred) is Err <==> (
        kind is Azure || kind is AzureFoundry)),
        planned(features, kind, cred) is Err ==> planned(features, kind, cred)->Err_0 is Config,
        planned(features, kind, cred) is Ok ==> (kind.keyless() <==> ({
            let plan = planned(features, kind, cred)->Ok_0;
            plan is Keyless || plan is BedrockProfile || plan is BedrockEnvironment
        })),
{
}

/// A plan says by itself whose client is to be made: it is always that of the
/// provider asked for.
pub proof fn plans_name_their_provider(features: Features, kind: ProviderKind, cred: Credential)
    requires
        planned(features, kind, cred) is Ok,
    ensures
        planned(features, kind, cred)->Ok_0.client_of() == kind,
{
}

/// A plan depends only on what its provider reads: the endpoint; the key where
/// the provider needs one; the API version for Azure; the AWS profile for
/// Bedrock. The expiry time never matters.
pub proof fn plans_use_only_what_the_provider_reads(
    features: Features,
    kind: ProviderKind,
    a: Credential,
    b: Credential,
)
    requires
        a.base_url == b.base_url,
        kind.keyless() || a.api_key == b.api_key,
        kind is Azure ==> a.api_version == b.api_version,
        kind is Bedrock ==> a.aws_profile == b.aws_profile,
    ensures
        planned(features, kind, a) == planned(features, kind, b),
{
}

/// What goes out never exceeds the provider's feature surface: tools are sent
/// only to providers that advertise them, images only to those with vision.
pub proof fn sent_requests_fit_the_surface(kind: ProviderKind, req: ChatRequest)
    requires
        chat_refusal(kind, req) is None,
    ensures
        crate::request::sent_tools(
            kind,
            req.tools@,
            crate::text::opt_text(req.tool_choice),
        ).len() > 0 ==> kind.offers_tools(),
        has_images(req.messages@) ==> kind.offers_vision(),
{
}

/// Truncation is judged by the budget that went out: a reply without tool
/// calls to a pending chat ends in `Length` exactly when its reported output
/// reached what the caller asked for or, where the caller asked for nothing,
/// the provider's default.
pub proof fn truncation_follows_the_sent_budget(
    kind: ProviderKind,
    req: ChatRequest,
    out: CompletionRequest,
    pending: PendingChat,
    parts: Seq<AssistantContent>,
    usage: ReportedUsage,
)
    requires
        crate::request::converts_to(req, kind, out),
        pending.cap() == out.max_tokens,
        crate::response::reply_calls(parts).len() == 0,
    ensures
        ({
            let sent = crate::request::sent_max_tokens(kind, req.max_tokens);
            crate::response::reply_finish(parts, usage, pending.cap()) is Length <==> (
            crate::response::usage_reported(usage) && sent is Some && usage.output_tokens >= sent->0)
        }),
{
}

/// A request that carries tools is refused, whatever else it holds, by every
/// provider that does not advertise tools; and one that carries images but no
/// tools by every provider without vision.
pub proof fn missing_capabilities_refuse(kind: ProviderKind, req: ChatRequest)
    ensures
        req.tools@.len() > 0 && !kind.offers_tools() ==> chat_refusal(kind, req) == Some(
            LlmErrorView::UnsupportedCapability("tools"@),
        ),
        req.tools@.len() == 0 && has_images(req.messages@) && !kind.offers_vision()
            ==> chat_refusal(kind, req) == Some(LlmErrorView::UnsupportedCapability("vision"@)),
{
}

} // verus!
