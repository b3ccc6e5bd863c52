//! Per-provider capability matrix.
//!
//! Each LLM provider exposes a different feature surface (tool calling, vision,
//! streaming, system prompts). Routes consult [`Capabilities`] before invoking
//! a provider: `/api/agent` requires `tools: true`, while a vision-aware chat
//! endpoint requires `vision: true`.
//!
//! The matrix lives in code rather than configuration because it is a property
//! of the provider's API surface, not user-configurable. Adding a new provider
//! requires a new [`ProviderKind`] variant, an entry in [`ProviderKind::all`],
//! an identifier, and a decision on tools and vision.

use crate::text::{concat2, same_text};
use std::str::FromStr;
use vstd::prelude::*;

verus! {

/// Feature surface advertised by a provider.
///
/// All fields default to `false`; concrete providers opt in to features they
/// support via `Capabilities::from`.
#[derive(Clone, Copy, Debug, PartialEq, Eq, Structural)]
pub struct Capabilities {
    pub chat: bool,
    pub tools: bool,
    pub streaming: bool,
    pub vision: bool,
    pub system_prompt: bool,
}

impl Default for Capabilities {
    fn default() -> (r: Capabilities)
        ensures
            !r.chat && !r.tools && !r.streaming && !r.vision && !r.system_prompt,
    {
        Capabilities {
            chat: false,
            tools: false,
            streaming: false,
            vision: false,
            system_prompt: false,
        }
    }
}

/// Identifier for an LLM provider backend.
///
/// The set is closed at compile time.
#[derive(Clone, Copy, Debug, PartialEq, Eq, Hash, Structural)]
pub enum ProviderKind {
    Openai,
    Anthropic,
    Deepseek,
    Gemini,
    Cohere,
    Ollama,
    Groq,
    Perplexity,
    Xai,
    Azure,
    AzureFoundry,
    Bedrock,
    Mistral,
    Openrouter,
    Huggingface,
    Together,
    Moonshot,
    Minimax,
    Hyperbolic,
    Galadriel,
    Mira,
    Zai,
    Xiaomimimo,
    Llamafile,
}

impl ProviderKind {
    /// The canonical identifier of a provider.
    pub open spec fn id(self) -> Seq<char> {
        match self {
            ProviderKind::Openai => "openai"@,
            ProviderKind::Anthropic => "anthropic"@,
            ProviderKind::Deepseek => "deepseek"@,
            ProviderKind::Gemini => "gemini"@,
            ProviderKind::Cohere => "cohere"@,
            ProviderKind::Ollama => "ollama"@,
            ProviderKind::Groq => "groq"@,
            ProviderKind::Perplexity => "perplexity"@,
            ProviderKind::Xai => "xai"@,
            ProviderKind::Azure => "azure"@,
            ProviderKind::AzureFoundry => "azure-foundry"@,
            ProviderKind::Bedrock => "bedrock"@,
            ProviderKind::Mistral => "mistral"@,
            ProviderKind::Openrouter => "openrouter"@,
            ProviderKind::Huggingface => "huggingface"@,
            ProviderKind::Together => "together"@,
            ProviderKind::Moonshot => "moonshot"@,
            ProviderKind::Minimax => "minimax"@,
            ProviderKind::Hyperbolic => "hyperbolic"@,
            ProviderKind::Galadriel => "galadriel"@,
            ProviderKind::Mira => "mira"@,
            ProviderKind::Zai => "zai"@,
            ProviderKind::Xiaomimimo => "xiaomimimo"@,
            ProviderKind::Llamafile => "llamafile"@,
        }
    }

    /// The name of the variant itself.
    pub open spec fn label(self) -> Seq<char> {
        match self {
            ProviderKind::Openai => "Openai"@,
            ProviderKind::Anthropic => "Anthropic"@,
            ProviderKind::Deepseek => "Deepseek"@,
            ProviderKind::Gemini => "Gemini"@,
            ProviderKind::Cohere => "Cohere"@,
            ProviderKind::Ollama => "Ollama"@,
            ProviderKind::Groq => "Groq"@,
            ProviderKind::Perplexity => "Perplexity"@,
            ProviderKind::Xai => "Xai"@,
            ProviderKind::Azure => "Azure"@,
            ProviderKind::AzureFoundry => "AzureFoundry"@,
            ProviderKind::Bedrock => "Bedrock"@,
            ProviderKind::Mistral => "Mistral"@,
            ProviderKind::Openrouter => "Openrouter"@,
            ProviderKind::Huggingface => "Huggingface"@,
            ProviderKind::Together => "Together"@,
            ProviderKind::Moonshot => "Moonshot"@,
            ProviderKind::Minimax => "Minimax"@,
            ProviderKind::Hyperbolic => "Hyperbolic"@,
            ProviderKind::Galadriel => "Galadriel"@,
            ProviderKind::Mira => "Mira"@,
            ProviderKind::Zai => "Zai"@,
            ProviderKind::Xiaomimimo => "Xiaomimimo"@,
            ProviderKind::Llamafile => "Llamafile"@,
        }
    }

    /// Every provider, in canonical order.
    pub open spec fn catalogue() -> Seq<ProviderKind> {
        seq![
            ProviderKind::Openai,
            ProviderKind::Anthropic,
            ProviderKind::Deepseek,
            ProviderKind::Gemini,
            ProviderKind::Cohere,
            ProviderKind::Ollama,
            ProviderKind::Groq,
            ProviderKind::Perplexity,
            ProviderKind::Xai,
            ProviderKind::Azure,
            ProviderKind::AzureFoundry,
            ProviderKind::Bedrock,
            ProviderKind::Mistral,
            ProviderKind::Openrouter,
            ProviderKind::Huggingface,
            ProviderKind::Together,
            ProviderKind::Moonshot,
            ProviderKind::Minimax,
            ProviderKind::Hyperbolic,
            ProviderKind::Galadriel,
            ProviderKind::Mira,
            ProviderKind::Zai,
            ProviderKind::Xiaomimimo,
            ProviderKind::Llamafile,
        ]
    }

    /// Whether the provider authenticates without an API key: the local
    /// daemons, and Bedrock through the AWS credential chain.
    pub open spec fn keyless(self) -> bool {
        self is Ollama || self is Llamafile || self is Bedrock
    }

    /// Whether tool calling is advertised. It is withheld where support
    /// depends on the model behind an aggregator or a local server.
    pub open spec fn offers_tools(self) -> bool {
        !(self is Perplexity || self is Huggingface || self is Hyperbolic || self is Galadriel
            || self is Mira || self is Xiaomimimo || self is Llamafile)
    }

    /// Whether image input is advertised.
    pub open spec fn offers_vision(self) -> bool {
        self is Openai || self is Anthropic || self is Gemini || self is Azure || self is Bedrock
    }

    /// The feature surface of a provider.
    pub open spec fn surface(self) -> Capabilities {
        Capabilities {
            chat: true,
            tools: self.offers_tools(),
            streaming: true,
            vision: self.offers_vision(),
            system_prompt: true,
        }
    }

    /// Whether `text` names provider `self`: identifiers are matched without
    /// regard to ASCII case.
    pub open spec fn named_by(self, text: Seq<char>) -> bool {
        self.id() == crate::text::ascii_lower(text)
    }

    /// Returns every supported provider in canonical order.
    ///
    /// Used by CLI and UI surfaces that enumerate the available backends.
    pub fn all() -> (r: &'static [ProviderKind])
        ensures
            r@ == ProviderKind::catalogue(),
    {
        &[
            ProviderKind::Openai,
            ProviderKind::Anthropic,
            ProviderKind::Deepseek,
            ProviderKind::Gemini,
            ProviderKind::Cohere,
            ProviderKind::Ollama,
            ProviderKind::Groq,
            ProviderKind::Perplexity,
            ProviderKind::Xai,
            ProviderKind::Azure,
            ProviderKind::AzureFoundry,
            ProviderKind::Bedrock,
            ProviderKind::Mistral,
            ProviderKind::Openrouter,
            ProviderKind::Huggingface,
            ProviderKind::Together,
            ProviderKind::Moonshot,
            ProviderKind::Minimax,
            ProviderKind::Hyperbolic,
            ProviderKind::Galadriel,
            ProviderKind::Mira,
            ProviderKind::Zai,
            ProviderKind::Xiaomimimo,
            ProviderKind::Llamafile,
        ]
    }

    /// Returns `true` when the provider needs an API key to authenticate.
    ///
    /// Keyless providers: Ollama and Llamafile talk to a local daemon with no
    /// auth, and Bedrock authenticates through the standard AWS credential
    /// chain (env vars, `~/.aws` profiles, instance roles) rather than an
    /// API key. Credential sources may return an empty `api_key` for these.
    pub fn requires_api_key(&self) -> (r: bool)
        ensures
            r == !self.keyless(),
    {
        match self {
            ProviderKind::Ollama | ProviderKind::Llamafile | ProviderKind::Bedrock => false,
            _ => true,
        }
    }

    /// Returns the lowercase canonical string identifier for this provider.
    ///
    /// This is the inverse of [`ProviderKind::from_str`] and matches the
    /// strings expected by CLI flags and configuration files.
    pub fn as_str(&self) -> (r: &'static str)
        ensures
            r@ == self.id(),
    {
        match self {
            ProviderKind::Openai => "openai",
            ProviderKind::Anthropic => "anthropic",
            ProviderKind::Deepseek => "deepseek",
            ProviderKind::Gemini => "gemini",
            ProviderKind::Cohere => "cohere",
            ProviderKind::Ollama => "ollama",
            ProviderKind::Groq => "groq",
            ProviderKind::Perplexity => "perplexity",
            ProviderKind::Xai => "xai",
            ProviderKind::Azure => "azure",
            ProviderKind::AzureFoundry => "azure-foundry",
            ProviderKind::Bedrock => "bedrock",
            ProviderKind::Mistral => "mistral",
            ProviderKind::Openrouter => "openrouter",
            ProviderKind::Huggingface => "huggingface",
            ProviderKind::Together => "together",
            ProviderKind::Moonshot => "moonshot",
            ProviderKind::Minimax => "minimax",
            ProviderKind::Hyperbolic => "hyperbolic",
            ProviderKind::Galadriel => "galadriel",
            ProviderKind::Mira => "mira",
            ProviderKind::Zai => "zai",
            ProviderKind::Xiaomimimo => "xiaomimimo",
            ProviderKind::Llamafile => "llamafile",
        }
    }

    /// The variant's own name, as error messages print it.
    pub fn variant_name(&self) -> (r: &'static str)
        ensures
            r@ == self.label(),
    {
        match self {
            ProviderKind::Openai => "Openai",
            ProviderKind::Anthropic => "Anthropic",
            ProviderKind::Deepseek => "Deepseek",
            ProviderKind::Gemini => "Gemini",
            ProviderKind::Cohere => "Cohere",
            ProviderKind::Ollama => "Ollama",
            ProviderKind::Groq => "Groq",
            ProviderKind::Perplexity => "Perplexity",
            ProviderKind::Xai => "Xai",
            ProviderKind::Azure => "Azure",
            ProviderKind::AzureFoundry => "AzureFoundry",
            ProviderKind::Bedrock => "Bedrock",
            ProviderKind::Mistral => "Mistral",
            ProviderKind::Openrouter => "Openrouter",
            ProviderKind::Huggingface => "Huggingface",
            ProviderKind::Together => "Together",
            ProviderKind::Moonshot => "Moonshot",
            ProviderKind::Minimax => "Minimax",
            ProviderKind::Hyperbolic => "Hyperbolic",
            ProviderKind::Galadriel => "Galadriel",
            ProviderKind::Mira => "Mira",
            ProviderKind::Zai => "Zai",
            ProviderKind::Xiaomimimo => "Xiaomimimo",
            ProviderKind::Llamafile => "Llamafile",
        }
    }

    /// Parses a provider identifier, ignoring ASCII case. An unknown
    /// identifier is reported back in lower case.
    pub fn from_str(s: &str) -> (r: Result<ProviderKind, String>)
        ensures
            match r {
                Ok(kind) => kind.named_by(s@),
                Err(message) => {
                    &&& forall|kind: ProviderKind| !kind.named_by(s@)
                    &&& message@ == "unknown provider: "@ + crate::text::ascii_lower(s@)
                },
            },
    {
        let lowered = s.to_ascii_lowercase();
        let kinds = ProviderKind::all();
        let mut i: usize = 0;
        while i < kinds.len()
            invariant
                i <= kinds.len(),
                kinds@ == ProviderKind::catalogue(),
                lowered@ == crate::text::ascii_lower(s@),
                forall|j: int| 0 <= j < i ==> !(#[trigger] kinds@[j]).named_by(s@),
            decreases kinds.len() - i,
        {
            let kind = kinds[i];
            if same_text(kind.as_str(), lowered.as_str()) {
                return Ok(kind);
            }
            i = i + 1;
        }
        proof {
            assert forall|kind: ProviderKind| !kind.named_by(s@) by {
                catalogue_is_complete(kind);
                let j = ProviderKind::catalogue().index_of(kind);
                assert(kinds@[j] == kind);
            }
        }
        Err(concat2("unknown provider: ", lowered.as_str()))
    }
}

impl FromStr for ProviderKind {
    type Err = String;

    fn from_str(s: &str) -> (r: Result<ProviderKind, String>)
        ensures
            match r {
                Ok(kind) => kind.named_by(s@),
                Err(message) => {
                    &&& forall|kind: ProviderKind| !kind.named_by(s@)
                    &&& message@ == "unknown provider: "@ + crate::text::ascii_lower(s@)
                },
            },
    {
        ProviderKind::from_str(s)
    }
}

impl vstd::std_specs::convert::FromSpecImpl<ProviderKind> for Capabilities {
    open spec fn obeys_from_spec() -> bool {
        true
    }

    open spec fn from_spec(kind: ProviderKind) -> Capabilities {
        kind.surface()
    }
}

impl From<ProviderKind> for Capabilities {
    /// Maps each provider to its declared feature surface.
    ///
    /// Tool calling is declared where the provider's API carries it for its
    /// whole catalogue; hosts that route to heterogeneous models, and
    /// Llamafile, keep the conservative `tools: false`. Vision is declared
    /// only where the provider's models take image input throughout.
    fn from(kind: ProviderKind) -> Capabilities {
        let (tools, vision) = match kind {
            ProviderKind::Openai => (true, true),
            ProviderKind::Anthropic => (true, true),
            ProviderKind::Deepseek => (true, false),
            ProviderKind::Gemini => (true, true),
            ProviderKind::Cohere => (true, false),
            // Ollama takes tools on its native endpoint; which choices it can
            // express is settled when the request is built.
            ProviderKind::Ollama => (true, false),
            ProviderKind::Groq => (true, false),
            ProviderKind::Perplexity => (false, false),
            ProviderKind::Xai => (true, false),
            // Azure OpenAI exposes the same feature surface as OpenAI; the
            // deployment behind the endpoint determines the actual model.
            ProviderKind::Azure => (true, true),
            // Azure AI Foundry serverless models speak the OpenAI-compatible
            // v1 surface; vision is model-dependent.
            ProviderKind::AzureFoundry => (true, false),
            // Bedrock's Converse API supports tool use and multimodal input.
            ProviderKind::Bedrock => (true, true),
            ProviderKind::Mistral => (true, false),
            ProviderKind::Openrouter => (true, false),
            // Hugging Face routes to heterogeneous sub-providers.
            ProviderKind::Huggingface => (false, false),
            ProviderKind::Together => (true, false),
            ProviderKind::Moonshot => (true, false),
            ProviderKind::Minimax => (true, false),
            // Aggregators and niche hosts where tool calling depends on the
            // model.
            ProviderKind::Hyperbolic => (false, false),
            ProviderKind::Galadriel => (false, false),
            ProviderKind::Mira => (false, false),
            ProviderKind::Zai => (true, false),
            ProviderKind::Xiaomimimo => (false, false),
            // Llamafile is a local OpenAI-compatible server.
            ProviderKind::Llamafile => (false, false),
        };
        Capabilities { chat: true, tools, streaming: true, vision, system_prompt: true }
    }
}

// ---------------------------------------------------------------------------
// Laws
// ---------------------------------------------------------------------------

/// Every provider stands in the catalogue.
pub proof fn catalogue_is_complete(kind: ProviderKind)
    ensures
        ProviderKind::catalogue().contains(kind),
{
    let all = ProviderKind::catalogue();
    match kind {
        ProviderKind::Openai => assert(all[0] == kind),
        ProviderKind::Anthropic => assert(all[1] == kind),
        ProviderKind::Deepseek => assert(all[2] == kind),
        ProviderKind::Gemini => assert(all[3] == kind),
        ProviderKind::Cohere => assert(all[4] == kind),
        ProviderKind::Ollama => assert(all[5] == kind),
        ProviderKind::Groq => assert(all[6] == kind),
        ProviderKind::Perplexity => assert(all[7] == kind),
        ProviderKind::Xai => assert(all[8] == kind),
        ProviderKind::Azure => assert(all[9] == kind),
        ProviderKind::AzureFoundry => assert(all[10] == kind),
        ProviderKind::Bedrock => assert(all[11] == kind),
        ProviderKind::Mistral => assert(all[12] == kind),
        ProviderKind::Openrouter => assert(all[13] == kind),
        ProviderKind::Huggingface => assert(all[14] == kind),
        ProviderKind::Together => assert(all[15] == kind),
        ProviderKind::Moonshot => assert(all[16] == kind),
        ProviderKind::Minimax => assert(all[17] == kind),
        ProviderKind::Hyperbolic => assert(all[18] == kind),
        ProviderKind::Galadriel => assert(all[19] == kind),
        ProviderKind::Mira => assert(all[20] == kind),
        ProviderKind::Zai => assert(all[21] == kind),
        ProviderKind::Xiaomimimo => assert(all[22] == kind),
        ProviderKind::Llamafile => assert(all[23] == kind),
    }
}

/// No provider stands in the catalogue twice.
pub proof fn catalogue_has_no_duplicates()
    ensures
        ProviderKind::catalogue().no_duplicates(),
{
}

/// What is read off the identifiers themselves: they are in lower case, and
/// their length and leading characters tell them all apart.
proof fn lemma_id_literals(kind: ProviderKind)
    ensures
        crate::text::ascii_lower(kind.id()) == kind.id(),
        match kind {
            ProviderKind::Openai => kind.id().len() == 6 && kind.id()[0] == 'o' && kind.id()[1] == 'p' && kind.id()[2] == 'e',
            ProviderKind::Anthropic => kind.id().len() == 9 && kind.id()[0] == 'a' && kind.id()[1] == 'n' && kind.id()[2] == 't',
            ProviderKind::Deepseek => kind.id().len() == 8 && kind.id()[0] == 'd' && kind.id()[1] == 'e' && kind.id()[2] == 'e',
            ProviderKind::Gemini => kind.id().len() == 6 && kind.id()[0] == 'g' && kind.id()[1] == 'e' && kind.id()[2] == 'm',
            ProviderKind::Cohere => kind.id().len() == 6 && kind.id()[0] == 'c' && kind.id()[1] == 'o' && kind.id()[2] == 'h',
            ProviderKind::Ollama => kind.id().len() == 6 && kind.id()[0] == 'o' && kind.id()[1] == 'l' && kind.id()[2] == 'l',
            ProviderKind::Groq => kind.id().len() == 4 && kind.id()[0] == 'g' && kind.id()[1] == 'r' && kind.id()[2] == 'o',
            ProviderKind::Perplexity => kind.id().len() == 10 && kind.id()[0] == 'p' && kind.id()[1] == 'e' && kind.id()[2] == 'r',
            ProviderKind::Xai => kind.id().len() == 3 && kind.id()[0] == 'x' && kind.id()[1] == 'a' && kind.id()[2] == 'i',
            ProviderKind::Azure => kind.id().len() == 5 && kind.id()[0] == 'a' && kind.id()[1] == 'z' && kind.id()[2] == 'u',
            ProviderKind::AzureFoundry => kind.id().len() == 13 && kind.id()[0] == 'a' && kind.id()[1] == 'z' && kind.id()[2] == 'u',
            ProviderKind::Bedrock => kind.id().len() == 7 && kind.id()[0] == 'b' && kind.id()[1] == 'e' && kind.id()[2] == 'd',
            ProviderKind::Mistral => kind.id().len() == 7 && kind.id()[0] == 'm' && kind.id()[1] == 'i' && kind.id()[2] == 's',
            ProviderKind::Openrouter => kind.id().len() == 10 && kind.id()[0] == 'o' && kind.id()[1] == 'p' && kind.id()[2] == 'e',
            ProviderKind::Huggingface => kind.id().len() == 11 && kind.id()[0] == 'h' && kind.id()[1] == 'u' && kind.id()[2] == 'g',
            ProviderKind::Together => kind.id().len() == 8 && kind.id()[0] == 't' && kind.id()[1] == 'o' && kind.id()[2] == 'g',
            ProviderKind::Moonshot => kind.id().len() == 8 && kind.id()[0] == 'm' && kind.id()[1] == 'o' && kind.id()[2] == 'o',
            ProviderKind::Minimax => kind.id().len() == 7 && kind.id()[0] == 'm' && kind.id()[1] == 'i' && kind.id()[2] == 'n',
            ProviderKind::Hyperbolic => kind.id().len() == 10 && kind.id()[0] == 'h' && kind.id()[1] == 'y' && kind.id()[2] == 'p',
            ProviderKind::Galadriel => kind.id().len() == 9 && kind.id()[0] == 'g' && kind.id()[1] == 'a' && kind.id()[2] == 'l',
            ProviderKind::Mira => kind.id().len() == 4 && kind.id()[0] == 'm' && kind.id()[1] == 'i' && kind.id()[2] == 'r',
            ProviderKind::Zai => kind.id().len() == 3 && kind.id()[0] == 'z' && kind.id()[1] == 'a' && kind.id()[2] == 'i',
            ProviderKind::Xiaomimimo => kind.id().len() == 10 && kind.id()[0] == 'x' && kind.id()[1] == 'i' && kind.id()[2] == 'a',
            ProviderKind::Llamafile => kind.id().len() == 9 && kind.id()[0] == 'l' && kind.id()[1] == 'l' && kind.id()[2] == 'a',
        },
{
    reveal_strlit("openai");
    reveal_strlit("anthropic");
    reveal_strlit("deepseek");
    reveal_strlit("gemini");
    reveal_strlit("cohere");
    reveal_strlit("ollama");
    reveal_strlit("groq");
    reveal_strlit("perplexity");
    reveal_strlit("xai");
    reveal_strlit("azure");
    reveal_strlit("azure-foundry");
    reveal_strlit("bedrock");
    reveal_strlit("mistral");
    reveal_strlit("openrouter");
    reveal_strlit("huggingface");
    reveal_strlit("together");
    reveal_strlit("moonshot");
    reveal_strlit("minimax");
    reveal_strlit("hyperbolic");
    reveal_strlit("galadriel");
    reveal_strlit("mira");
    reveal_strlit("zai");
    reveal_strlit("xiaomimimo");
    reveal_strlit("llamafile");
    assert(crate::text::ascii_lower(kind.id()) =~= kind.id());
}

/// Different providers have different identifiers.
pub proof fn ids_are_distinct(a: ProviderKind, b: ProviderKind)
    requires
        a.id() == b.id(),
    ensures
        a == b,
{
    lemma_id_literals(a);
    lemma_id_literals(b);
}

/// A provider's identifier names that provider and no other, so parsing what
/// `as_str` returns gives the provider back.
pub proof fn as_str_round_trips(kind: ProviderKind, other: ProviderKind)
    ensures
        kind.named_by(kind.id()),
        other.named_by(kind.id()) ==> other == kind,
{
    id_is_lower_case(kind);
    if other.named_by(kind.id()) {
        ids_are_distinct(other, kind);
    }
}

/// At most one provider is named by a text, whatever its case.
pub proof fn names_are_unambiguous(text: Seq<char>, a: ProviderKind, b: ProviderKind)
    requires
        a.named_by(text),
        b.named_by(text),
    ensures
        a == b,
{
    ids_are_distinct(a, b);
}

/// Every provider answers chats, streams, and takes a system prompt.
pub proof fn every_provider_chats(kind: ProviderKind)
    ensures
        kind.surface().chat,
        kind.surface().streaming,
        kind.surface().system_prompt,
{
}

/// Identifiers are written in lower case.
pub proof fn id_is_lower_case(kind: ProviderKind)
    ensures
        crate::text::ascii_lower(kind.id()) == kind.id(),
{
    lemma_id_literals(kind);
}

} // verus!
