use greentic_llm::completion::{AssistantContent, CompletionRequest};
use greentic_llm::response::{Completion, CompletionFailure, ReportedUsage};
use greentic_llm::rig_backend::{check_capabilities, foundry_openai_base, plan_client};
use greentic_llm::stream::StreamChunk;
use greentic_llm::{
    Capabilities, ChatImage, ChatMessage, ChatRequest, ClientPlan, Credential, Features,
    FinishReason, LlmError, PendingChat, ProviderKind, RigBackend, ToolCall, ToolDef,
};
use rig_core::client::{Nothing, ProviderClient};
use rig_core::{providers, OneOrMany};

const ALL_FEATURES: Features = Features { bedrock: true };

fn json(text: &str) -> serde_json::Value {
    serde_json::from_str(text).expect("valid JSON")
}

/// Makes the real provider client of a plan, and lets it go.
fn connect(plan: ClientPlan<'_>) -> Result<(), String> {
    match plan {
        ClientPlan::Keyed {
            provider,
            api_key,
            base_url,
        } => match provider {
            ProviderKind::Openai => {
                let mut builder = providers::openai::CompletionsClient::builder().api_key(api_key);
                if let Some(base) = base_url {
                    builder = builder.base_url(base);
                }
                builder.build().map(|_| ()).map_err(|e| e.to_string())
            }
            ProviderKind::Anthropic => {
                let mut builder = providers::anthropic::Client::builder().api_key(api_key);
                if let Some(base) = base_url {
                    builder = builder.base_url(base);
                }
                builder.build().map(|_| ()).map_err(|e| e.to_string())
            }
            ProviderKind::Deepseek => {
                let mut builder = providers::deepseek::Client::builder().api_key(api_key);
                if let Some(base) = base_url {
                    builder = builder.base_url(base);
                }
                builder.build().map(|_| ()).map_err(|e| e.to_string())
            }
            ProviderKind::Gemini => {
                let mut builder = providers::gemini::Client::builder().api_key(api_key);
                if let Some(base) = base_url {
                    builder = builder.base_url(base);
                }
                builder.build().map(|_| ()).map_err(|e| e.to_string())
            }
            ProviderKind::Cohere => {
                let mut builder = providers::cohere::Client::builder().api_key(api_key);
                if let Some(base) = base_url {
                    builder = builder.base_url(base);
                }
                builder.build().map(|_| ()).map_err(|e| e.to_string())
            }
            ProviderKind::Groq => {
                let mut builder = providers::groq::Client::builder().api_key(api_key);
                if let Some(base) = base_url {
                    builder = builder.base_url(base);
                }
                builder.build().map(|_| ()).map_err(|e| e.to_string())
            }
            ProviderKind::Perplexity => {
                let mut builder = providers::perplexity::Client::builder().api_key(api_key);
                if let Some(base) = base_url {
                    builder = builder.base_url(base);
                }
                builder.build().map(|_| ()).map_err(|e| e.to_string())
            }
            ProviderKind::Xai => {
                let mut builder = providers::xai::Client::builder().api_key(api_key);
                if let Some(base) = base_url {
                    builder = builder.base_url(base);
                }
                builder.build().map(|_| ()).map_err(|e| e.to_string())
            }
            ProviderKind::Mistral => {
                let mut builder = providers::mistral::Client::builder().api_key(api_key);
                if let Some(base) = base_url {
                    builder = builder.base_url(base);
                }
                builder.build().map(|_| ()).map_err(|e| e.to_string())
            }
            ProviderKind::Openrouter => {
                let mut builder = providers::openrouter::Client::builder().api_key(api_key);
                if let Some(base) = base_url {
                    builder = builder.base_url(base);
                }
                builder.build().map(|_| ()).map_err(|e| e.to_string())
            }
            ProviderKind::Huggingface => {
                let mut builder = providers::huggingface::Client::builder().api_key(api_key);
                if let Some(base) = base_url {
                    builder = builder.base_url(base);
                }
                builder.build().map(|_| ()).map_err(|e| e.to_string())
            }
            ProviderKind::Together => {
                let mut builder = providers::together::Client::builder().api_key(api_key);
                if let Some(base) = base_url {
                    builder = builder.base_url(base);
                }
                builder.build().map(|_| ()).map_err(|e| e.to_string())
            }
            ProviderKind::Moonshot => {
                let mut builder = providers::moonshot::Client::builder().api_key(api_key);
                if let Some(base) = base_url {
                    builder = builder.base_url(base);
                }
                builder.build().map(|_| ()).map_err(|e| e.to_string())
            }
            ProviderKind::Minimax => {
                let mut builder = providers::minimax::Client::builder().api_key(api_key);
                if let Some(base) = base_url {
                    builder = builder.base_url(base);
                }
                builder.build().map(|_| ()).map_err(|e| e.to_string())
            }
            ProviderKind::Hyperbolic => {
                let mut builder = providers::hyperbolic::Client::builder().api_key(api_key);
                if let Some(base) = base_url {
                    builder = builder.base_url(base);
                }
                builder.build().map(|_| ()).map_err(|e| e.to_string())
            }
            ProviderKind::Galadriel => {
                let mut builder = providers::galadriel::Client::builder().api_key(api_key);
                if let Some(base) = base_url {
                    builder = builder.base_url(base);
                }
                builder.build().map(|_| ()).map_err(|e| e.to_string())
            }
            ProviderKind::Mira => {
                let mut builder = providers::mira::Client::builder().api_key(api_key);
                if let Some(base) = base_url {
                    builder = builder.base_url(base);
                }
                builder.build().map(|_| ()).map_err(|e| e.to_string())
            }
            ProviderKind::Zai => {
                let mut builder = providers::zai::Client::builder().api_key(api_key);
                if let Some(base) = base_url {
                    builder = builder.base_url(base);
                }
                builder.build().map(|_| ()).map_err(|e| e.to_string())
            }
            ProviderKind::Xiaomimimo => {
                let mut builder = providers::xiaomimimo::Client::builder().api_key(api_key);
                if let Some(base) = base_url {
                    builder = builder.base_url(base);
                }
                builder.build().map(|_| ()).map_err(|e| e.to_string())
            }
            other => panic!("{} is not a keyed provider", other.as_str()),
        },
        ClientPlan::Keyless { provider, base_url } => match provider {
            ProviderKind::Ollama => {
                let mut builder = providers::ollama::Client::builder().api_key(Nothing);
                if let Some(base) = base_url {
                    builder = builder.base_url(base);
                }
                builder.build().map(|_| ()).map_err(|e| e.to_string())
            }
            ProviderKind::Llamafile => {
                let mut builder = providers::llamafile::Client::builder().api_key(Nothing);
                if let Some(base) = base_url {
                    builder = builder.base_url(base);
                }
                builder.build().map(|_| ()).map_err(|e| e.to_string())
            }
            other => panic!("{} is not a local daemon", other.as_str()),
        },
        ClientPlan::Azure {
            api_key,
            endpoint,
            api_version,
        } => {
            let mut builder = providers::azure::Client::builder()
                .api_key(providers::azure::AzureOpenAIAuth::ApiKey(
                    api_key.to_string(),
                ))
                .azure_endpoint(endpoint.to_string());
            if let Some(version) = api_version {
                builder = builder.api_version(version);
            }
            builder.build().map(|_| ()).map_err(|e| e.to_string())
        }
        ClientPlan::Foundry { api_key, v1_base } => {
            providers::openai::CompletionsClient::builder()
                .api_key(api_key)
                .base_url(v1_base)
                .build()
                .map(|_| ())
                .map_err(|e| e.to_string())
        }
        ClientPlan::BedrockProfile { profile } => {
            let _client = rig_bedrock::client::Client::with_profile_name(profile);
            Ok(())
        }
        ClientPlan::BedrockEnvironment => rig_bedrock::client::Client::from_env()
            .map(|_| ())
            .map_err(|e| e.to_string()),
    }
}

fn backend(kind: ProviderKind, model: &str, cred: &Credential) -> Result<RigBackend<()>, LlmError> {
    RigBackend::new(ALL_FEATURES, kind, model, cred, connect)
}

fn dummy_cred() -> Credential {
    Credential {
        api_key: "test-key".to_string(),
        base_url: None,
        expires_at: None,
        api_version: None,
        aws_profile: None,
    }
}

fn accepted(b: &RigBackend<()>, req: ChatRequest) -> (CompletionRequest, PendingChat) {
    match b.chat_request(req) {
        Ok(sent) => sent,
        Err(e) => panic!("must accept: {}", e.message()),
    }
}

fn refused(b: &RigBackend<()>, req: ChatRequest) -> LlmError {
    match b.chat_request(req) {
        Ok(_) => panic!("must reject"),
        Err(e) => e,
    }
}

fn expect_config_err(result: Result<RigBackend<()>, LlmError>, context: &str) {
    match result {
        Ok(_) => panic!("{context}: expected a Config error, got Ok"),
        Err(LlmError::Config(_)) => {}
        Err(other) => panic!("{context}: expected Config error, got: {other:?}"),
    }
}

fn plain_request(messages: Vec<ChatMessage>) -> ChatRequest {
    ChatRequest {
        messages,
        tools: vec![],
        tool_choice: None,
        max_tokens: None,
        temperature: None,
    }
}

fn tool_def(name: &str) -> ToolDef {
    ToolDef {
        name: name.into(),
        description: "d".into(),
        schema: json("{}"),
    }
}

fn message_with_image() -> ChatMessage {
    let mut msg = ChatMessage::user("what is this");
    msg.images.push(ChatImage {
        data_base64: "aGVsbG8=".into(),
        media_type: "image/png".into(),
    });
    msg
}

#[test]
fn rejects_tools_when_capability_says_no() {
    // Llamafile advertises tools = false: a request carrying tools must be
    // refused on the matrix, before any provider call is built.
    let b = backend(ProviderKind::Llamafile, "any-model", &dummy_cred()).expect("build");
    let mut req = plain_request(vec![ChatMessage::user("hi")]);
    req.tools.push(tool_def("t"));
    let err = refused(&b, req);
    assert!(matches!(err, LlmError::UnsupportedCapability("tools")));
}

#[test]
fn rejects_images_when_capability_says_no() {
    // Cohere advertises vision = false.
    let b = backend(ProviderKind::Cohere, "command-r", &dummy_cred()).expect("build");
    let err = refused(&b, plain_request(vec![message_with_image()]));
    assert!(matches!(err, LlmError::UnsupportedCapability("vision")));
}

#[test]
fn ollama_required_fails_before_any_request_is_sent() {
    let b = backend(ProviderKind::Ollama, "m", &dummy_cred()).expect("build");
    let req = ChatRequest {
        messages: vec![
            ChatMessage::system("you are helpful"),
            ChatMessage::user("hi"),
            ChatMessage::assistant_with_tool_calls(
                "",
                vec![ToolCall {
                    id: "call_1".into(),
                    name: "lookup".into(),
                    arguments: json("{\"q\": \"x\"}"),
                }],
            ),
            ChatMessage::tool_result("call_1", "{\"answer\":42}"),
        ],
        tools: vec![ToolDef {
            name: "lookup".into(),
            description: "d".into(),
            schema: json("{\"type\": \"object\"}"),
        }],
        tool_choice: Some("required".into()),
        max_tokens: None,
        temperature: None,
    };
    let err = refused(&b, req);
    assert!(matches!(
        err,
        LlmError::UnsupportedCapability("tool_choice=required")
    ));
}

#[test]
fn every_provider_constructs_offline() {
    // Construction must never hit the network. Azure additionally needs an
    // endpoint; Bedrock is exercised separately.
    for kind in ProviderKind::all() {
        if *kind == ProviderKind::Bedrock {
            continue;
        }
        let mut cred = dummy_cred();
        if *kind == ProviderKind::Azure {
            cred.base_url = Some("https://example.openai.azure.com".to_string());
        }
        if *kind == ProviderKind::AzureFoundry {
            cred.base_url = Some("https://example.services.ai.azure.com".to_string());
        }
        let backend = backend(*kind, "test-model", &cred).unwrap_or_else(|e| {
            panic!("{} backend should build: {}", kind.as_str(), e.message())
        });
        assert_eq!(backend.provider_name(), kind.as_str());
        assert_eq!(backend.model(), "test-model");
    }
}

#[test]
fn azure_without_endpoint_is_a_config_error() {
    expect_config_err(
        backend(ProviderKind::Azure, "gpt-4o", &dummy_cred()),
        "azure without base_url",
    );
}

#[test]
fn azure_foundry_without_endpoint_is_a_config_error() {
    expect_config_err(
        backend(ProviderKind::AzureFoundry, "deepseek-v3", &dummy_cred()),
        "azure-foundry without base_url",
    );
}

#[test]
fn foundry_base_url_is_normalised_to_the_openai_v1_surface() {
    assert_eq!(
        foundry_openai_base("https://res.services.ai.azure.com"),
        "https://res.services.ai.azure.com/openai/v1"
    );
    assert_eq!(
        foundry_openai_base("https://res.services.ai.azure.com/"),
        "https://res.services.ai.azure.com/openai/v1"
    );
    assert_eq!(
        foundry_openai_base("https://res.services.ai.azure.com/openai/v1"),
        "https://res.services.ai.azure.com/openai/v1"
    );
    assert_eq!(
        foundry_openai_base("https://res.services.ai.azure.com/openai/v1/"),
        "https://res.services.ai.azure.com/openai/v1"
    );
}

#[test]
fn bedrock_constructs_offline_with_and_without_profile() {
    // The AWS SDK config is loaded lazily on first request, so plain
    // construction must succeed without AWS credentials present.
    let without = backend(ProviderKind::Bedrock, "amazon.nova-lite-v1:0", &dummy_cred())
        .expect("bedrock from_env constructs");
    assert_eq!(without.provider_name(), "bedrock");

    let mut cred = dummy_cred();
    cred.aws_profile = Some("greentic-test".to_string());
    backend(ProviderKind::Bedrock, "amazon.nova-lite-v1:0", &cred)
        .expect("bedrock with profile constructs");
}

#[test]
fn bedrock_rejects_base_url_override() {
    let mut cred = dummy_cred();
    cred.base_url = Some("https://example.com".to_string());
    expect_config_err(
        backend(ProviderKind::Bedrock, "amazon.nova-lite-v1:0", &cred),
        "bedrock with base_url",
    );
}

#[test]
fn bedrock_without_feature_is_a_config_error() {
    let cred = dummy_cred();
    expect_config_err(
        RigBackend::new(
            Features::default(),
            ProviderKind::Bedrock,
            "amazon.nova-lite-v1:0",
            &cred,
            connect,
        ),
        "bedrock without the feature",
    );
}

#[test]
fn foundry_spellings_of_one_endpoint_agree() {
    for spelling in [
        "https://r///",
        "https://r/openai/v1//",
        "https://r/openai/v1",
    ] {
        assert_eq!(foundry_openai_base(spelling), "https://r/openai/v1");
    }
    assert_eq!(foundry_openai_base(""), "/openai/v1");
    assert_eq!(
        foundry_openai_base("https://r/OpenAI/v1"),
        "https://r/OpenAI/v1/openai/v1"
    );
}

#[test]
fn config_errors_say_what_is_missing() {
    let message = |features: Features, kind: ProviderKind, cred: &Credential| {
        match plan_client(features, kind, cred) {
            Ok(_) => panic!("{} has a plan", kind.as_str()),
            Err(e) => e.message(),
        }
    };
    let cred = dummy_cred();
    assert_eq!(
        message(ALL_FEATURES, ProviderKind::Azure, &cred),
        "invalid provider configuration: azure requires base_url, e.g. \
         https://{resource}.openai.azure.com"
    );
    assert_eq!(
        message(ALL_FEATURES, ProviderKind::AzureFoundry, &cred),
        "invalid provider configuration: azure-foundry requires base_url, e.g. \
         https://{resource}.services.ai.azure.com"
    );
    assert_eq!(
        message(Features { bedrock: false }, ProviderKind::Bedrock, &cred),
        "invalid provider configuration: greentic-llm was built without the `bedrock` cargo feature"
    );
    let mut cred = dummy_cred();
    cred.base_url = Some("https://example.com".into());
    assert_eq!(
        message(ALL_FEATURES, ProviderKind::Bedrock, &cred),
        "invalid provider configuration: bedrock does not support base_url; set the region via \
         AWS env vars or aws_profile"
    );
}

#[test]
fn plans_are_made_from_the_credential() {
    let mut cred = dummy_cred();
    cred.base_url = Some("https://host/".into());
    cred.api_version = Some("2024-10-21".into());
    cred.aws_profile = Some("ops".into());
    for kind in ProviderKind::all() {
        let plan = plan_client(ALL_FEATURES, *kind, &cred);
        match (kind, plan) {
            (ProviderKind::Bedrock, Err(LlmError::Config(_))) => {}
            (
                ProviderKind::Ollama | ProviderKind::Llamafile,
                Ok(ClientPlan::Keyless { provider, base_url }),
            ) => {
                assert_eq!(provider, *kind);
                assert_eq!(base_url, Some("https://host/"));
            }
            (
                ProviderKind::Azure,
                Ok(ClientPlan::Azure {
                    api_key,
                    endpoint,
                    api_version,
                }),
            ) => {
                assert_eq!(api_key, "test-key");
                assert_eq!(endpoint, "https://host/");
                assert_eq!(api_version, Some("2024-10-21"));
            }
            (ProviderKind::AzureFoundry, Ok(ClientPlan::Foundry { api_key, v1_base })) => {
                assert_eq!(api_key, "test-key");
                assert_eq!(v1_base, "https://host/openai/v1");
            }
            (
                _,
                Ok(ClientPlan::Keyed {
                    provider,
                    api_key,
                    base_url,
                }),
            ) => {
                assert_eq!(provider, *kind);
                assert!(kind.requires_api_key(), "{}", kind.as_str());
                assert_eq!(api_key, "test-key");
                assert_eq!(base_url, Some("https://host/"));
            }
            _ => panic!("unexpected plan for {}", kind.as_str()),
        }
    }
    cred.base_url = None;
    match plan_client(ALL_FEATURES, ProviderKind::Bedrock, &cred) {
        Ok(ClientPlan::BedrockProfile { profile }) => assert_eq!(profile, "ops"),
        _ => panic!("expected a profile plan"),
    }
    cred.aws_profile = None;
    assert!(matches!(
        plan_client(ALL_FEATURES, ProviderKind::Bedrock, &cred),
        Ok(ClientPlan::BedrockEnvironment)
    ));
}

#[test]
fn settings_of_other_providers_are_ignored() {
    let mut noisy = dummy_cred();
    noisy.api_version = Some("2024-10-21".into());
    noisy.aws_profile = Some("ops".into());
    let quiet = dummy_cred();
    for cred in [&noisy, &quiet] {
        match plan_client(ALL_FEATURES, ProviderKind::Mistral, cred) {
            Ok(ClientPlan::Keyed {
                provider,
                api_key,
                base_url,
            }) => {
                assert_eq!(provider, ProviderKind::Mistral);
                assert_eq!(api_key, "test-key");
                assert_eq!(base_url, None);
            }
            _ => panic!("expected a keyed plan"),
        }
    }
}

#[test]
fn a_failed_connection_names_the_provider() {
    let transport: Result<RigBackend<()>, LlmError> =
        RigBackend::from_connection(ProviderKind::Groq, "m", Err("no TLS".into()));
    match transport {
        Err(LlmError::Transport(text)) => assert_eq!(text, "groq client: no TLS"),
        _ => panic!("expected a Transport error"),
    }
    let config: Result<RigBackend<()>, LlmError> =
        RigBackend::from_connection(ProviderKind::Bedrock, "m", Err("no region".into()));
    match config {
        Err(LlmError::Config(text)) => assert_eq!(text, "bedrock client: no region"),
        _ => panic!("expected a Config error"),
    }
}

#[test]
fn the_backend_keeps_its_client() {
    let b = RigBackend::from_connection(ProviderKind::Gemini, "g", Ok(7u8)).unwrap_or_else(
        |e: LlmError| panic!("builds: {}", e.message()),
    );
    assert_eq!(*b.client(), 7);
    assert_eq!(b.capabilities(), Capabilities::from(ProviderKind::Gemini));
}

#[test]
fn tools_are_refused_before_images() {
    let mut req = plain_request(vec![ChatMessage::user("hi"), message_with_image()]);
    req.tools.push(tool_def("t"));
    let nothing = Capabilities::default();
    assert!(matches!(
        check_capabilities(nothing, &req),
        Err(LlmError::UnsupportedCapability("tools"))
    ));
    let mut caps = nothing;
    caps.tools = true;
    assert!(matches!(
        check_capabilities(caps, &req),
        Err(LlmError::UnsupportedCapability("vision"))
    ));
    caps.vision = true;
    assert!(check_capabilities(caps, &req).is_ok());
    assert!(
        check_capabilities(nothing, &plain_request(vec![ChatMessage::user("hi")])).is_ok()
    );
}

#[test]
fn an_accepted_request_is_converted() {
    let b = backend(ProviderKind::Anthropic, "any-model", &dummy_cred()).expect("build");
    let mut req = plain_request(vec![ChatMessage::system("s"), message_with_image()]);
    req.tools.push(tool_def("t"));
    let (out, _) = accepted(&b, req);
    assert_eq!(out.preamble.as_deref(), Some("s"));
    assert_eq!(out.chat_history.len(), 1);
    assert_eq!(out.tools.len(), 1);
    assert_eq!(out.max_tokens, Some(32_768));
}

fn text_reply(output_tokens: u64) -> Completion {
    Completion {
        choice: OneOrMany::one(AssistantContent::Text("hello".into())),
        usage: ReportedUsage {
            input_tokens: 4,
            output_tokens,
        },
    }
}

#[test]
fn replies_are_answered_under_the_backends_model() {
    let b = backend(ProviderKind::Openai, "gpt-4o", &dummy_cred()).expect("build");
    let mut req = plain_request(vec![ChatMessage::user("hi")]);
    req.max_tokens = Some(2);
    let (_, pending) = accepted(&b, req);
    let response = b.chat_response(pending, Ok(text_reply(2))).expect("answered");
    assert_eq!(response.content, "hello");
    assert_eq!(response.finish_reason, FinishReason::Length);
    assert_eq!(response.usage.expect("usage").model, "gpt-4o");

    let (_, pending) = accepted(&b, plain_request(vec![ChatMessage::user("hi")]));
    let err = b
        .chat_response(pending, Err(CompletionFailure::Http("refused".into())))
        .expect_err("failed");
    assert!(matches!(err, LlmError::Transport(text) if text == "refused"));
}

#[test]
fn truncation_is_judged_by_the_budget_that_was_sent() {
    let finish = |kind: ProviderKind, max_tokens: Option<u32>, output_tokens: u64| {
        let b = backend(kind, "m", &dummy_cred()).expect("build");
        let mut req = plain_request(vec![ChatMessage::user("hi")]);
        req.max_tokens = max_tokens;
        let (_, pending) = accepted(&b, req);
        b.chat_response(pending, Ok(text_reply(output_tokens)))
            .expect("answered")
            .finish_reason
    };
    // Without a budget of its own, Anthropic is sent the default.
    assert_eq!(
        finish(ProviderKind::Anthropic, None, 32_768),
        FinishReason::Length
    );
    assert_eq!(
        finish(ProviderKind::Anthropic, None, 32_767),
        FinishReason::Stop
    );
    assert_eq!(
        finish(ProviderKind::Openai, None, 32_768),
        FinishReason::Stop
    );
    assert_eq!(
        finish(ProviderKind::Openai, Some(10), 10),
        FinishReason::Length
    );
    assert_eq!(
        finish(ProviderKind::Openai, Some(10), 9),
        FinishReason::Stop
    );
}

#[test]
fn an_opened_stream_is_adapted() {
    let b = backend(ProviderKind::Openai, "gpt-4o", &dummy_cred()).expect("build");
    let (mut adapter, chunks) = b
        .chat_stream(Ok(vec![StreamChunk::Text("a".into())]))
        .unwrap_or_else(|e| panic!("opens: {}", e.message()));
    assert_eq!(chunks.len(), 1);
    for chunk in chunks {
        assert_eq!(format!("{:?}", adapter.push(chunk)), "[TextChunk(\"a\")]");
    }
    let closing = adapter.finish(Some(ReportedUsage {
        input_tokens: 4,
        output_tokens: 2,
    }));
    assert_eq!(
        format!("{closing:?}"),
        "[Usage(Usage { model: \"gpt-4o\", input_tokens: 4, output_tokens: 2 }), \
         Done { finish_reason: Stop }]"
    );
    let refused: Result<(_, ()), LlmError> =
        b.chat_stream(Err(CompletionFailure::InvalidStatusCode(401)));
    match refused {
        Err(LlmError::Status { status, body }) => {
            assert_eq!(status, 401);
            assert_eq!(body, "");
        }
        _ => panic!("expected a Status error"),
    }
}
