use greentic_llm::credentials::{
    API_KEY_VAR, API_VERSION_VAR, AWS_PROFILE_VAR, BASE_URL_VAR, PROVIDER_VAR,
};
use greentic_llm::{
    CredError, Credential, EnvCredentialSource, EnvVars, ProviderKind, Timestamp,
};

fn vars(provider: Option<&str>, api_key: Option<&str>) -> EnvVars {
    EnvVars {
        provider: provider.map(str::to_string),
        api_key: api_key.map(str::to_string),
        base_url: None,
        api_version: None,
        aws_profile: None,
    }
}

fn is_missing(result: Result<Credential, CredError>, kind: ProviderKind) -> bool {
    matches!(result, Err(CredError::Missing(missing)) if missing == kind)
}

#[test]
fn variable_names_are_stable() {
    assert_eq!(
        [
            PROVIDER_VAR,
            API_KEY_VAR,
            BASE_URL_VAR,
            API_VERSION_VAR,
            AWS_PROFILE_VAR
        ],
        [
            "GREENTIC_LLM_PROVIDER",
            "GREENTIC_LLM_API_KEY",
            "GREENTIC_LLM_BASE_URL",
            "GREENTIC_LLM_API_VERSION",
            "GREENTIC_LLM_AWS_PROFILE",
        ]
    );
}

#[test]
fn the_active_provider_is_served() {
    let mut env = vars(Some("Azure"), Some("secret"));
    env.base_url = Some("https://example.openai.azure.com".into());
    env.api_version = Some("2024-10-21".into());
    env.aws_profile = Some("ops".into());
    let cred = EnvCredentialSource
        .get_credential(ProviderKind::Azure, env)
        .expect("served");
    assert_eq!(cred.api_key, "secret");
    assert_eq!(
        cred.base_url.as_deref(),
        Some("https://example.openai.azure.com")
    );
    assert_eq!(cred.expires_at, None);
    assert_eq!(cred.api_version.as_deref(), Some("2024-10-21"));
    assert_eq!(cred.aws_profile.as_deref(), Some("ops"));
}

#[test]
fn any_other_provider_is_missing() {
    for kind in ProviderKind::all() {
        let result = EnvCredentialSource.get_credential(*kind, vars(Some("openai"), Some("k")));
        assert_eq!(result.is_ok(), *kind == ProviderKind::Openai);
    }
    let result =
        EnvCredentialSource.get_credential(ProviderKind::Groq, vars(Some("openai"), Some("k")));
    assert!(is_missing(result, ProviderKind::Groq));
}

#[test]
fn an_absent_or_unknown_provider_is_missing() {
    let result = EnvCredentialSource.get_credential(ProviderKind::Openai, vars(None, Some("k")));
    assert!(is_missing(result, ProviderKind::Openai));
    let result =
        EnvCredentialSource.get_credential(ProviderKind::Openai, vars(Some("nope"), Some("k")));
    assert!(is_missing(result, ProviderKind::Openai));
}

#[test]
fn a_needed_key_must_be_there() {
    for key in [None, Some("")] {
        let result = EnvCredentialSource.get_credential(ProviderKind::Openai, vars(Some("openai"), key));
        assert!(is_missing(result, ProviderKind::Openai));
        let cred = EnvCredentialSource
            .get_credential(ProviderKind::Ollama, vars(Some("ollama"), key))
            .expect("keyless");
        assert_eq!(cred.api_key, "");
    }
}

#[test]
fn credential_errors_name_the_provider() {
    assert_eq!(
        CredError::Missing(ProviderKind::AzureFoundry).message(),
        "missing credential for provider AzureFoundry"
    );
    assert_eq!(
        CredError::Expired(ProviderKind::Openai).message(),
        "credential expired for provider Openai"
    );
    assert_eq!(CredError::Other("vault down".into()).message(), "vault down");
}

#[test]
fn debug_text_redacts_the_key() {
    let mut cred = Credential::default();
    cred.api_key = "sk-very-secret".into();
    assert_eq!(
        cred.debug_text(),
        "Credential { api_key: \"[REDACTED]\", base_url: None, expires_at: None, \
         api_version: None, aws_profile: None }"
    );
    cred.base_url = Some("http://a\"b".into());
    cred.expires_at = Some(Timestamp {
        secs: 1_700_000_000,
        nanos: 0,
    });
    cred.api_version = Some("v1".into());
    cred.aws_profile = Some("ops".into());
    assert_eq!(
        cred.debug_text(),
        "Credential { api_key: \"[REDACTED]\", base_url: Some(\"http://a\\\"b\"), \
         expires_at: Some(2023-11-14T22:13:20Z), api_version: Some(\"v1\"), \
         aws_profile: Some(\"ops\") }"
    );
}

#[test]
fn debug_text_does_not_depend_on_the_key() {
    let mut a = Credential::default();
    a.api_key = "one".into();
    let mut b = Credential::default();
    b.api_key = "two".into();
    assert_eq!(a.debug_text(), b.debug_text());
}

#[test]
fn a_cloned_credential_outlives_the_wiped_one() {
    let mut cred = Credential::default();
    cred.api_key = "sk-secret".into();
    cred.base_url = Some("http://localhost".into());
    let copy = cred.clone();
    drop(cred);
    assert_eq!(copy.api_key, "sk-secret");
    assert_eq!(copy.base_url.as_deref(), Some("http://localhost"));
}
