//! Credentials for LLM providers, and where they come from.
//!
//! [`EnvCredentialSource`] resolves a credential from the `GREENTIC_LLM_*`
//! environment variables, handed in as [`EnvVars`]. Consumers with richer
//! credential stores bring their own source.
//!
//! The `api_key` of a [`Credential`] is wiped on drop and does not occur in
//! its debug text.

use crate::capabilities::ProviderKind;
use crate::provider::copy_text;
use crate::text::concat2;
use vstd::prelude::*;
use vstd::string::*;
use zeroize::Zeroize;

verus! {

/// The active provider id (e.g. `openai`).
pub const PROVIDER_VAR: &'static str = "GREENTIC_LLM_PROVIDER";

/// The API key for that provider. Optional for keyless providers.
pub const API_KEY_VAR: &'static str = "GREENTIC_LLM_API_KEY";

/// Optional endpoint override for self-hosted gateways; the resource endpoint
/// for `azure`, which needs it.
pub const BASE_URL_VAR: &'static str = "GREENTIC_LLM_BASE_URL";

/// Optional Azure OpenAI REST API version.
pub const API_VERSION_VAR: &'static str = "GREENTIC_LLM_API_VERSION";

/// Optional named AWS profile for `bedrock`.
pub const AWS_PROFILE_VAR: &'static str = "GREENTIC_LLM_AWS_PROFILE";

/// A moment in UTC: seconds since the Unix epoch, and nanoseconds into that
/// second. A pair that lies outside the range of representable UTC times is
/// kept as it is, and its debug text reads `None`.
#[derive(Clone, Copy, Debug, PartialEq, Eq, Structural)]
pub struct Timestamp {
    pub secs: i64,
    pub nanos: u32,
}

/// Resolved credential for a single provider.
///
/// Provider-specific fields:
/// - `base_url`: endpoint override for self-hosted gateways; for Azure this
///   is the resource endpoint (`https://{resource}.openai.azure.com`) and is
///   required.
/// - `api_version`: Azure OpenAI REST API version (the provider client's
///   default when `None`); ignored by every other provider.
/// - `aws_profile`: named AWS profile for Bedrock; when `None` Bedrock uses
///   the standard AWS credential chain (env vars, `~/.aws`, instance roles).
///   Ignored by every other provider.
///
/// `api_key` may be empty for keyless providers, see
/// [`ProviderKind::requires_api_key`].
pub struct Credential {
    pub api_key: String,
    pub base_url: Option<String>,
    pub expires_at: Option<Timestamp>,
    pub api_version: Option<String>,
    pub aws_profile: Option<String>,
}

/// Errors returned by credential sources.
#[derive(Debug)]
pub enum CredError {
    Missing(ProviderKind),
    /// Reserved for credential sources with expiring tokens.
    Expired(ProviderKind),
    /// Any other failure, by its message.
    Other(String),
}

/// The environment variables of the environment-backed source, each `None`
/// when it is unset or not Unicode.
pub struct EnvVars {
    pub provider: Option<String>,
    pub api_key: Option<String>,
    pub base_url: Option<String>,
    pub api_version: Option<String>,
    pub aws_profile: Option<String>,
}

/// Environment-variable-backed credential source. It exposes only one provider
/// at a time: the active one.
pub struct EnvCredentialSource;

// ---------------------------------------------------------------------------
// Facts about outside crates and std
// ---------------------------------------------------------------------------

/// `zeroize::Zeroize::zeroize` on a `String`: overwrites the contents and
/// leaves the string empty. That the memory is overwritten is not stated.
#[verifier::external_body]
fn wipe(secret: &mut String)
    ensures
        final(secret)@ == Seq::<char>::empty(),
    opens_invariants none
    no_unwind
{
    secret.zeroize()
}

/// How `std` prints an optional text with `{:?}`: quoted and escaped.
pub uninterp spec fn debug_of_text(text: Option<Seq<char>>) -> Seq<char>;

/// `format!("{:?}")` of an optional text; an absent one prints as `None`.
#[verifier::external_body]
fn debug_text_of(text: &Option<String>) -> (r: String)
    ensures
        r@ == debug_of_text(crate::text::opt_text(*text)),
        *text is None ==> r@ == "None"@,
{
    format!("{text:?}")
}

/// How `chrono` prints, with `{:?}`, the optional UTC time that lies so many
/// seconds and nanoseconds after the Unix epoch.
pub uninterp spec fn debug_of_time(secs: i64, nanos: u32) -> Seq<char>;

/// `format!("{:?}")` of `chrono::DateTime::from_timestamp(secs, nanos)`.
#[verifier::external_body]
fn debug_time_of(secs: i64, nanos: u32) -> (r: String)
    ensures
        r@ == debug_of_time(secs, nanos),
{
    format!("{:?}", chrono::DateTime::from_timestamp(secs, nanos))
}

// ---------------------------------------------------------------------------
// Models
// ---------------------------------------------------------------------------

/// The debug text of an optional expiry time.
pub open spec fn debug_of_expiry(expires_at: Option<Timestamp>) -> Seq<char> {
    match expires_at {
        Some(t) => debug_of_time(t.secs, t.nanos),
        None => "None"@,
    }
}

impl Credential {
    /// The debug text of a credential: every field but the key, which is
    /// redacted.
    pub open spec fn redacted(self) -> Seq<char> {
        "Credential { api_key: \"[REDACTED]\", base_url: "@ + debug_of_text(
            crate::text::opt_text(self.base_url),
        ) + ", expires_at: "@ + debug_of_expiry(self.expires_at) + ", api_version: "@
            + debug_of_text(crate::text::opt_text(self.api_version)) + ", aws_profile: "@
            + debug_of_text(crate::text::opt_text(self.aws_profile)) + " }"@
    }
}

impl CredError {
    /// What an error says when it is displayed.
    pub open spec fn text(self) -> Seq<char> {
        match self {
            CredError::Missing(kind) => "missing credential for provider "@ + kind.label(),
            CredError::Expired(kind) => "credential expired for provider "@ + kind.label(),
            CredError::Other(text) => text@,
        }
    }
}

impl EnvVars {
    /// The API key, empty when there is none.
    pub open spec fn key(self) -> Seq<char> {
        match self.api_key {
            Some(key) => key@,
            None => Seq::empty(),
        }
    }

    /// Whether the environment holds a credential for `kind`: `kind` is the
    /// active provider, and its key is there unless it needs none.
    pub open spec fn serves(self, kind: ProviderKind) -> bool {
        &&& self.provider is Some
        &&& kind.named_by(self.provider->0@)
        &&& kind.keyless() || self.key().len() > 0
    }
}

// ---------------------------------------------------------------------------
// Operations
// ---------------------------------------------------------------------------

impl Drop for Credential {
    /// Wipes the key.
    fn drop(&mut self)
        ensures
            final(self).api_key@ == Seq::<char>::empty(),
        opens_invariants none
        no_unwind
    {
        wipe(&mut self.api_key);
    }
}

impl Default for Credential {
    fn default() -> (r: Credential)
        ensures
            r.api_key@ == Seq::<char>::empty(),
            r.base_url is None,
            r.expires_at is None,
            r.api_version is None,
            r.aws_profile is None,
    {
        Credential {
            api_key: String::new(),
            base_url: None,
            expires_at: None,
            api_version: None,
            aws_profile: None,
        }
    }
}

impl Clone for Credential {
    fn clone(&self) -> (r: Credential)
        ensures
            r == *self,
    {
        Credential {
            api_key: self.api_key.clone(),
            base_url: copy_text(&self.base_url),
            expires_at: self.expires_at,
            api_version: copy_text(&self.api_version),
            aws_profile: copy_text(&self.aws_profile),
        }
    }
}

impl Credential {
    /// The credential for logs: the key is redacted.
    pub fn debug_text(&self) -> (r: String)
        ensures
            r@ == self.redacted(),
    {
        let mut text = String::from("Credential { api_key: \"[REDACTED]\", base_url: ");
        text.append(debug_text_of(&self.base_url).as_str());
        text.append(", expires_at: ");
        match self.expires_at {
            Some(t) => {
                text.append(debug_time_of(t.secs, t.nanos).as_str());
            },
            None => {
                text.append("None");
            },
        }
        text.append(", api_version: ");
        text.append(debug_text_of(&self.api_version).as_str());
        text.append(", aws_profile: ");
        text.append(debug_text_of(&self.aws_profile).as_str());
        text.append(" }");
        text
    }
}

impl CredError {
    /// The error's text for logs and users.
    pub fn message(&self) -> (r: String)
        ensures
            r@ == self.text(),
    {
        match self {
            CredError::Missing(kind) => {
                concat2("missing credential for provider ", kind.variant_name())
            },
            CredError::Expired(kind) => {
                concat2("credential expired for provider ", kind.variant_name())
            },
            CredError::Other(text) => text.clone(),
        }
    }
}

impl EnvCredentialSource {
    /// The credential that the environment holds for `provider`. Any provider
    /// but the active one is [`CredError::Missing`], and so is an active
    /// provider without the key that it needs.
    pub fn get_credential(&self, provider: ProviderKind, vars: EnvVars) -> (r: Result<
        Credential,
        CredError,
    >)
        ensures
            match r {
                Ok(cred) => {
                    &&& vars.serves(provider)
                    &&& cred.api_key@ == vars.key()
                    &&& cred.base_url == vars.base_url
                    &&& cred.expires_at is None
                    &&& cred.api_version == vars.api_version
                    &&& cred.aws_profile == vars.aws_profile
                },
                Err(e) => !vars.serves(provider) && e == CredError::Missing(provider),
            },
    {
        let active = match vars.provider {
            Some(id) => match ProviderKind::from_str(id.as_str()) {
                Ok(kind) => {
                    proof {
                        if provider.named_by(id@) {
                            crate::capabilities::names_are_unambiguous(id@, provider, kind);
                        }
                    }
                    kind
                },
                Err(_) => {
                    return Err(CredError::Missing(provider));
                },
            },
            None => {
                return Err(CredError::Missing(provider));
            },
        };
        if active != provider {
            return Err(CredError::Missing(provider));
        }
        let api_key = match vars.api_key {
            Some(key) => key,
            None => String::new(),
        };
        if api_key.as_str().is_empty() && provider.requires_api_key() {
            return Err(CredError::Missing(provider));
        }
        Ok(
            Credential {
                api_key,
                base_url: vars.base_url,
                expires_at: None,
                api_version: vars.api_version,
                aws_profile: vars.aws_profile,
            },
        )
    }
}

// ---------------------------------------------------------------------------
// Laws
// ---------------------------------------------------------------------------

/// The debug text does not depend on the key: credentials that differ in
/// nothing else print the same.
pub proof fn debug_text_hides_the_key(a: Credential, b: Credential)
    requires
        a.base_url == b.base_url,
        a.expires_at == b.expires_at,
        a.api_version == b.api_version,
        a.aws_profile == b.aws_profile,
    ensures
        a.redacted() == b.redacted(),
{
}

/// The environment serves at most one provider.
pub proof fn environment_serves_one_provider(vars: EnvVars, a: ProviderKind, b: ProviderKind)
    requires
        vars.serves(a),
        vars.serves(b),
    ensures
        a == b,
{
    crate::capabilities::names_are_unambiguous(vars.provider->0@, a, b);
}

} // verus!
