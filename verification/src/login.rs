//! Login configuration types, the keyring and secret stores (which keep
//! nothing in this build), and `{{key}}` string templates.
use crate::text::{replace_all, spec_replace};
use std::sync::Arc;
use vstd::prelude::*;

verus! {

/// Where authentication credentials are persisted.
#[derive(Debug, Clone, Copy, PartialEq, Eq, Structural)]
pub enum AuthCredentialsStoreMode {
    /// Store in a plain JSON file (default).
    File,
    /// Store in the OS keyring directly.
    Keyring,
    /// Try keyring, fall back to file.
    Auto,
    /// Keep only in memory; do not persist.
    Ephemeral,
}

impl Default for AuthCredentialsStoreMode {
    fn default() -> (r: Self)
        ensures
            r == AuthCredentialsStoreMode::File,
    {
        AuthCredentialsStoreMode::File
    }
}

/// Which keyring backend to use when the store mode is keyring-based.
#[derive(Debug, Clone, Copy, PartialEq, Eq, Structural)]
pub enum AuthKeyringBackendKind {
    /// Use the OS keyring directly.
    Direct,
    /// Use the Secrets Service (GNOME Keyring / KWallet).
    Secrets,
}

impl Default for AuthKeyringBackendKind {
    fn default() -> (r: Self)
        ensures
            r == AuthKeyringBackendKind::Direct,
    {
        AuthKeyringBackendKind::Direct
    }
}

/// Regional residency hint for API requests.
#[derive(Debug, Clone, Copy, PartialEq, Eq, Structural)]
pub enum ResidencyRequirement {
    Us,
}

/// The platform fragment of the user agent: empty in this build.
pub fn user_agent() -> (r: String)
    ensures
        r@ == Seq::<char>::empty(),
{
    String::new()
}

/// Error type returned by keyring operations.
#[derive(Debug, Clone, PartialEq, Eq)]
pub struct KeyringError(pub String);

impl KeyringError {
    /// The error's message.
    pub fn message(&self) -> (r: &str)
        ensures
            r@ == self.0@,
    {
        self.0.as_str()
    }
}

/// Loading and saving opaque string secrets in a system keyring.
pub trait KeyringStore: Send + Sync {
    fn load(&self, service: &str, key: &str) -> Result<Option<String>, KeyringError>;

    fn save(&self, service: &str, key: &str, value: &str) -> Result<(), KeyringError>;

    fn delete(&self, service: &str, key: &str) -> Result<bool, KeyringError>;
}

/// The default keyring store, which keeps nothing.
#[derive(Debug, Clone, Copy)]
pub struct DefaultKeyringStore;

impl KeyringStore for DefaultKeyringStore {
    /// Nothing is stored: every key is absent.
    fn load(&self, service: &str, key: &str) -> (r: Result<Option<String>, KeyringError>)
        ensures
            r matches Ok(None),
    {
        Ok(None)
    }

    /// Accepts and drops the value.
    fn save(&self, service: &str, key: &str, value: &str) -> (r: Result<(), KeyringError>)
        ensures
            r is Ok,
    {
        Ok(())
    }

    /// Nothing was stored, so nothing is deleted.
    fn delete(&self, service: &str, key: &str) -> (r: Result<bool, KeyringError>)
        ensures
            r matches Ok(false),
    {
        Ok(false)
    }
}

/// A secret's name.
#[derive(Debug, Clone, PartialEq, Eq, Hash)]
pub struct SecretName(String);

impl View for SecretName {
    type V = Seq<char>;

    closed spec fn view(&self) -> Seq<char> {
        self.0@
    }
}

impl SecretName {
    /// Any name is accepted.
    pub fn new(name: String) -> (r: Result<Self, String>)
        ensures
            r matches Ok(n) && n@ == name@,
    {
        Ok(SecretName(name))
    }

    /// The name.
    pub fn as_str(&self) -> (r: &str)
        ensures
            r@ == self@,
    {
        self.0.as_str()
    }
}

/// Scope of a stored secret.
#[derive(Debug, Clone, Copy, PartialEq, Eq, Structural)]
pub enum SecretScope {
    Global,
}

/// Backend kind of the secrets manager.
#[derive(Debug, Clone, Copy, PartialEq, Eq, Structural)]
pub enum SecretsBackendKind {
    Local,
}

/// Namespace within local secrets storage.
#[derive(Debug, Clone, Copy, PartialEq, Eq, Structural)]
pub enum LocalSecretsNamespace {
    CodexAuth,
}

#[verifier::external_type_specification]
#[verifier::external_body]
pub struct ExPathBuf(std::path::PathBuf);

/// Manages secrets over a keyring store; this build keeps no secrets.
#[derive(Debug, Clone, Copy)]
pub struct SecretsManager;

impl SecretsManager {
    /// A manager for the given home, backend, store and namespace.
    pub fn new_with_keyring_store_and_namespace(
        codex_home: std::path::PathBuf,
        backend: SecretsBackendKind,
        keyring_store: Arc<dyn KeyringStore>,
        namespace: LocalSecretsNamespace,
    ) -> (r: Self) {
        SecretsManager
    }

    /// No secret is ever found.
    pub fn get(&self, scope: &SecretScope, name: &SecretName) -> (r: Result<Option<String>, String>)
        ensures
            r matches Ok(None),
    {
        Ok(None)
    }

    /// Accepts and drops the value.
    pub fn set(&self, scope: &SecretScope, name: &SecretName, value: &str) -> (r: Result<(), String>)
        ensures
            r is Ok,
    {
        Ok(())
    }

    /// Nothing is stored, so nothing is deleted.
    pub fn delete(&self, scope: &SecretScope, name: &SecretName) -> (r: Result<bool, String>)
        ensures
            r matches Ok(false),
    {
        Ok(false)
    }
}

/// A `{{key}}` string template.
#[derive(Debug, Clone)]
pub struct Template {
    source: String,
}

/// The placeholder of `key`: `{{key}}`.
pub open spec fn placeholder(key: Seq<char>) -> Seq<char> {
    "{{"@ + key + "}}"@
}

/// The text of a template once each pair's placeholder has been replaced by
/// its value, pair after pair.
pub open spec fn spec_render(source: Seq<char>, pairs: Seq<(Seq<char>, Seq<char>)>) -> Seq<char>
    decreases pairs.len(),
{
    if pairs.len() == 0 {
        source
    } else {
        spec_replace(
            spec_render(source, pairs.drop_last()),
            placeholder(pairs.last().0),
            pairs.last().1,
        )
    }
}

/// The model of a list of key/value pairs.
pub open spec fn pairs_view(p: Seq<(&str, String)>) -> Seq<(Seq<char>, Seq<char>)> {
    p.map_values(|e: (&str, String)| (e.0@, e.1@))
}

impl Template {
    /// The template's text.
    pub closed spec fn spec_source(&self) -> Seq<char> {
        self.source@
    }

    /// Any text is a template.
    pub fn parse(source: &str) -> (r: Result<Self, String>)
        ensures
            r matches Ok(t) && t.spec_source() == source@,
    {
        Ok(Template { source: String::from_str(source) })
    }

    /// Replaces, for each pair in turn, every `{{key}}` by its value.
    pub fn render(&self, pairs: &[(&str, String)]) -> (r: Result<String, String>)
        ensures
            r matches Ok(s) && s@ == spec_render(self.spec_source(), pairs_view(pairs@)),
    {
        let mut out = self.source.clone();
        let n = pairs.len();
        let mut i: usize = 0;
        while i < n
            invariant
                n == pairs@.len(),
                i <= n,
                out@ == spec_render(self.spec_source(), pairs_view(pairs@.take(i as int))),
            decreases n - i,
        {
            let mut pat = String::from_str("{{");
            pat.append(pairs[i].0);
            pat.append("}}");
            proof {
                reveal_strlit("{{");
                assert(pat@.len() > 0);
                assert(pairs_view(pairs@.take(i + 1)).drop_last() =~= pairs_view(pairs@.take(i as int)));
                assert(pairs_view(pairs@.take(i + 1)).last() == (pairs@[i as int].0@, pairs@[i as int].1@));
            }
            out = replace_all(out.as_str(), pat.as_str(), pairs[i].1.as_str());
            i = i + 1;
        }
        assert(pairs@.take(n as int) =~= pairs@);
        Ok(out)
    }
}

/// Wire protocol kind supported by a model provider.
#[derive(Debug, Clone, Copy, PartialEq, Eq, Structural)]
pub enum WireApi {
    Responses,
    Chat,
}

#[verifier::external_type_specification]
#[verifier::external_body]
pub struct ExJsonValue(serde_json::Value);

/// Minimal descriptor for an external model provider.
#[derive(Debug, Clone)]
pub struct ModelProviderInfo {
    pub name: String,
    pub base_url: Option<String>,
    pub env_key: Option<String>,
    pub env_key_instructions: Option<String>,
    pub experimental_bearer_token: Option<bool>,
    pub auth: Option<serde_json::Value>,
    pub aws: Option<serde_json::Value>,
    pub wire_api: WireApi,
    pub query_params: Option<serde_json::Value>,
    pub http_headers: Option<serde_json::Value>,
    pub env_http_headers: Option<serde_json::Value>,
    pub request_max_retries: Option<u32>,
    pub stream_max_retries: Option<u32>,
    pub stream_idle_timeout_ms: Option<u64>,
    pub websocket_connect_timeout_ms: Option<u64>,
    pub requires_openai_auth: bool,
    pub supports_websockets: bool,
}

/// Telemetry metadata for the auth environment state.
#[derive(Debug, Clone, Default)]
pub struct AuthEnvTelemetryMetadata {
    pub openai_api_key_env_present: bool,
    pub codex_api_key_env_present: bool,
    pub codex_api_key_env_enabled: bool,
    pub provider_env_key_name: Option<String>,
    pub provider_env_key_present: Option<bool>,
    pub refresh_token_url_override_present: bool,
}

/// Rendering leaves a template alone when none of the given keys has its
/// placeholder in it (in particular when no pairs are given).
pub proof fn lemma_render_without_placeholders(source: Seq<char>, pairs: Seq<(Seq<char>, Seq<char>)>)
    requires
        forall|i: int|
            0 <= i < pairs.len() ==> !crate::text::occurs_in(source, placeholder(#[trigger] pairs[i].0)),
    ensures
        spec_render(source, pairs) == source,
    decreases pairs.len(),
{
    if pairs.len() > 0 {
        let init = pairs.drop_last();
        assert forall|i: int| 0 <= i < init.len() implies !crate::text::occurs_in(
            source,
            placeholder(#[trigger] init[i].0),
        ) by {
            assert(init[i] == pairs[i]);
        }
        lemma_render_without_placeholders(source, init);
        assert(pairs.last() == pairs[pairs.len() - 1]);
        crate::text::lemma_replace_absent(source, placeholder(pairs.last().0), pairs.last().1);
    }
}

} // verus!
