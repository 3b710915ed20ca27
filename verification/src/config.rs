//! Configuration of the exec-server command.
use crate::arg0::{join_path, spec_join_path};
use crate::login::{AuthCredentialsStoreMode, AuthKeyringBackendKind};
use crate::remote_host::strings_view;
use crate::text::{spec_strip_trailing, str_eq, strip_trailing};
use vstd::prelude::*;
use vstd::string::StringSliceAdditionalSpecFns;

verus! {

/// The ChatGPT base URL used when none is configured.
pub const DEFAULT_CHATGPT_BASE_URL: &'static str = "https://chatgpt.com/backend-api";

/// Name of the credentials directory under the user's home.
pub const CODEX_HOME_DIR_NAME: &'static str = ".codex";

/// Exec-server configuration: only the ChatGPT base URL used for auth.
#[derive(Debug, Clone)]
pub struct ExecServerConfig {
    pub chatgpt_base_url: String,
}

impl Default for ExecServerConfig {
    fn default() -> (r: Self)
        ensures
            r.chatgpt_base_url@ == DEFAULT_CHATGPT_BASE_URL@,
    {
        ExecServerConfig { chatgpt_base_url: String::from_str(DEFAULT_CHATGPT_BASE_URL) }
    }
}

impl ExecServerConfig {
    /// The credentials directory: `.codex` under `home` (the value of
    /// `HOME`), or under the current directory when `HOME` is unset.
    pub fn codex_home(&self, home: Option<Vec<u8>>) -> (r: Vec<u8>)
        ensures
            r@ == spec_join_path(
                match home {
                    Some(h) => h@,
                    None => seq![46u8],
                },
                CODEX_HOME_DIR_NAME.spec_bytes(),
            ),
    {
        let base: Vec<u8> = match home {
            Some(h) => h,
            None => {
                let mut v: Vec<u8> = Vec::new();
                v.push(46u8);
                v
            },
        };
        join_path(base.as_slice(), CODEX_HOME_DIR_NAME)
    }

    /// Credentials are stored the default way.
    pub fn cli_auth_credentials_store_mode(&self) -> (r: AuthCredentialsStoreMode)
        ensures
            r == AuthCredentialsStoreMode::File,
    {
        AuthCredentialsStoreMode::File
    }

    /// The default keyring backend.
    pub fn auth_keyring_backend_kind(&self) -> (r: AuthKeyringBackendKind)
        ensures
            r == AuthKeyringBackendKind::Direct,
    {
        AuthKeyringBackendKind::Direct
    }

    /// No workspace is forced.
    pub fn forced_chatgpt_workspace_id(&self) -> (r: Option<Vec<String>>)
        ensures
            r is None,
    {
        None
    }

    /// The configured ChatGPT base URL.
    pub fn chatgpt_base_url(&self) -> (r: String)
        ensures
            r@ == self.chatgpt_base_url@,
    {
        self.chatgpt_base_url.clone()
    }
}

/// A base URL as the allow-list compares it: without trailing slashes.
pub open spec fn base_url_key(url: Seq<char>) -> Seq<char> {
    spec_strip_trailing(url, '/')
}

/// Whether agent-identity registration may use the ChatGPT base URL
/// `base_url`: it is the default one or one of `allowed` (the value of
/// `AGENTX_AGENT_IDENTITY_ALLOWED_BASE_URLS`), trailing slashes aside.
pub open spec fn spec_agent_identity_base_url_allowed(
    base_url: Seq<char>,
    allowed: Seq<Seq<char>>,
) -> bool {
    ||| base_url_key(base_url) == base_url_key(DEFAULT_CHATGPT_BASE_URL@)
    ||| exists|i: int|
        0 <= i < allowed.len() && #[trigger] base_url_key(allowed[i]) == base_url_key(base_url)
}

/// Checks the ChatGPT base URL of an agent-identity registration against
/// the default and the allow-list.
pub fn agent_identity_base_url_allowed(base_url: &str, allowed: &[String]) -> (r: bool)
    ensures
        r == spec_agent_identity_base_url_allowed(base_url@, strings_view(allowed@)),
{
    let key = strip_trailing(base_url, '/');
    if str_eq(key, strip_trailing(DEFAULT_CHATGPT_BASE_URL, '/')) {
        return true;
    }
    let ghost av = strings_view(allowed@);
    let n = allowed.len();
    let mut i: usize = 0;
    while i < n
        invariant
            n == allowed@.len(),
            av == strings_view(allowed@),
            key@ == base_url_key(base_url@),
            i <= n,
            forall|k: int| 0 <= k < i ==> #[trigger] base_url_key(av[k]) != key@,
        decreases n - i,
    {
        if str_eq(strip_trailing(allowed[i].as_str(), '/'), key) {
            assert(base_url_key(av[i as int]) == base_url_key(base_url@));
            return true;
        }
        i = i + 1;
    }
    false
}

} // verus!
