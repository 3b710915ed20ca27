//! Which credentials may register a remote exec-server, and the request
//! headers that carry them.
use crate::remote_host::{
    spec_remote_host_verdict_allowing, strings_view, url_parse_outcome,
    validate_api_key_remote_host_allowing, RemoteHostError, RemoteHostErrorView,
};
use crate::registry::opt_view;
use vstd::prelude::*;

verus! {

/// Whether a character may stand in an HTTP header value: visible ASCII,
/// space, tab, or anything beyond ASCII (whose UTF-8 bytes are all >= 0x80).
pub open spec fn header_value_char_ok(c: char) -> bool {
    ((c as u32) >= 32 && (c as u32) != 127) || c == '\t'
}

/// Whether a string is a valid HTTP header value.
pub open spec fn is_valid_header_value(s: Seq<char>) -> bool {
    forall|i: int| 0 <= i < s.len() ==> header_value_char_ok(#[trigger] s[i])
}

/// Calls `http::HeaderValue::from_str` and reports whether it accepted `s`.
///
/// Trusted: `from_str` accepts exactly the strings whose UTF-8 bytes `b` all
/// satisfy `b >= 32 && b != 127 || b == b'\t'`; over characters that is
/// `is_valid_header_value`.
#[verifier::external_body]
pub(crate) fn header_value_accepted(s: &str) -> (r: bool)
    ensures
        r == is_valid_header_value(s@),
{
    http::HeaderValue::from_str(s).is_ok()
}

/// The kind of login a credential snapshot comes from.
#[derive(Debug, Clone, Copy, PartialEq, Eq, Structural)]
pub enum AuthMode {
    ApiKey,
    Chatgpt,
    ChatgptAuthTokens,
    PersonalAccessToken,
    AgentIdentity,
}

/// The agent-identity record of an agent-identity login.
#[derive(Clone, PartialEq, Eq)]
pub struct AgentIdentityCredentials {
    pub agent_runtime_id: String,
    pub agent_private_key: String,
    pub task_id: String,
}

/// What the registration logic reads of a login: its kind, its bearer token,
/// its account id, whether the account is FedRAMP, and for an agent-identity
/// login its record.
#[derive(Clone, PartialEq, Eq)]
pub struct AuthSnapshot {
    pub mode: AuthMode,
    pub token: Option<String>,
    pub account_id: Option<String>,
    pub is_fedramp_account: bool,
    pub agent_identity: Option<AgentIdentityCredentials>,
}

impl AuthSnapshot {
    /// A snapshot of an API-key login with key `key`.
    pub fn from_api_key(key: &str) -> (r: Self)
        ensures
            r.mode is ApiKey,
            opt_view(r.token) == Some(key@),
            r.account_id is None,
            !r.is_fedramp_account,
            r.agent_identity is None,
    {
        AuthSnapshot {
            mode: AuthMode::ApiKey,
            token: Some(String::from_str(key)),
            account_id: None,
            is_fedramp_account: false,
            agent_identity: None,
        }
    }
}

/// Whether a login is a ChatGPT login.
pub open spec fn is_chatgpt_mode(m: AuthMode) -> bool {
    m is Chatgpt || m is ChatgptAuthTokens
}

/// Only ChatGPT and API-key logins may register a remote exec-server.
pub fn is_supported_exec_server_remote_auth(auth: &AuthSnapshot) -> (r: bool)
    ensures
        r == (is_chatgpt_mode(auth.mode) || auth.mode is ApiKey),
{
    match auth.mode {
        AuthMode::Chatgpt | AuthMode::ChatgptAuthTokens | AuthMode::ApiKey => true,
        _ => false,
    }
}

/// Why a login cannot register a remote exec-server.
#[derive(Debug, Clone, PartialEq, Eq)]
pub enum RemoteAuthError {
    /// Agent-identity registration was asked for without a token.
    MissingAgentIdentityToken,
    /// No login was found.
    MissingAuth,
    /// The login is neither ChatGPT nor API key.
    UnsupportedAuth,
    /// An API key may not be sent to the registration URL.
    Host(RemoteHostError),
}

/// Mathematical model of [`RemoteAuthError`].
pub enum RemoteAuthErrorView {
    MissingAgentIdentityToken,
    MissingAuth,
    UnsupportedAuth,
    Host(RemoteHostErrorView),
}

impl View for RemoteAuthError {
    type V = RemoteAuthErrorView;

    open spec fn view(&self) -> RemoteAuthErrorView {
        match self {
            RemoteAuthError::MissingAgentIdentityToken => RemoteAuthErrorView::MissingAgentIdentityToken,
            RemoteAuthError::MissingAuth => RemoteAuthErrorView::MissingAuth,
            RemoteAuthError::UnsupportedAuth => RemoteAuthErrorView::UnsupportedAuth,
            RemoteAuthError::Host(e) => RemoteAuthErrorView::Host(e@),
        }
    }
}

/// The message text of each refusal that is not about the host.
pub open spec fn spec_remote_auth_message(e: RemoteAuthErrorView) -> Option<Seq<char>> {
    match e {
        RemoteAuthErrorView::MissingAgentIdentityToken => Some(
            "AGENTX_ACCESS_TOKEN is required when --use-agent-identity-auth is set"@,
        ),
        RemoteAuthErrorView::MissingAuth => Some(
            "remote exec-server registration requires ChatGPT authentication or API key authentication; run `agentx login` or set AGENTX_API_KEY"@,
        ),
        RemoteAuthErrorView::UnsupportedAuth => Some(
            "remote exec-server registration requires ChatGPT authentication or API key authentication; Agent Identity auth requires --use-agent-identity-auth"@,
        ),
        RemoteAuthErrorView::Host(_) => None,
    }
}

impl RemoteAuthError {
    /// The message that reports this refusal.
    pub fn message(&self) -> (r: String)
        ensures
            match spec_remote_auth_message(self@) {
                Some(m) => r@ == m,
                None => self@ matches RemoteAuthErrorView::Host(h) && r@
                    == crate::remote_host::spec_host_error_message(h),
            },
    {
        match self {
            RemoteAuthError::MissingAgentIdentityToken => String::from_str(
                "AGENTX_ACCESS_TOKEN is required when --use-agent-identity-auth is set",
            ),
            RemoteAuthError::MissingAuth => String::from_str(
                "remote exec-server registration requires ChatGPT authentication or API key authentication; run `agentx login` or set AGENTX_API_KEY",
            ),
            RemoteAuthError::UnsupportedAuth => String::from_str(
                "remote exec-server registration requires ChatGPT authentication or API key authentication; Agent Identity auth requires --use-agent-identity-auth",
            ),
            RemoteAuthError::Host(h) => h.message(),
        }
    }
}

/// The agent-identity token, which agent-identity registration requires.
pub fn require_agent_identity_token(token: Option<String>) -> (r: Result<String, RemoteAuthError>)
    ensures
        match r {
            Ok(t) => token == Some(t),
            Err(e) => token is None && e is MissingAgentIdentityToken,
        },
{
    match token {
        Some(t) => Ok(t),
        None => Err(RemoteAuthError::MissingAgentIdentityToken),
    }
}

/// The verdict on a loaded login for registering at `base_url`, where
/// `allowed` are the extra hosts an API key may go to over HTTPS.
pub open spec fn spec_remote_auth_verdict(
    auth: Option<AuthMode>,
    parsed_url: Result<crate::remote_host::RemoteUrlView, Seq<char>>,
    allowed: Seq<Seq<char>>,
) -> Result<(), RemoteAuthErrorView> {
    match auth {
        None => Err(RemoteAuthErrorView::MissingAuth),
        Some(m) => if !(is_chatgpt_mode(m) || m is ApiKey) {
            Err(RemoteAuthErrorView::UnsupportedAuth)
        } else if m is ApiKey {
            match spec_remote_host_verdict_allowing(parsed_url, allowed) {
                Ok(()) => Ok(()),
                Err(h) => Err(RemoteAuthErrorView::Host(h)),
            }
        } else {
            Ok(())
        },
    }
}

/// The model of a verdict.
pub open spec fn auth_verdict_view(r: Result<(), RemoteAuthError>) -> Result<(), RemoteAuthErrorView> {
    match r {
        Ok(()) => Ok(()),
        Err(e) => Err(e@),
    }
}

/// Decides whether the loaded login (`None` when there is none) may register
/// at `base_url`: it must be a ChatGPT or API-key login, and an API key may
/// only go to an allowed host (`allowed_hosts` being the configured extra
/// hosts).
pub fn check_remote_auth(
    auth: &Option<AuthSnapshot>,
    base_url: &str,
    allowed_hosts: &[String],
) -> (r: Result<(), RemoteAuthError>)
    ensures
        auth_verdict_view(r) == spec_remote_auth_verdict(
            match auth {
                Some(a) => Some(a.mode),
                None => None,
            },
            url_parse_outcome(base_url@),
            strings_view(allowed_hosts@),
        ),
        auth matches Some(a) && (a.mode is Chatgpt || a.mode is ChatgptAuthTokens) ==> r is Ok,
{
    let a = match auth {
        None => return Err(RemoteAuthError::MissingAuth),
        Some(a) => a,
    };
    if !is_supported_exec_server_remote_auth(a) {
        return Err(RemoteAuthError::UnsupportedAuth);
    }
    if let AuthMode::ApiKey = a.mode {
        let v = validate_api_key_remote_host_allowing(base_url, allowed_hosts);
        match v {
            Ok(()) => {},
            Err(h) => return Err(RemoteAuthError::Host(h)),
        }
    }
    Ok(())
}

/// Only an API key is held to the host rule: for every other login the
/// verdict is the same whatever the base URL and the allow-list, a ChatGPT
/// login (either kind) is accepted everywhere, and the remaining kinds are
/// refused everywhere; an API key is accepted exactly where the host rule
/// accepts the URL.
pub proof fn lemma_only_api_keys_meet_the_host_rule(
    m: AuthMode,
    parsed_a: Result<crate::remote_host::RemoteUrlView, Seq<char>>,
    allowed_a: Seq<Seq<char>>,
    parsed_b: Result<crate::remote_host::RemoteUrlView, Seq<char>>,
    allowed_b: Seq<Seq<char>>,
)
    ensures
        !(m is ApiKey) ==> spec_remote_auth_verdict(Some(m), parsed_a, allowed_a)
            == spec_remote_auth_verdict(Some(m), parsed_b, allowed_b),
        (m is Chatgpt || m is ChatgptAuthTokens) ==> spec_remote_auth_verdict(
            Some(m),
            parsed_a,
            allowed_a,
        ) == Ok::<(), RemoteAuthErrorView>(()),
        (m is PersonalAccessToken || m is AgentIdentity) ==> spec_remote_auth_verdict(
            Some(m),
            parsed_a,
            allowed_a,
        ) == Err::<(), RemoteAuthErrorView>(RemoteAuthErrorView::UnsupportedAuth),
        m is ApiKey ==> (spec_remote_auth_verdict(Some(m), parsed_a, allowed_a) is Ok
            <==> spec_remote_host_verdict_allowing(parsed_a, allowed_a) is Ok),
        spec_remote_auth_verdict(None, parsed_a, allowed_a) == Err::<(), RemoteAuthErrorView>(
            RemoteAuthErrorView::MissingAuth,
        ),
{
}

/// How registration requests are authenticated.
#[derive(Clone, PartialEq, Eq)]
pub enum AuthProviderPlan {
    /// A signed `AgentAssertion` for the agent task.
    AgentIdentity { agent_runtime_id: String, agent_private_key: String, task_id: String },
    /// `Authorization: Bearer <token>`, with the account headers.
    Bearer { token: Option<String>, account_id: Option<String>, is_fedramp_account: bool },
}

/// Chooses how a login authenticates requests: agent-identity logins sign an
/// assertion, all others send their token as a bearer token.
pub fn auth_provider_from_auth(auth: &AuthSnapshot) -> (r: AuthProviderPlan)
    ensures
        match (auth.mode, auth.agent_identity) {
            (AuthMode::AgentIdentity, Some(rec)) => r == (AuthProviderPlan::AgentIdentity {
                agent_runtime_id: rec.agent_runtime_id,
                agent_private_key: rec.agent_private_key,
                task_id: rec.task_id,
            }),
            _ => r == (AuthProviderPlan::Bearer {
                token: auth.token,
                account_id: auth.account_id,
                is_fedramp_account: auth.is_fedramp_account,
            }),
        },
{
    if let AuthMode::AgentIdentity = auth.mode {
        if let Some(rec) = &auth.agent_identity {
            return AuthProviderPlan::AgentIdentity {
                agent_runtime_id: rec.agent_runtime_id.clone(),
                agent_private_key: rec.agent_private_key.clone(),
                task_id: rec.task_id.clone(),
            };
        }
    }
    AuthProviderPlan::Bearer {
        token: auth.token.clone(),
        account_id: auth.account_id.clone(),
        is_fedramp_account: auth.is_fedramp_account,
    }
}

/// A header as name and value.
pub type Header = (String, String);

/// The model of a header list.
pub open spec fn headers_view(h: Seq<Header>) -> Seq<(Seq<char>, Seq<char>)> {
    h.map_values(|p: Header| (p.0@, p.1@))
}

/// The headers of bearer authentication, in the order they are set: the
/// token, when it makes a valid header value; the account id, when it is a
/// valid value; and the FedRAMP marker for FedRAMP accounts.
pub open spec fn spec_bearer_headers(
    token: Option<Seq<char>>,
    account_id: Option<Seq<char>>,
    is_fedramp_account: bool,
) -> Seq<(Seq<char>, Seq<char>)> {
    let auth = match token {
        Some(t) if is_valid_header_value("Bearer "@ + t) => seq![("authorization"@, "Bearer "@ + t)],
        _ => Seq::empty(),
    };
    let account = match account_id {
        Some(a) if is_valid_header_value(a) => seq![("chatgpt-account-id"@, a)],
        _ => Seq::empty(),
    };
    let fedramp = if is_fedramp_account {
        seq![("x-openai-fedramp"@, "true"@)]
    } else {
        Seq::empty()
    };
    auth + account + fedramp
}

/// The headers that bearer authentication sets.
pub fn bearer_auth_headers(
    token: &Option<String>,
    account_id: &Option<String>,
    is_fedramp_account: bool,
) -> (r: Vec<Header>)
    ensures
        headers_view(r@) == spec_bearer_headers(opt_view(*token), opt_view(*account_id), is_fedramp_account),
        match account_id {
            Some(a) => is_valid_header_value(a@) ==> headers_view(r@).contains(
                ("chatgpt-account-id"@, a@),
            ),
            None => true,
        },
        is_fedramp_account ==> headers_view(r@).contains(("x-openai-fedramp"@, "true"@)),
{
    let mut out: Vec<Header> = Vec::new();
    if let Some(t) = token {
        let mut value = String::from_str("Bearer ");
        value.append(t.as_str());
        if header_value_accepted(value.as_str()) {
            out.push((String::from_str("authorization"), value));
        }
    }
    let ghost first = out@;
    if let Some(a) = account_id {
        if header_value_accepted(a.as_str()) {
            out.push((String::from_str("chatgpt-account-id"), a.clone()));
        }
    }
    let ghost second = out@;
    if is_fedramp_account {
        out.push((String::from_str("x-openai-fedramp"), String::from_str("true")));
    }
    proof {
        let auth = match opt_view(*token) {
            Some(t) if is_valid_header_value("Bearer "@ + t) => seq![("authorization"@, "Bearer "@ + t)],
            _ => Seq::<(Seq<char>, Seq<char>)>::empty(),
        };
        assert(headers_view(first) =~= auth);
        let account = match opt_view(*account_id) {
            Some(a) if is_valid_header_value(a) => seq![("chatgpt-account-id"@, a)],
            _ => Seq::<(Seq<char>, Seq<char>)>::empty(),
        };
        assert(headers_view(second) =~= auth + account);
        assert(headers_view(out@) =~= spec_bearer_headers(
            opt_view(*token),
            opt_view(*account_id),
            is_fedramp_account,
        ));
        lemma_bearer_headers_carry_login(opt_view(*token), opt_view(*account_id), is_fedramp_account);
    }
    out
}

/// Bearer authentication sends what the login holds: the token as
/// `Authorization: Bearer <token>` first, when that is a valid value; the
/// account id whenever it is a valid value, FedRAMP or not; and the FedRAMP
/// marker exactly for FedRAMP accounts.
pub proof fn lemma_bearer_headers_carry_login(
    token: Option<Seq<char>>,
    account_id: Option<Seq<char>>,
    is_fedramp_account: bool,
)
    ensures
        match account_id {
            Some(a) => is_valid_header_value(a) ==> spec_bearer_headers(
                token,
                account_id,
                is_fedramp_account,
            ).contains(("chatgpt-account-id"@, a)),
            None => true,
        },
        is_fedramp_account ==> spec_bearer_headers(token, account_id, is_fedramp_account).contains(
            ("x-openai-fedramp"@, "true"@),
        ),
        match token {
            Some(t) => is_valid_header_value("Bearer "@ + t) ==> spec_bearer_headers(
                token,
                account_id,
                is_fedramp_account,
            )[0] == ("authorization"@, "Bearer "@ + t),
            None => true,
        },
        spec_bearer_headers(token, account_id, is_fedramp_account).len() == (match token {
            Some(t) => if is_valid_header_value("Bearer "@ + t) {
                1int
            } else {
                0int
            },
            None => 0int,
        }) + (match account_id {
            Some(a) => if is_valid_header_value(a) {
                1int
            } else {
                0int
            },
            None => 0int,
        }) + (if is_fedramp_account {
            1int
        } else {
            0int
        }),
{
    let auth = match token {
        Some(t) if is_valid_header_value("Bearer "@ + t) => seq![("authorization"@, "Bearer "@ + t)],
        _ => Seq::<(Seq<char>, Seq<char>)>::empty(),
    };
    let account = match account_id {
        Some(a) if is_valid_header_value(a) => seq![("chatgpt-account-id"@, a)],
        _ => Seq::<(Seq<char>, Seq<char>)>::empty(),
    };
    let fedramp = if is_fedramp_account {
        seq![("x-openai-fedramp"@, "true"@)]
    } else {
        Seq::<(Seq<char>, Seq<char>)>::empty()
    };
    let all = spec_bearer_headers(token, account_id, is_fedramp_account);
    assert(all =~= auth + account + fedramp);
    match account_id {
        Some(a) => {
            if is_valid_header_value(a) {
                assert(all[auth.len() as int] == ("chatgpt-account-id"@, a));
            }
        },
        None => {},
    }
    if is_fedramp_account {
        assert(all[(auth.len() + account.len()) as int] == ("x-openai-fedramp"@, "true"@));
    }
}

/// The header of agent-identity authentication: the signed assertion, when
/// signing succeeded and it makes a valid header value.
pub open spec fn spec_agent_identity_headers(assertion: Option<Seq<char>>) -> Seq<(Seq<char>, Seq<char>)> {
    match assertion {
        Some(v) if is_valid_header_value(v) => seq![("authorization"@, v)],
        _ => Seq::empty(),
    }
}

/// The headers that agent-identity authentication sets, given the signed
/// authorization value (`None` when signing failed).
pub fn agent_identity_auth_headers(assertion: &Option<String>) -> (r: Vec<Header>)
    ensures
        headers_view(r@) == spec_agent_identity_headers(opt_view(*assertion)),
{
    let mut out: Vec<Header> = Vec::new();
    if let Some(v) = assertion {
        if header_value_accepted(v.as_str()) {
            out.push((String::from_str("authorization"), v.clone()));
        }
    }
    proof {
        assert(headers_view(out@) =~= spec_agent_identity_headers(opt_view(*assertion)));
    }
    out
}

impl AuthProviderPlan {
    /// The headers this authentication sets; `assertion` is the signed
    /// agent-task authorization (`None` when signing failed), which only
    /// agent-identity authentication reads.
    pub fn to_auth_headers(&self, assertion: &Option<String>) -> (r: Vec<Header>)
        ensures
            headers_view(r@) == match self {
                AuthProviderPlan::AgentIdentity { .. } => spec_agent_identity_headers(opt_view(*assertion)),
                AuthProviderPlan::Bearer { token, account_id, is_fedramp_account } => spec_bearer_headers(
                    opt_view(*token),
                    opt_view(*account_id),
                    *is_fedramp_account,
                ),
            },
    {
        match self {
            AuthProviderPlan::AgentIdentity { .. } => agent_identity_auth_headers(assertion),
            AuthProviderPlan::Bearer { token, account_id, is_fedramp_account } => bearer_auth_headers(
                token,
                account_id,
                *is_fedramp_account,
            ),
        }
    }
}

/// An authentication that attaches no credentials.
#[derive(Debug, Clone, Copy)]
pub struct UnauthenticatedAuthProvider;

impl UnauthenticatedAuthProvider {
    /// The headers it sets: none.
    pub fn auth_headers(&self) -> (r: Vec<Header>)
        ensures
            r@.len() == 0,
    {
        Vec::new()
    }
}

/// Builds the authentication that attaches no credentials.
pub fn unauthenticated_auth_provider() -> (r: UnauthenticatedAuthProvider)
    ensures
        r == UnauthenticatedAuthProvider,
{
    UnauthenticatedAuthProvider
}

/// Every header that bearer authentication sets has a valid value.
pub proof fn lemma_bearer_headers_valid(
    token: Option<Seq<char>>,
    account_id: Option<Seq<char>>,
    is_fedramp_account: bool,
)
    ensures
        forall|i: int|
            0 <= i < spec_bearer_headers(token, account_id, is_fedramp_account).len()
                ==> is_valid_header_value(
                #[trigger] spec_bearer_headers(token, account_id, is_fedramp_account)[i].1,
            ),
{
    reveal_strlit("true");
    let auth = match token {
        Some(t) if is_valid_header_value("Bearer "@ + t) => seq![("authorization"@, "Bearer "@ + t)],
        _ => Seq::<(Seq<char>, Seq<char>)>::empty(),
    };
    let account = match account_id {
        Some(a) if is_valid_header_value(a) => seq![("chatgpt-account-id"@, a)],
        _ => Seq::<(Seq<char>, Seq<char>)>::empty(),
    };
    let fedramp = if is_fedramp_account {
        seq![("x-openai-fedramp"@, "true"@)]
    } else {
        Seq::<(Seq<char>, Seq<char>)>::empty()
    };
    assert(is_valid_header_value("true"@));
    let all = spec_bearer_headers(token, account_id, is_fedramp_account);
    assert(all =~= auth + account + fedramp);
    assert forall|i: int| 0 <= i < all.len() implies is_valid_header_value(#[trigger] all[i].1) by {
        if i < auth.len() {
            assert(all[i] == auth[i]);
        } else if i < auth.len() + account.len() {
            assert(all[i] == account[i - auth.len()]);
        } else {
            assert(all[i] == fedramp[i - auth.len() - account.len()]);
        }
    }
}

/// Agent-identity authentication only sets a valid header value.
pub proof fn lemma_agent_identity_headers_valid(assertion: Option<Seq<char>>)
    ensures
        forall|i: int|
            0 <= i < spec_agent_identity_headers(assertion).len() ==> is_valid_header_value(
                #[trigger] spec_agent_identity_headers(assertion)[i].1,
            ),
{
}

} // verus!
