use agentx::auth::{
    agent_identity_auth_headers, auth_provider_from_auth, bearer_auth_headers, check_remote_auth,
    is_supported_exec_server_remote_auth, require_agent_identity_token, AgentIdentityCredentials,
    AuthMode, AuthProviderPlan, AuthSnapshot, RemoteAuthError, UnauthenticatedAuthProvider,
    unauthenticated_auth_provider,
};
use agentx::remote_host::RemoteHostError;

fn snapshot(mode: AuthMode) -> AuthSnapshot {
    AuthSnapshot {
        mode,
        token: Some("tok".to_string()),
        account_id: Some("acct".to_string()),
        is_fedramp_account: false,
        agent_identity: None,
    }
}

fn pairs(v: &[(&str, &str)]) -> Vec<(String, String)> {
    v.iter().map(|(a, b)| (a.to_string(), b.to_string())).collect()
}

#[test]
fn exec_server_remote_auth_accepts_api_key_auth() {
    let auth = AuthSnapshot::from_api_key("sk-test");

    assert!(is_supported_exec_server_remote_auth(&auth));
}

#[test]
fn auth_provider_from_api_key_injects_bearer_header() {
    let auth = AuthSnapshot::from_api_key("sk-test-key");
    let provider = auth_provider_from_auth(&auth);
    let headers = provider.to_auth_headers(&None);

    let authorization = headers
        .iter()
        .find(|(name, _)| name == "authorization")
        .map(|(_, value)| value.clone())
        .expect("Authorization header must be present for ApiKey auth");

    assert!(
        authorization.starts_with("Bearer "),
        "ApiKey auth must produce a Bearer Authorization header, got: {authorization}"
    );
    assert!(
        authorization.contains("sk-test-key"),
        "Bearer header must contain the api key, got: {authorization}"
    );
}

#[test]
fn auth_provider_from_chatgpt_auth_injects_bearer_header() {
    let auth = AuthSnapshot {
        mode: AuthMode::Chatgpt,
        token: Some("Access Token".to_string()),
        account_id: Some("account_id".to_string()),
        is_fedramp_account: false,
        agent_identity: None,
    };
    let provider = auth_provider_from_auth(&auth);
    let headers = provider.to_auth_headers(&None);

    let authorization = headers
        .iter()
        .find(|(name, _)| name == "authorization")
        .map(|(_, value)| value.clone())
        .expect("Authorization header must be present for Chatgpt auth");

    assert!(
        authorization.starts_with("Bearer "),
        "Chatgpt auth must produce a Bearer Authorization header, got: {authorization}"
    );
}

#[test]
fn supported_modes() {
    assert!(is_supported_exec_server_remote_auth(&snapshot(AuthMode::Chatgpt)));
    assert!(is_supported_exec_server_remote_auth(&snapshot(AuthMode::ChatgptAuthTokens)));
    assert!(!is_supported_exec_server_remote_auth(&snapshot(AuthMode::PersonalAccessToken)));
    assert!(!is_supported_exec_server_remote_auth(&snapshot(AuthMode::AgentIdentity)));
}

#[test]
fn bearer_headers_in_order() {
    assert_eq!(
        bearer_auth_headers(&Some("t".to_string()), &Some("acct".to_string()), true),
        pairs(&[
            ("authorization", "Bearer t"),
            ("chatgpt-account-id", "acct"),
            ("x-openai-fedramp", "true")
        ])
    );
    assert_eq!(bearer_auth_headers(&None, &None, false), pairs(&[]));
}

#[test]
fn invalid_header_values_are_skipped() {
    assert_eq!(
        bearer_auth_headers(&Some("bad\ntoken".to_string()), &Some("a\u{7f}".to_string()), false),
        pairs(&[])
    );
    assert_eq!(agent_identity_auth_headers(&Some("x\r".to_string())), pairs(&[]));
    assert_eq!(
        agent_identity_auth_headers(&Some("AgentAssertion abc".to_string())),
        pairs(&[("authorization", "AgentAssertion abc")])
    );
    assert_eq!(agent_identity_auth_headers(&None), pairs(&[]));
}

#[test]
fn agent_identity_login_signs_assertions() {
    let mut auth = snapshot(AuthMode::AgentIdentity);
    auth.agent_identity = Some(AgentIdentityCredentials {
        agent_runtime_id: "rt".to_string(),
        agent_private_key: "key".to_string(),
        task_id: "task".to_string(),
    });
    let plan = auth_provider_from_auth(&auth);
    assert!(
        plan == AuthProviderPlan::AgentIdentity {
            agent_runtime_id: "rt".to_string(),
            agent_private_key: "key".to_string(),
            task_id: "task".to_string()
        }
    );
    assert_eq!(
        plan.to_auth_headers(&Some("AgentAssertion s".to_string())),
        pairs(&[("authorization", "AgentAssertion s")])
    );
}

#[test]
fn remote_auth_decisions() {
    assert_eq!(check_remote_auth(&None, "https://x", &[]), Err(RemoteAuthError::MissingAuth));
    assert_eq!(
        check_remote_auth(&Some(snapshot(AuthMode::PersonalAccessToken)), "https://openai.com", &[]),
        Err(RemoteAuthError::UnsupportedAuth)
    );
    assert_eq!(check_remote_auth(&Some(snapshot(AuthMode::Chatgpt)), "http://anything.example", &[]), Ok(()));
    assert_eq!(
        check_remote_auth(&Some(AuthSnapshot::from_api_key("k")), "http://openai.com", &[]),
        Err(RemoteAuthError::Host(RemoteHostError::NotAllowed))
    );
    assert_eq!(check_remote_auth(&Some(AuthSnapshot::from_api_key("k")), "https://openai.com", &[]), Ok(()));
}

#[test]
fn remote_auth_uses_allow_list_for_api_keys() {
    let allowed = vec!["gw.example.net".to_string()];
    let key = Some(AuthSnapshot::from_api_key("k"));
    assert_eq!(check_remote_auth(&key, "https://GW.example.net/api", &allowed), Ok(()));
    assert_eq!(
        check_remote_auth(&key, "http://gw.example.net/api", &allowed),
        Err(RemoteAuthError::Host(RemoteHostError::NotAllowed))
    );
    assert_eq!(
        check_remote_auth(&key, "https://other.example.net/api", &allowed),
        Err(RemoteAuthError::Host(RemoteHostError::NotAllowed))
    );
}

#[test]
fn remote_auth_messages() {
    assert_eq!(
        require_agent_identity_token(None).unwrap_err().message(),
        "AGENTX_ACCESS_TOKEN is required when --use-agent-identity-auth is set"
    );
    assert_eq!(require_agent_identity_token(Some("jwt".to_string())), Ok("jwt".to_string()));
    assert_eq!(
        RemoteAuthError::MissingAuth.message(),
        "remote exec-server registration requires ChatGPT authentication or API key authentication; run `agentx login` or set AGENTX_API_KEY"
    );
    assert_eq!(
        RemoteAuthError::UnsupportedAuth.message(),
        "remote exec-server registration requires ChatGPT authentication or API key authentication; Agent Identity auth requires --use-agent-identity-auth"
    );
    assert_eq!(
        RemoteAuthError::Host(RemoteHostError::MissingHost).message(),
        "remote exec-server registration URL must include a host"
    );
}

#[test]
fn unauthenticated_provider_sets_nothing() {
    assert!(UnauthenticatedAuthProvider.auth_headers().is_empty());
    assert!(unauthenticated_auth_provider().auth_headers().is_empty());
}
