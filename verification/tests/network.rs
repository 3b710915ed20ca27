use agentx::network_policy::{
    NetworkApprovalProtocol, NetworkDecisionSource, NetworkPolicyDecision,
    NetworkPolicyDecisionPayload,
};
use agentx::network_proxy::{has_proxy_url_env_vars, proxy_url_env_value, NetworkProxy, PROXY_URL_ENV_KEYS};

fn payload(decision: NetworkPolicyDecision, source: NetworkDecisionSource) -> NetworkPolicyDecisionPayload {
    NetworkPolicyDecisionPayload {
        decision,
        source,
        protocol: Some(NetworkApprovalProtocol::Https),
        host: Some("example.com".to_string()),
        reason: None,
        port: Some(443),
    }
}

fn env(v: &[(&str, &str)]) -> Vec<(String, String)> {
    v.iter().map(|(a, b)| (a.to_string(), b.to_string())).collect()
}

#[test]
fn ask_from_decider_only() {
    assert!(payload(NetworkPolicyDecision::Ask, NetworkDecisionSource::Decider).is_ask_from_decider());
    assert!(!payload(NetworkPolicyDecision::Ask, NetworkDecisionSource::Policy).is_ask_from_decider());
    assert!(!payload(NetworkPolicyDecision::Deny, NetworkDecisionSource::Decider).is_ask_from_decider());
    assert!(!payload(NetworkPolicyDecision::Allow, NetworkDecisionSource::Default).is_ask_from_decider());
}

#[test]
fn proxy_env_detection() {
    assert_eq!(PROXY_URL_ENV_KEYS.len(), 6);
    assert!(!has_proxy_url_env_vars(&env(&[("PATH", "/bin")])));
    assert!(!has_proxy_url_env_vars(&env(&[("HTTPS_PROXY", "")])));
    assert!(has_proxy_url_env_vars(&env(&[("PATH", "/bin"), ("all_proxy", "socks5://h")])));
    assert!(!has_proxy_url_env_vars(&env(&[("Http_Proxy", "x")])));
}

#[test]
fn proxy_env_value() {
    let e = env(&[("http_proxy", "http://p:1"), ("ALL_PROXY", "")]);
    assert_eq!(proxy_url_env_value(&e, "http_proxy"), Some("http://p:1"));
    assert_eq!(proxy_url_env_value(&e, "ALL_PROXY"), None);
    assert_eq!(proxy_url_env_value(&e, "HTTP_PROXY"), None);
}

#[test]
fn proxy_is_inert() {
    let proxy = NetworkProxy;
    let mut e = env(&[("A", "1")]);
    assert_eq!(proxy.apply_to_env_for_optional_environment(&mut e, Some("env")), Ok(()));
    assert_eq!(e, env(&[("A", "1")]));
    assert!(!proxy.dangerously_allow_all_unix_sockets());
    assert!(proxy.allow_unix_sockets().is_empty());
    assert!(!proxy.allow_local_binding());
    assert!(NetworkProxy::managed_mitm_ca_trust_bundle_path(&proxy).is_none());
}
