use agentx::config::{agent_identity_base_url_allowed, ExecServerConfig};
use agentx::remote_host::parse_allowed_hosts;
use agentx::login::{AuthCredentialsStoreMode, AuthKeyringBackendKind};
use agentx::state::{socket_path_is_stale, RemoteControlEnrollmentRecord, StateRuntime};

fn record() -> RemoteControlEnrollmentRecord {
    RemoteControlEnrollmentRecord {
        websocket_url: "wss://x".to_string(),
        account_id: "a".to_string(),
        app_server_client_name: None,
        server_id: "s".to_string(),
        environment_id: "e".to_string(),
        server_name: "n".to_string(),
        remote_control_enabled: Some(true),
    }
}

#[test]
fn state_runtime_keeps_nothing() {
    let rt = StateRuntime::init(std::path::PathBuf::from("/tmp"), "p".to_string()).unwrap();
    assert_eq!(rt.upsert_remote_control_enrollment(&record()), Ok(()));
    assert_eq!(rt.get_remote_control_enrollment("wss://x", "a", None), Ok(None));
    assert_eq!(rt.delete_remote_control_enrollment("wss://x", "a", Some("c")), Ok(0));
    assert_eq!(rt.set_remote_control_enabled("wss://x", "a", None, true), Ok(0));
}

#[test]
fn stale_socket_rule() {
    assert!(!socket_path_is_stale(false, false, false));
    assert!(socket_path_is_stale(true, false, false));
    assert!(!socket_path_is_stale(true, true, false));
    assert!(socket_path_is_stale(true, true, true));
}

#[test]
fn exec_server_config_values() {
    let config = ExecServerConfig::default();
    assert_eq!(config.chatgpt_base_url(), "https://chatgpt.com/backend-api");
    assert_eq!(config.codex_home(Some(b"/home/u".to_vec())), b"/home/u/.codex".to_vec());
    assert_eq!(config.codex_home(None), b"./.codex".to_vec());
    assert_eq!(config.cli_auth_credentials_store_mode(), AuthCredentialsStoreMode::File);
    assert_eq!(config.auth_keyring_backend_kind(), AuthKeyringBackendKind::Direct);
    assert_eq!(config.forced_chatgpt_workspace_id(), None);
}

#[test]
fn agent_identity_base_url_allow_list() {
    let none: Vec<String> = Vec::new();
    assert!(agent_identity_base_url_allowed("https://chatgpt.com/backend-api", &none));
    assert!(agent_identity_base_url_allowed("https://chatgpt.com/backend-api/", &none));
    assert!(!agent_identity_base_url_allowed("https://auth.example.com", &none));
    let allowed = parse_allowed_hosts(" https://auth.example.com/ , https://other.example.org");
    assert!(agent_identity_base_url_allowed("https://auth.example.com", &allowed));
    assert!(agent_identity_base_url_allowed("https://other.example.org//", &allowed));
    assert!(!agent_identity_base_url_allowed("https://auth.example.com/v2", &allowed));
    assert!(!agent_identity_base_url_allowed("https://AUTH.example.com", &allowed));
    let default = ExecServerConfig::default();
    assert!(agent_identity_base_url_allowed(&default.chatgpt_base_url, &none));
}
