use agentx::auth::AuthProviderPlan;
use agentx::registry::{
    classify_registry_response, endpoint_url, environment_registry_auth_error,
    environment_registry_http_error, normalize_base_url, normalize_environment_id,
    preview_error_body, registration_request, registration_url, registry_error_message,
    status_display, ExecServerError, RegistryErrorBody, RegistryErrorDetail, RegistryResponse,
    RemoteEnvironmentConfig,
};

fn static_registry_auth_provider() -> AuthProviderPlan {
    AuthProviderPlan::Bearer {
        token: Some("registry-token".to_string()),
        account_id: Some("workspace-123".to_string()),
        is_fedramp_account: false,
    }
}

fn body(code: Option<&str>, message: Option<&str>) -> Option<RegistryErrorBody> {
    Some(RegistryErrorBody {
        error: Some(RegistryErrorDetail {
            code: code.map(str::to_string),
            message: message.map(str::to_string),
        }),
    })
}

#[test]
fn remote_environment_config_rejects_empty_environment_id() {
    let result = RemoteEnvironmentConfig::new(
        "https://registry.example".to_string(),
        "   ".to_string(),
        static_registry_auth_provider(),
    );
    assert!(result.is_err());
}

#[test]
fn remote_environment_config_trims_id_and_names_executor() {
    let config =
        RemoteEnvironmentConfig::new(
        "https://registry.example/".to_string(),
        "  env-1\n".to_string(),
        static_registry_auth_provider(),
    )
            .expect("config");
    assert_eq!(config.environment_id, "env-1");
    assert_eq!(config.base_url, "https://registry.example/");
    assert_eq!(config.name, "agentx-exec-server");
}

#[test]
fn environment_id_error_message() {
    assert_eq!(
        normalize_environment_id("\t".to_string()),
        Err(ExecServerError::EnvironmentRegistryConfig(
            "environment id is required for remote exec-server registration".to_string()
        ))
    );
    assert_eq!(normalize_environment_id(" a b ".to_string()), Ok("a b".to_string()));
}

#[test]
fn base_url_is_trimmed_of_space_and_trailing_slashes() {
    assert_eq!(
        normalize_base_url("  https://gw.example/api///  ".to_string()),
        Ok("https://gw.example/api".to_string())
    );
    assert_eq!(
        normalize_base_url(" // ".to_string()),
        Err(ExecServerError::EnvironmentRegistryConfig(
            "environment registry base URL is required".to_string()
        ))
    );
}

#[test]
fn endpoint_url_has_single_slash() {
    assert_eq!(endpoint_url("https://gw", "/a/b"), "https://gw/a/b");
    assert_eq!(endpoint_url("https://gw", "//a"), "https://gw/a");
    assert_eq!(endpoint_url("https://gw", "a"), "https://gw/a");
}

#[test]
fn registration_url_and_body() {
    assert_eq!(
        registration_url("https://gw.test", "environment-requested"),
        "https://gw.test/agentx/environment/environment-requested/register"
    );
    let request = registration_request("env-9");
    assert_eq!(request.id, "env-9");
    assert_eq!(request.public_key, "");
}

#[test]
fn preview_trims_and_truncates() {
    assert_eq!(preview_error_body(" \n\t "), None);
    assert_eq!(preview_error_body("  oops \n"), Some("oops".to_string()));
    let long = "x".repeat(5000);
    assert_eq!(preview_error_body(&long).map(|p| p.chars().count()), Some(4096));
    assert_eq!(preview_error_body("\u{3000}\u{e9}t\u{e9}\u{2028}"), Some("\u{e9}t\u{e9}".to_string()));
}

#[test]
fn error_message_prefers_json_message() {
    assert_eq!(
        registry_error_message(&body(Some("c"), Some("denied")), "{...}"),
        Some("denied".to_string())
    );
    assert_eq!(registry_error_message(&body(Some("c"), None), " raw "), Some("raw".to_string()));
    assert_eq!(registry_error_message(&None, ""), None);
}

#[test]
fn status_is_displayed_with_reason() {
    assert_eq!(status_display(401), "401 Unauthorized");
    assert_eq!(status_display(302), "302 Found");
    assert_eq!(status_display(599), "599 <unknown status code>");
}

#[test]
fn auth_error_message() {
    assert_eq!(
        environment_registry_auth_error(403, &body(None, Some("bad token")), "{}"),
        ExecServerError::EnvironmentRegistryAuth(
            "environment registry authentication failed (403 Forbidden): bad token".to_string()
        )
    );
    assert_eq!(
        environment_registry_auth_error(401, &None, ""),
        ExecServerError::EnvironmentRegistryAuth(
            "environment registry authentication failed (401 Unauthorized): empty error body"
                .to_string()
        )
    );
}

#[test]
fn http_error_fields() {
    assert_eq!(
        environment_registry_http_error(500, &body(Some("E1"), Some("boom")), ""),
        ExecServerError::EnvironmentRegistryHttp {
            status: 500,
            code: Some("E1".to_string()),
            message: "boom".to_string()
        }
    );
    assert_eq!(
        environment_registry_http_error(500, &body(Some("E1"), None), ""),
        ExecServerError::EnvironmentRegistryHttp {
            status: 500,
            code: Some("E1".to_string()),
            message: "empty error body".to_string()
        }
    );
    assert_eq!(
        environment_registry_http_error(502, &None, "  "),
        ExecServerError::EnvironmentRegistryHttp {
            status: 502,
            code: None,
            message: "empty or malformed error body".to_string()
        }
    );
    assert_eq!(
        environment_registry_http_error(302, &Some(RegistryErrorBody { error: None }), "<html>"),
        ExecServerError::EnvironmentRegistryHttp {
            status: 302,
            code: None,
            message: "<html>".to_string()
        }
    );
}

#[test]
fn responses_are_classified_by_status() {
    assert_eq!(classify_registry_response(200, &None, ""), RegistryResponse::ReadBody);
    assert_eq!(classify_registry_response(299, &None, ""), RegistryResponse::ReadBody);
    assert!(matches!(
        classify_registry_response(401, &None, ""),
        RegistryResponse::Failed(ExecServerError::EnvironmentRegistryAuth(_))
    ));
    assert!(matches!(
        classify_registry_response(302, &None, ""),
        RegistryResponse::Failed(ExecServerError::EnvironmentRegistryHttp { status: 302, .. })
    ));
    assert!(matches!(
        classify_registry_response(404, &None, ""),
        RegistryResponse::Failed(ExecServerError::EnvironmentRegistryHttp { status: 404, .. })
    ));
}

#[test]
fn endpoint_under_normalized_base_has_one_slash() {
    let base = normalize_base_url(" https://gw.example/// ".to_string()).unwrap();
    assert_eq!(endpoint_url(&base, "//agentx/x"), "https://gw.example/agentx/x");
    let id = normalize_environment_id("  env  ".to_string()).unwrap();
    assert_eq!(normalize_environment_id(id.clone()), Ok(id));
}

#[test]
fn base_url_normalization_is_not_idempotent_on_space_before_slash() {
    let once = normalize_base_url("https://gw /".to_string()).unwrap();
    assert_eq!(once, "https://gw ");
    assert_eq!(normalize_base_url(once).unwrap(), "https://gw");
}

#[test]
fn debug_output_redacts_auth_provider() {
    let config = RemoteEnvironmentConfig::new(
        "https://registry.example".to_string(),
        "env-1".to_string(),
        static_registry_auth_provider(),
    )
    .expect("config");

    let debug = config.debug_text();

    assert!(debug.contains("<redacted>"));
    assert!(!debug.contains("workspace-123"));
    assert!(!debug.contains("registry-token"));
    assert_eq!(
        debug,
        "RemoteEnvironmentConfig { base_url: \"https://registry.example\", environment_id: \"env-1\", name: \"agentx-exec-server\", auth_provider: \"<redacted>\" }"
    );
    let mut named = config.clone();
    named.name = "my \"laptop\"".to_string();
    assert!(named.debug_text().contains("name: \"my \\\"laptop\\\"\", auth_provider"));
}
