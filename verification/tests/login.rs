use agentx::login::{
    user_agent, AuthCredentialsStoreMode, AuthKeyringBackendKind, DefaultKeyringStore,
    KeyringError, KeyringStore, LocalSecretsNamespace, SecretName, SecretScope, SecretsBackendKind,
    SecretsManager, Template,
};
use std::sync::Arc;

#[test]
fn defaults() {
    assert_eq!(AuthCredentialsStoreMode::default(), AuthCredentialsStoreMode::File);
    assert_eq!(AuthKeyringBackendKind::default(), AuthKeyringBackendKind::Direct);
    assert_eq!(user_agent(), "");
}

#[test]
fn keyring_store_keeps_nothing() {
    let store = DefaultKeyringStore;
    assert_eq!(store.load("svc", "k"), Ok(None));
    assert_eq!(store.save("svc", "k", "v"), Ok(()));
    assert_eq!(store.load("svc", "k"), Ok(None));
    assert_eq!(store.delete("svc", "k"), Ok(false));
    assert_eq!(KeyringError("locked".to_string()).message(), "locked");
}

#[test]
fn secrets_manager_keeps_nothing() {
    let manager = SecretsManager::new_with_keyring_store_and_namespace(
        std::path::PathBuf::from("/tmp/home"),
        SecretsBackendKind::Local,
        Arc::new(DefaultKeyringStore),
        LocalSecretsNamespace::CodexAuth,
    );
    let name = SecretName::new("token".to_string()).expect("name");
    assert_eq!(name.as_str(), "token");
    assert_eq!(manager.set(&SecretScope::Global, &name, "v"), Ok(()));
    assert_eq!(manager.get(&SecretScope::Global, &name), Ok(None));
    assert_eq!(manager.delete(&SecretScope::Global, &name), Ok(false));
}

#[test]
fn template_replaces_placeholders() {
    let t = Template::parse("Hello {{name}}, {{name}}! {{other}} {{missing}}").unwrap();
    let out = t.render(&[("name", "Ann".to_string()), ("other", "x".to_string())]).unwrap();
    assert_eq!(out, "Hello Ann, Ann! x {{missing}}");
}

#[test]
fn template_without_pairs_or_placeholders_is_unchanged() {
    let t = Template::parse("plain {text}").unwrap();
    assert_eq!(t.render(&[]).unwrap(), "plain {text}");
    assert_eq!(t.render(&[("text", "v".to_string())]).unwrap(), "plain {text}");
}

#[test]
fn template_pairs_apply_in_order() {
    let t = Template::parse("{{a}}").unwrap();
    let out = t.render(&[("a", "{{b}}".to_string()), ("b", "done".to_string())]).unwrap();
    assert_eq!(out, "done");
    let t = Template::parse("{{{{}}}}").unwrap();
    assert_eq!(t.render(&[("", "X".to_string())]).unwrap(), "{{X}}");
}
