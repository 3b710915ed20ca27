use agentx::arg0::{
    alias_dispatch_paths, alias_names, arg0_action, env_key_allowed, filter_env_entries,
    join_path, linux_sandbox_exe_path, main_dispatch_paths, path_env_after_aliases,
    path_env_with_entry, path_env_with_package_path_dir, path_starts_with, plan_path_env,
    resolve_home_dir, janitor_step, Arg0Action, Arg0DispatchPaths, HomeDir, InstallContext, IoOutcome,
    JanitorAction, JanitorEvent, PackageLayout,
};

const SANDBOX: &str = "codex-linux-sandbox";
const FS_HELPER: &str = "--codex-run-as-fs-helper";

fn b(s: &str) -> Vec<u8> {
    s.as_bytes().to_vec()
}

#[test]
fn dispatch_by_name_and_argument() {
    assert_eq!(arg0_action("codex-execve-wrapper", "", SANDBOX, FS_HELPER, true), Arg0Action::ExecveWrapper);
    assert_eq!(arg0_action("codex-execve-wrapper", "", SANDBOX, FS_HELPER, false), Arg0Action::Continue);
    assert_eq!(arg0_action(SANDBOX, FS_HELPER, SANDBOX, FS_HELPER, true), Arg0Action::LinuxSandbox);
    assert_eq!(arg0_action("apply_patch", "", SANDBOX, FS_HELPER, true), Arg0Action::ApplyPatch);
    assert_eq!(arg0_action("applypatch", "", SANDBOX, FS_HELPER, true), Arg0Action::ApplyPatch);
    assert_eq!(arg0_action("agentx", FS_HELPER, SANDBOX, FS_HELPER, true), Arg0Action::FsHelper);
    assert_eq!(
        arg0_action("agentx", "--codex-run-as-apply-patch", SANDBOX, FS_HELPER, true),
        Arg0Action::UnsupportedApplyPatchFlag
    );
    assert_eq!(arg0_action("agentx", "--remote", SANDBOX, FS_HELPER, true), Arg0Action::Continue);
}

#[test]
fn path_entry_goes_in_front() {
    assert_eq!(path_env_with_entry(b"/tmp/a", Some(b("/usr/bin:/bin"))), b("/tmp/a:/usr/bin:/bin"));
    assert_eq!(path_env_with_entry(b"/tmp/a", None), b("/tmp/a"));
    assert_eq!(path_env_with_entry(b"/tmp/a", Some(Vec::new())), b("/tmp/a:"));
}

#[test]
fn package_dir_is_used_when_present() {
    let none = InstallContext::current();
    assert_eq!(path_env_with_package_path_dir(&none, Some(b("/bin"))), None);
    let ctx = InstallContext { package_layout: Some(PackageLayout { path_dir: Some(b("/opt/pkg/bin")) }) };
    assert_eq!(path_env_with_package_path_dir(&ctx, Some(b("/bin"))), Some(b("/opt/pkg/bin:/bin")));
    let empty_layout = InstallContext { package_layout: Some(PackageLayout { path_dir: None }) };
    assert_eq!(path_env_with_package_path_dir(&empty_layout, None), None);

    let plan = plan_path_env(&ctx, Some(b("/bin")));
    assert_eq!(plan.package_path, Some(b("/opt/pkg/bin:/bin")));
    assert_eq!(plan.path_for_aliases, Some(b("/opt/pkg/bin:/bin")));
    let plan = plan_path_env(&none, Some(b("/bin")));
    assert_eq!(plan.package_path, None);
    assert_eq!(plan.path_for_aliases, Some(b("/bin")));
}

#[test]
fn path_after_aliases() {
    assert_eq!(path_env_after_aliases(Some(b("x")), Some(b("y"))), Some(b("x")));
    assert_eq!(path_env_after_aliases(None, Some(b("y"))), Some(b("y")));
    assert_eq!(path_env_after_aliases(None, None), None);
}

#[test]
fn join_like_path_join() {
    assert_eq!(join_path(b"/tmp/dir", "apply_patch"), b("/tmp/dir/apply_patch"));
    assert_eq!(join_path(b"/tmp/dir/", "apply_patch"), b("/tmp/dir/apply_patch"));
    assert_eq!(join_path(b"", "x"), b("x"));
    assert_eq!(join_path(b"/tmp", "/abs"), b("/abs"));
    for (dir, name) in [("/a/b", "c"), ("rel", ".lock"), ("/", "x")] {
        let expected = std::path::Path::new(dir).join(name);
        assert_eq!(join_path(dir.as_bytes(), name), expected.to_str().unwrap().as_bytes().to_vec());
    }
}

#[test]
fn alias_list_by_platform() {
    assert_eq!(alias_names(true, true, SANDBOX), vec!["apply_patch", "applypatch", SANDBOX, "codex-execve-wrapper"]);
    assert_eq!(alias_names(false, true, SANDBOX), vec!["apply_patch", "applypatch", "codex-execve-wrapper"]);
    assert_eq!(alias_names(false, false, SANDBOX), vec!["apply_patch", "applypatch"]);
}

#[test]
fn alias_paths_of_directory() {
    let paths = alias_dispatch_paths(b"/h/tmp/arg0/x", Some(b("/bin/agentx")), true, true, SANDBOX);
    assert_eq!(paths.codex_self_exe, Some(b("/bin/agentx")));
    assert_eq!(paths.codex_linux_sandbox_exe, Some(b("/h/tmp/arg0/x/codex-linux-sandbox")));
    assert_eq!(paths.main_execve_wrapper_exe, Some(b("/h/tmp/arg0/x/codex-execve-wrapper")));
    let paths = alias_dispatch_paths(b"/d", None, false, false, SANDBOX);
    assert_eq!(paths, Arg0DispatchPaths::empty());
}

#[test]
fn sandbox_exe_prefers_alias() {
    let guard = Arg0DispatchPaths {
        codex_self_exe: None,
        codex_linux_sandbox_exe: Some(b("/alias/sb")),
        main_execve_wrapper_exe: Some(b("/alias/wr")),
    };
    assert_eq!(linux_sandbox_exe_path(Some(&guard), Some(b("/exe"))), Some(b("/alias/sb")));
    assert_eq!(linux_sandbox_exe_path(None, Some(b("/exe"))), Some(b("/exe")));
    let no_alias = Arg0DispatchPaths::empty();
    assert_eq!(linux_sandbox_exe_path(Some(&no_alias), None), None);

    let main = main_dispatch_paths(Some(&guard), Some(b("/exe")), true);
    assert_eq!(
        main,
        Arg0DispatchPaths {
            codex_self_exe: Some(b("/exe")),
            codex_linux_sandbox_exe: Some(b("/alias/sb")),
            main_execve_wrapper_exe: Some(b("/alias/wr")),
        }
    );
    let main = main_dispatch_paths(None, Some(b("/exe")), false);
    assert_eq!(main.codex_linux_sandbox_exe, None);
    assert_eq!(main.main_execve_wrapper_exe, None);
}

#[test]
fn dotenv_cannot_set_reserved_keys() {
    assert!(!env_key_allowed("AGENTX_API_KEY"));
    assert!(!env_key_allowed("agentx_home"));
    assert!(!env_key_allowed("AgentX_"));
    assert!(env_key_allowed("AGENTX"));
    assert!(env_key_allowed("MY_AGENTX_VAR"));
    let kept = filter_env_entries(vec![
        ("A".to_string(), "1".to_string()),
        ("agentx_x".to_string(), "2".to_string()),
        ("B".to_string(), "3".to_string()),
    ]);
    assert_eq!(kept, vec![("A".to_string(), "1".to_string()), ("B".to_string(), "3".to_string())]);
}

#[test]
fn home_resolution_order() {
    let s = |v: &str| Some(v.to_string());
    assert_eq!(resolve_home_dir(s("/x"), s("/h"), s("/u")), Some(HomeDir::Exact("/x".to_string())));
    assert_eq!(resolve_home_dir(None, s("/h"), s("/u")), Some(HomeDir::UnderUser("/h".to_string())));
    assert_eq!(resolve_home_dir(None, None, s("/u")), Some(HomeDir::UnderUser("/u".to_string())));
    assert_eq!(resolve_home_dir(None, None, None), None);
}

#[test]
fn component_prefix() {
    let c = |v: &[&str]| v.iter().map(|s| s.to_string()).collect::<Vec<_>>();
    assert!(path_starts_with(&c(&["/", "tmp", "x"]), &c(&["/", "tmp"])));
    assert!(!path_starts_with(&c(&["/", "tmpx"]), &c(&["/", "tmp"])));
    assert!(!path_starts_with(&c(&["/"]), &c(&["/", "tmp"])));
    assert!(path_starts_with(&c(&["a"]), &c(&[])));
}

#[test]
fn janitor_removes_only_unlocked_directories() {
    assert_eq!(janitor_step(JanitorEvent::RootListed(IoOutcome::Done)), JanitorAction::ScanEntries);
    assert_eq!(janitor_step(JanitorEvent::RootListed(IoOutcome::NotFound)), JanitorAction::Finish);
    assert_eq!(janitor_step(JanitorEvent::RootListed(IoOutcome::Failed)), JanitorAction::Fail);
    assert_eq!(janitor_step(JanitorEvent::EntryFound { is_dir: true }), JanitorAction::OpenLock);
    assert_eq!(janitor_step(JanitorEvent::EntryFound { is_dir: false }), JanitorAction::NextEntry);
    assert_eq!(janitor_step(JanitorEvent::LockOpened(IoOutcome::Done)), JanitorAction::TryLock);
    assert_eq!(janitor_step(JanitorEvent::LockOpened(IoOutcome::NotFound)), JanitorAction::NextEntry);
    assert_eq!(janitor_step(JanitorEvent::LockOpened(IoOutcome::Failed)), JanitorAction::Fail);
    assert_eq!(janitor_step(JanitorEvent::LockTried(IoOutcome::Done)), JanitorAction::Remove);
    assert_eq!(janitor_step(JanitorEvent::LockTried(IoOutcome::WouldBlock)), JanitorAction::NextEntry);
    assert_eq!(janitor_step(JanitorEvent::LockTried(IoOutcome::Failed)), JanitorAction::Fail);
    assert_eq!(janitor_step(JanitorEvent::Removed(IoOutcome::Done)), JanitorAction::NextEntry);
    assert_eq!(janitor_step(JanitorEvent::Removed(IoOutcome::NotFound)), JanitorAction::NextEntry);
    assert_eq!(janitor_step(JanitorEvent::Removed(IoOutcome::Failed)), JanitorAction::Fail);
}
