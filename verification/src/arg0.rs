//! Decisions of the single-binary dispatch: which helper a process name
//! selects, how PATH gains the helper aliases, where the helper executables
//! are found, and which `.env` entries may be applied.
//!
//! Paths are handled as the bytes of a Unix path.
use crate::text::{spec_ascii_upper, starts_with, str_eq, to_ascii_uppercase};
use vstd::prelude::*;
use vstd::string::StringSliceAdditionalSpecFns;

verus! {

/// Process name under which the binary acts as `apply_patch`.
pub const APPLY_PATCH_ARG0: &'static str = "apply_patch";

/// A common misspelling that is dispatched like [`APPLY_PATCH_ARG0`].
pub const MISSPELLED_APPLY_PATCH_ARG0: &'static str = "applypatch";

/// Process name under which the binary acts as the execve wrapper (Unix).
pub const EXECVE_WRAPPER_ARG0: &'static str = "codex-execve-wrapper";

/// First argument that asks for the in-process `apply_patch`, which this
/// build does not support.
pub const CODEX_CORE_APPLY_PATCH_ARG1: &'static str = "--codex-run-as-apply-patch";

/// Name of the lock file in a per-session alias directory.
pub const LOCK_FILENAME: &'static str = ".lock";

/// Prefix of the environment variables that a `.env` file may not set.
pub const ILLEGAL_ENV_VAR_PREFIX: &'static str = "AGENTX_";

/// The byte that separates PATH entries on Unix.
pub const PATH_SEPARATOR: u8 = 58;

/// The byte that separates path components on Unix.
pub const PATH_COMPONENT_SEPARATOR: u8 = 47;

/// What the process is asked to be.
#[derive(Debug, Clone, Copy, PartialEq, Eq, Structural)]
pub enum Arg0Action {
    /// Run the execve wrapper.
    ExecveWrapper,
    /// Run the Linux sandbox.
    LinuxSandbox,
    /// Run `apply_patch`.
    ApplyPatch,
    /// Run the file-system helper.
    FsHelper,
    /// The in-process `apply_patch` flag, which is refused.
    UnsupportedApplyPatchFlag,
    /// Carry on with the regular program.
    Continue,
}

/// The dispatch decision for process name `exe_name` and first argument
/// `argv1`, checked in this order.
pub open spec fn spec_arg0_action(
    exe_name: Seq<char>,
    argv1: Seq<char>,
    linux_sandbox_arg0: Seq<char>,
    fs_helper_arg1: Seq<char>,
    is_unix: bool,
) -> Arg0Action {
    if is_unix && exe_name == EXECVE_WRAPPER_ARG0@ {
        Arg0Action::ExecveWrapper
    } else if exe_name == linux_sandbox_arg0 {
        Arg0Action::LinuxSandbox
    } else if exe_name == APPLY_PATCH_ARG0@ || exe_name == MISSPELLED_APPLY_PATCH_ARG0@ {
        Arg0Action::ApplyPatch
    } else if argv1 == fs_helper_arg1 {
        Arg0Action::FsHelper
    } else if argv1 == CODEX_CORE_APPLY_PATCH_ARG1@ {
        Arg0Action::UnsupportedApplyPatchFlag
    } else {
        Arg0Action::Continue
    }
}

/// Decides what the process is asked to be from its name and first
/// argument; `linux_sandbox_arg0` and `fs_helper_arg1` are the helpers'
/// dispatch names.
pub fn arg0_action(
    exe_name: &str,
    argv1: &str,
    linux_sandbox_arg0: &str,
    fs_helper_arg1: &str,
    is_unix: bool,
) -> (r: Arg0Action)
    ensures
        r == spec_arg0_action(exe_name@, argv1@, linux_sandbox_arg0@, fs_helper_arg1@, is_unix),
        is_unix && exe_name@ == "codex-execve-wrapper"@ ==> r == Arg0Action::ExecveWrapper,
{

    if is_unix && str_eq(exe_name, EXECVE_WRAPPER_ARG0) {
        Arg0Action::ExecveWrapper
    } else if str_eq(exe_name, linux_sandbox_arg0) {
        Arg0Action::LinuxSandbox
    } else if str_eq(exe_name, APPLY_PATCH_ARG0) || str_eq(exe_name, MISSPELLED_APPLY_PATCH_ARG0) {
        Arg0Action::ApplyPatch
    } else if str_eq(argv1, fs_helper_arg1) {
        Arg0Action::FsHelper
    } else if str_eq(argv1, CODEX_CORE_APPLY_PATCH_ARG1) {
        Arg0Action::UnsupportedApplyPatchFlag
    } else {
        Arg0Action::Continue
    }
}

/// The process name alone decides the helpers that are selected by name:
/// on Unix the execve wrapper name selects the wrapper, and otherwise the
/// sandbox name and the `apply_patch` names select their helpers, whatever
/// the first argument. The first argument is read only for the regular
/// program's name.
pub proof fn lemma_name_decides_before_argument(
    exe_name: Seq<char>,
    argv1: Seq<char>,
    other_argv1: Seq<char>,
    linux_sandbox_arg0: Seq<char>,
    fs_helper_arg1: Seq<char>,
    is_unix: bool,
)
    ensures
        is_unix ==> spec_arg0_action(
            "codex-execve-wrapper"@,
            argv1,
            linux_sandbox_arg0,
            fs_helper_arg1,
            is_unix,
        ) == Arg0Action::ExecveWrapper,
        !(is_unix && exe_name == "codex-execve-wrapper"@) && exe_name == linux_sandbox_arg0
            ==> spec_arg0_action(exe_name, argv1, linux_sandbox_arg0, fs_helper_arg1, is_unix)
            == Arg0Action::LinuxSandbox,
        !(is_unix && exe_name == "codex-execve-wrapper"@) && exe_name != linux_sandbox_arg0 && (
        exe_name == "apply_patch"@ || exe_name == "applypatch"@) ==> spec_arg0_action(
            exe_name,
            argv1,
            linux_sandbox_arg0,
            fs_helper_arg1,
            is_unix,
        ) == Arg0Action::ApplyPatch,
        spec_arg0_action(exe_name, argv1, linux_sandbox_arg0, fs_helper_arg1, is_unix)
            is ExecveWrapper || spec_arg0_action(
            exe_name,
            argv1,
            linux_sandbox_arg0,
            fs_helper_arg1,
            is_unix,
        ) is LinuxSandbox || spec_arg0_action(
            exe_name,
            argv1,
            linux_sandbox_arg0,
            fs_helper_arg1,
            is_unix,
        ) is ApplyPatch ==> spec_arg0_action(
            exe_name,
            other_argv1,
            linux_sandbox_arg0,
            fs_helper_arg1,
            is_unix,
        ) == spec_arg0_action(exe_name, argv1, linux_sandbox_arg0, fs_helper_arg1, is_unix),
        !(is_unix && exe_name == "codex-execve-wrapper"@) && exe_name != linux_sandbox_arg0
            && exe_name != "apply_patch"@ && exe_name != "applypatch"@ ==> spec_arg0_action(
            exe_name,
            argv1,
            linux_sandbox_arg0,
            fs_helper_arg1,
            is_unix,
        ) == (if argv1 == fs_helper_arg1 {
            Arg0Action::FsHelper
        } else if argv1 == "--codex-run-as-apply-patch"@ {
            Arg0Action::UnsupportedApplyPatchFlag
        } else {
            Arg0Action::Continue
        }),
{
}

/// Copies an optional byte string.
pub fn clone_bytes(o: &Option<Vec<u8>>) -> (r: Option<Vec<u8>>)
    ensures
        bytes_view(r) == bytes_view(*o),
{
    match o {
        None => None,
        Some(v) => {
            let c = v.clone();
            assert(c@ =~= v@);
            Some(c)
        },
    }
}

/// The model of an optional byte string.
pub open spec fn bytes_view(o: Option<Vec<u8>>) -> Option<Seq<u8>> {
    match o {
        Some(v) => Some(v@),
        None => None,
    }
}

/// Appends `b` to `out`.
fn extend_bytes(out: &mut Vec<u8>, b: &[u8])
    ensures
        final(out)@ == old(out)@ + b@,
{
    let n = b.len();
    let mut i: usize = 0;
    while i < n
        invariant
            n == b@.len(),
            i <= n,
            out@ =~= old(out)@ + b@.take(i as int),
        decreases n - i,
    {
        out.push(b[i]);
        i = i + 1;
    }
    assert(b@.take(n as int) =~= b@);
}

/// A PATH value with `path_entry` in front of `existing`.
pub open spec fn spec_path_env_with_entry(path_entry: Seq<u8>, existing: Option<Seq<u8>>) -> Seq<u8> {
    match existing {
        Some(e) => path_entry + seq![PATH_SEPARATOR] + e,
        None => path_entry,
    }
}

/// Puts `path_entry` in front of the PATH value `existing`.
pub fn path_env_with_entry(path_entry: &[u8], existing: Option<Vec<u8>>) -> (r: Vec<u8>)
    ensures
        r@ == spec_path_env_with_entry(path_entry@, bytes_view(existing)),
{
    let mut out: Vec<u8> = Vec::new();
    extend_bytes(&mut out, path_entry);
    if let Some(e) = existing {
        out.push(PATH_SEPARATOR);
        extend_bytes(&mut out, e.as_slice());
    }
    proof {
        assert(out@ =~= spec_path_env_with_entry(path_entry@, bytes_view(existing)));
    }
    out
}

/// The packaging of an installed binary.
#[derive(Debug, Clone, Default, PartialEq, Eq)]
pub struct PackageLayout {
    /// A directory of the package that belongs on PATH.
    pub path_dir: Option<Vec<u8>>,
}

/// How the binary was installed.
#[derive(Debug, Clone, PartialEq, Eq)]
pub struct InstallContext {
    pub package_layout: Option<PackageLayout>,
}

impl InstallContext {
    /// The install context of the running binary: no package layout.
    pub fn current() -> (r: InstallContext)
        ensures
            r.package_layout is None,
    {
        InstallContext { package_layout: None }
    }
}

/// The package's PATH directory, when the install context has one.
pub open spec fn spec_package_path_dir(c: InstallContext) -> Option<Seq<u8>> {
    match c.package_layout {
        Some(l) => bytes_view(l.path_dir),
        None => None,
    }
}

/// PATH with the package's directory in front, when there is one.
pub open spec fn spec_path_env_with_package_path_dir(
    c: InstallContext,
    existing: Option<Seq<u8>>,
) -> Option<Seq<u8>> {
    match spec_package_path_dir(c) {
        Some(d) => Some(spec_path_env_with_entry(d, existing)),
        None => None,
    }
}

/// Puts the package's PATH directory in front of `existing`, when the
/// install context has one.
pub fn path_env_with_package_path_dir(
    install_context: &InstallContext,
    existing: Option<Vec<u8>>,
) -> (r: Option<Vec<u8>>)
    ensures
        bytes_view(r) == spec_path_env_with_package_path_dir(*install_context, bytes_view(existing)),
{
    match &install_context.package_layout {
        None => None,
        Some(layout) => match &layout.path_dir {
            None => None,
            Some(dir) => Some(path_env_with_entry(dir.as_slice(), existing)),
        },
    }
}

/// The two PATH values that alias preparation starts from.
#[derive(Debug, Clone, PartialEq, Eq)]
pub struct PathPlan {
    /// PATH with the package directory in front, if any.
    pub package_path: Option<Vec<u8>>,
    /// The PATH that the alias directory is put in front of.
    pub path_for_aliases: Option<Vec<u8>>,
}

/// Computes the PATH values for alias preparation: the package directory in
/// front of PATH, and that value (or else PATH itself) as the base for the
/// alias directory.
pub fn plan_path_env(install_context: &InstallContext, existing: Option<Vec<u8>>) -> (r: PathPlan)
    ensures
        bytes_view(r.package_path) == spec_path_env_with_package_path_dir(
            *install_context,
            bytes_view(existing),
        ),
        bytes_view(r.path_for_aliases) == match spec_path_env_with_package_path_dir(
            *install_context,
            bytes_view(existing),
        ) {
            Some(p) => Some(p),
            None => bytes_view(existing),
        },
{
    let package_path = path_env_with_package_path_dir(install_context, clone_bytes(&existing));
    let path_for_aliases = match &package_path {
        Some(_) => clone_bytes(&package_path),
        None => existing,
    };
    PathPlan { package_path, path_for_aliases }
}

/// The PATH to install once alias preparation ended: the prepared value
/// when it succeeded, else the package PATH (if any).
pub fn path_env_after_aliases(prepared: Option<Vec<u8>>, package_path: Option<Vec<u8>>) -> (r: Option<
    Vec<u8>,
>)
    ensures
        bytes_view(r) == match bytes_view(prepared) {
            Some(p) => Some(p),
            None => bytes_view(package_path),
        },
{
    match prepared {
        Some(p) => Some(p),
        None => package_path,
    }
}

/// `name` joined under the directory `dir`: an absolute `name` replaces
/// `dir`; otherwise a separator is put between them unless `dir` is empty or
/// already ends with one.
pub open spec fn spec_join_path(dir: Seq<u8>, name: Seq<u8>) -> Seq<u8> {
    if name.len() > 0 && name[0] == PATH_COMPONENT_SEPARATOR {
        name
    } else if dir.len() > 0 && dir.last() != PATH_COMPONENT_SEPARATOR {
        dir + seq![PATH_COMPONENT_SEPARATOR] + name
    } else {
        dir + name
    }
}

/// Joins the file name `name` under the directory `dir`.
pub fn join_path(dir: &[u8], name: &str) -> (r: Vec<u8>)
    ensures
        r@ == spec_join_path(dir@, name.spec_bytes()),
{
    let nb = name.as_bytes();
    let mut out: Vec<u8> = Vec::new();
    if nb.len() > 0 && nb[0] == PATH_COMPONENT_SEPARATOR {
        extend_bytes(&mut out, nb);
        return out;
    }
    extend_bytes(&mut out, dir);
    if dir.len() > 0 && dir[dir.len() - 1] != PATH_COMPONENT_SEPARATOR {
        out.push(PATH_COMPONENT_SEPARATOR);
    }
    extend_bytes(&mut out, nb);
    out
}

/// Paths of the helper executables handed to the program.
#[derive(Debug, Clone, Default, PartialEq, Eq)]
pub struct Arg0DispatchPaths {
    /// Stable path to the current executable for child re-execs.
    pub codex_self_exe: Option<Vec<u8>>,
    pub codex_linux_sandbox_exe: Option<Vec<u8>>,
    pub main_execve_wrapper_exe: Option<Vec<u8>>,
}

impl Arg0DispatchPaths {
    /// Paths with nothing known.
    pub fn empty() -> (r: Self)
        ensures
            r.codex_self_exe is None,
            r.codex_linux_sandbox_exe is None,
            r.main_execve_wrapper_exe is None,
    {
        Arg0DispatchPaths {
            codex_self_exe: None,
            codex_linux_sandbox_exe: None,
            main_execve_wrapper_exe: None,
        }
    }
}

/// The names of the aliases created in the alias directory.
pub open spec fn spec_alias_names(is_linux: bool, is_unix: bool, linux_sandbox_arg0: Seq<char>) -> Seq<
    Seq<char>,
> {
    seq![APPLY_PATCH_ARG0@, MISSPELLED_APPLY_PATCH_ARG0@] + (if is_linux {
        seq![linux_sandbox_arg0]
    } else {
        Seq::empty()
    }) + (if is_unix {
        seq![EXECVE_WRAPPER_ARG0@]
    } else {
        Seq::empty()
    })
}

/// The aliases of the binary put on PATH: `apply_patch`, its misspelling,
/// the Linux sandbox (on Linux) and the execve wrapper (on Unix).
pub fn alias_names<'a>(is_linux: bool, is_unix: bool, linux_sandbox_arg0: &'a str) -> (r: Vec<&'a str>)
    ensures
        r@.map_values(|s: &str| s@) == spec_alias_names(is_linux, is_unix, linux_sandbox_arg0@),
{
    let mut out: Vec<&'a str> = Vec::new();
    out.push(APPLY_PATCH_ARG0);
    out.push(MISSPELLED_APPLY_PATCH_ARG0);
    if is_linux {
        out.push(linux_sandbox_arg0);
    }
    if is_unix {
        out.push(EXECVE_WRAPPER_ARG0);
    }
    proof {
        assert(out@.map_values(|s: &str| s@) =~= spec_alias_names(
            is_linux,
            is_unix,
            linux_sandbox_arg0@,
        ));
    }
    out
}

/// The helper paths of a freshly prepared alias directory `dir`.
pub fn alias_dispatch_paths(
    dir: &[u8],
    self_exe: Option<Vec<u8>>,
    is_linux: bool,
    is_unix: bool,
    linux_sandbox_arg0: &str,
) -> (r: Arg0DispatchPaths)
    ensures
        bytes_view(r.codex_self_exe) == bytes_view(self_exe),
        bytes_view(r.codex_linux_sandbox_exe) == (if is_linux {
            Some(spec_join_path(dir@, linux_sandbox_arg0.spec_bytes()))
        } else {
            None
        }),
        bytes_view(r.main_execve_wrapper_exe) == (if is_unix {
            Some(spec_join_path(dir@, EXECVE_WRAPPER_ARG0.spec_bytes()))
        } else {
            None
        }),
{
    Arg0DispatchPaths {
        codex_self_exe: self_exe,
        codex_linux_sandbox_exe: if is_linux {
            Some(join_path(dir, linux_sandbox_arg0))
        } else {
            None
        },
        main_execve_wrapper_exe: if is_unix {
            Some(join_path(dir, EXECVE_WRAPPER_ARG0))
        } else {
            None
        },
    }
}

/// The Linux sandbox executable: the alias when there is one, else the
/// current executable.
pub fn linux_sandbox_exe_path(
    guard_paths: Option<&Arg0DispatchPaths>,
    current_exe: Option<Vec<u8>>,
) -> (r: Option<Vec<u8>>)
    ensures
        bytes_view(r) == match guard_paths {
            Some(p) if p.codex_linux_sandbox_exe is Some => bytes_view(p.codex_linux_sandbox_exe),
            _ => bytes_view(current_exe),
        },
{
    match guard_paths {
        Some(p) => match &p.codex_linux_sandbox_exe {
            Some(_) => clone_bytes(&p.codex_linux_sandbox_exe),
            None => current_exe,
        },
        None => current_exe,
    }
}

/// The helper paths handed to the program: the current executable, the
/// Linux sandbox (on Linux only) and the alias directory's execve wrapper.
pub fn main_dispatch_paths(
    guard_paths: Option<&Arg0DispatchPaths>,
    current_exe: Option<Vec<u8>>,
    is_linux: bool,
) -> (r: Arg0DispatchPaths)
    ensures
        bytes_view(r.codex_self_exe) == bytes_view(current_exe),
        bytes_view(r.codex_linux_sandbox_exe) == (if is_linux {
            match guard_paths {
                Some(p) if p.codex_linux_sandbox_exe is Some => bytes_view(p.codex_linux_sandbox_exe),
                _ => bytes_view(current_exe),
            }
        } else {
            None
        }),
        bytes_view(r.main_execve_wrapper_exe) == match guard_paths {
            Some(p) => bytes_view(p.main_execve_wrapper_exe),
            None => None,
        },
{
    let self_exe = clone_bytes(&current_exe);
    let sandbox = if is_linux {
        linux_sandbox_exe_path(guard_paths, current_exe)
    } else {
        None
    };
    let wrapper = match guard_paths {
        Some(p) => clone_bytes(&p.main_execve_wrapper_exe),
        None => None,
    };
    Arg0DispatchPaths {
        codex_self_exe: self_exe,
        codex_linux_sandbox_exe: sandbox,
        main_execve_wrapper_exe: wrapper,
    }
}

/// Whether a `.env` file may set `key`: not when its upper-cased name starts
/// with `AGENTX_`.
pub open spec fn spec_env_key_allowed(key: Seq<char>) -> bool {
    !ILLEGAL_ENV_VAR_PREFIX@.is_prefix_of(spec_ascii_upper(key))
}

/// Whether a `.env` file may set `key`.
pub fn env_key_allowed(key: &str) -> (r: bool)
    ensures
        r == spec_env_key_allowed(key@),
{
    let upper = to_ascii_uppercase(key);
    !starts_with(upper.as_str(), ILLEGAL_ENV_VAR_PREFIX)
}

/// The model of a list of environment entries.
pub open spec fn entries_view(e: Seq<(String, String)>) -> Seq<(Seq<char>, Seq<char>)> {
    e.map_values(|p: (String, String)| (p.0@, p.1@))
}

/// The entries of a `.env` file that may be applied, in their order.
pub open spec fn spec_filter_env_entries(e: Seq<(Seq<char>, Seq<char>)>) -> Seq<(Seq<char>, Seq<char>)> {
    e.filter(|p: (Seq<char>, Seq<char>)| spec_env_key_allowed(p.0))
}

/// Keeps the `.env` entries whose keys a `.env` file may set.
pub fn filter_env_entries(entries: Vec<(String, String)>) -> (r: Vec<(String, String)>)
    ensures
        entries_view(r@) == spec_filter_env_entries(entries_view(entries@)),
{
    let n = entries.len();
    let mut out: Vec<(String, String)> = Vec::new();
    let mut i: usize = 0;
    while i < n
        invariant
            n == entries@.len(),
            i <= n,
            entries_view(out@) == spec_filter_env_entries(entries_view(entries@.take(i as int))),
        decreases n - i,
    {
        let ghost before = entries_view(entries@.take(i as int));
        let ghost after = entries_view(entries@.take(i + 1));
        assert(after =~= before.push((entries@[i as int].0@, entries@[i as int].1@)));
        reveal_with_fuel(Seq::filter, 1);
        assert(after.drop_last() =~= before);
        let keep = env_key_allowed(entries[i].0.as_str());
        if keep {
            let ghost prev = out@;
            out.push((entries[i].0.clone(), entries[i].1.clone()));
            assert(entries_view(out@) =~= entries_view(prev).push(after.last()));
        }
        i = i + 1;
    }
    assert(entries@.take(n as int) =~= entries@);
    out
}

/// Where the home directory is.
#[derive(Debug, Clone, PartialEq, Eq)]
pub enum HomeDir {
    /// Exactly this directory (from `AGENTX_HOME`).
    Exact(String),
    /// `.agentx` under this user directory.
    UnderUser(String),
}

/// Locates the home directory: `AGENTX_HOME` when set, else `.agentx` under
/// `HOME`, else under `USERPROFILE`; `None` when none of them is set.
pub fn resolve_home_dir(
    agentx_home: Option<String>,
    home: Option<String>,
    userprofile: Option<String>,
) -> (r: Option<HomeDir>)
    ensures
        match r {
            Some(HomeDir::Exact(p)) => agentx_home == Some(p),
            Some(HomeDir::UnderUser(p)) => agentx_home is None && (home == Some(p) || (home is None
                && userprofile == Some(p))),
            None => agentx_home is None && home is None && userprofile is None,
        },
{
    if let Some(p) = agentx_home {
        return Some(HomeDir::Exact(p));
    }
    if let Some(p) = home {
        return Some(HomeDir::UnderUser(p));
    }
    match userprofile {
        Some(p) => Some(HomeDir::UnderUser(p)),
        None => None,
    }
}

/// Whether the path with components `path` lies under the path with
/// components `root` (`Path::starts_with`).
pub fn path_starts_with(path: &Vec<String>, root: &Vec<String>) -> (r: bool)
    ensures
        r == root@.map_values(|c: String| c@).is_prefix_of(path@.map_values(|c: String| c@)),
{
    let n = root.len();
    if n > path.len() {
        return false;
    }
    let mut i: usize = 0;
    while i < n
        invariant
            n == root@.len(),
            n <= path@.len(),
            i <= n,
            forall|k: int| 0 <= k < i ==> root@[k]@ == path@[k]@,
        decreases n - i,
    {
        if !crate::text::str_eq(root[i].as_str(), path[i].as_str()) {
            assert(root@.map_values(|c: String| c@)[i as int] != path@.map_values(|c: String| c@)[i as int]);
            return false;
        }
        i = i + 1;
    }
    assert(root@.map_values(|c: String| c@) =~= path@.map_values(|c: String| c@).take(n as int));
    true
}

/// How a file-system operation of the clean-up ended.
#[derive(Debug, Clone, Copy, PartialEq, Eq, Structural)]
pub enum IoOutcome {
    /// It succeeded.
    Done,
    /// The path was not there.
    NotFound,
    /// The lock is held by another process.
    WouldBlock,
    /// Any other failure.
    Failed,
}

/// What the clean-up of stale per-session alias directories learnt last.
#[derive(Debug, Clone, Copy, PartialEq, Eq, Structural)]
pub enum JanitorEvent {
    /// Listing the alias root ended so.
    RootListed(IoOutcome),
    /// An entry of the root was found; whether it is a directory.
    EntryFound { is_dir: bool },
    /// Opening the entry's lock file ended so.
    LockOpened(IoOutcome),
    /// Taking the entry's lock ended so.
    LockTried(IoOutcome),
    /// Removing the entry ended so.
    Removed(IoOutcome),
}

/// What the clean-up does next.
#[derive(Debug, Clone, Copy, PartialEq, Eq, Structural)]
pub enum JanitorAction {
    /// Go through the entries of the root.
    ScanEntries,
    /// Open the entry's lock file.
    OpenLock,
    /// Try to take the entry's lock.
    TryLock,
    /// Remove the entry, holding its lock.
    Remove,
    /// Leave the entry and go on with the next one.
    NextEntry,
    /// Stop: nothing (more) to clean.
    Finish,
    /// Stop with the error just met.
    Fail,
}

/// The clean-up's rule: a missing root means nothing to clean; only
/// directories whose lock file exists and whose lock this process takes are
/// removed; a path that vanished meanwhile is passed over; any other error
/// ends the clean-up.
pub open spec fn spec_janitor_step(ev: JanitorEvent) -> JanitorAction {
    match ev {
        JanitorEvent::RootListed(IoOutcome::Done) => JanitorAction::ScanEntries,
        JanitorEvent::RootListed(IoOutcome::NotFound) => JanitorAction::Finish,
        JanitorEvent::RootListed(_) => JanitorAction::Fail,
        JanitorEvent::EntryFound { is_dir } => if is_dir {
            JanitorAction::OpenLock
        } else {
            JanitorAction::NextEntry
        },
        JanitorEvent::LockOpened(IoOutcome::Done) => JanitorAction::TryLock,
        JanitorEvent::LockOpened(IoOutcome::NotFound) => JanitorAction::NextEntry,
        JanitorEvent::LockOpened(_) => JanitorAction::Fail,
        JanitorEvent::LockTried(IoOutcome::Done) => JanitorAction::Remove,
        JanitorEvent::LockTried(IoOutcome::WouldBlock) => JanitorAction::NextEntry,
        JanitorEvent::LockTried(_) => JanitorAction::Fail,
        JanitorEvent::Removed(IoOutcome::Done) => JanitorAction::NextEntry,
        JanitorEvent::Removed(IoOutcome::NotFound) => JanitorAction::NextEntry,
        JanitorEvent::Removed(_) => JanitorAction::Fail,
    }
}

/// Decides the clean-up's next action from what it learnt last.
pub fn janitor_step(ev: JanitorEvent) -> (r: JanitorAction)
    ensures
        r == spec_janitor_step(ev),
{
    match ev {
        JanitorEvent::RootListed(IoOutcome::Done) => JanitorAction::ScanEntries,
        JanitorEvent::RootListed(IoOutcome::NotFound) => JanitorAction::Finish,
        JanitorEvent::RootListed(_) => JanitorAction::Fail,
        JanitorEvent::EntryFound { is_dir } => if is_dir {
            JanitorAction::OpenLock
        } else {
            JanitorAction::NextEntry
        },
        JanitorEvent::LockOpened(IoOutcome::Done) => JanitorAction::TryLock,
        JanitorEvent::LockOpened(IoOutcome::NotFound) => JanitorAction::NextEntry,
        JanitorEvent::LockOpened(_) => JanitorAction::Fail,
        JanitorEvent::LockTried(IoOutcome::Done) => JanitorAction::Remove,
        JanitorEvent::LockTried(IoOutcome::WouldBlock) => JanitorAction::NextEntry,
        JanitorEvent::LockTried(_) => JanitorAction::Fail,
        JanitorEvent::Removed(IoOutcome::Done) => JanitorAction::NextEntry,
        JanitorEvent::Removed(IoOutcome::NotFound) => JanitorAction::NextEntry,
        JanitorEvent::Removed(_) => JanitorAction::Fail,
    }
}

/// The clean-up removes an entry only after taking its lock, and removing
/// is the only step that follows a taken lock.
pub proof fn lemma_janitor_removes_only_locked(ev: JanitorEvent)
    ensures
        (spec_janitor_step(ev) == JanitorAction::Remove) == (ev == JanitorEvent::LockTried(
            IoOutcome::Done,
        )),
        spec_janitor_step(ev) == JanitorAction::OpenLock ==> (ev == (JanitorEvent::EntryFound {
            is_dir: true,
        })),
{
}

/// No entry that a `.env` file applies has a reserved key, and every entry
/// with an allowed key is applied.
pub proof fn lemma_filtered_entries(e: Seq<(Seq<char>, Seq<char>)>)
    ensures
        forall|i: int|
            0 <= i < spec_filter_env_entries(e).len() ==> spec_env_key_allowed(
                #[trigger] spec_filter_env_entries(e)[i].0,
            ),
        forall|i: int|
            0 <= i < e.len() && spec_env_key_allowed(e[i].0) ==> #[trigger] spec_filter_env_entries(
                e,
            ).contains(e[i]),
{
    broadcast use vstd::seq_lib::group_filter_ensures;
}

} // verus!
