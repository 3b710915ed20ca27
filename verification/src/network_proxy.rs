//! The network proxy of the sandbox: in this build it never proxies, and
//! only reports which proxy variables an environment carries.
use crate::text::str_eq;
use vstd::prelude::*;

verus! {

/// Environment variable keys that may carry proxy URLs.
pub const PROXY_URL_ENV_KEYS: [&'static str; 6] = [
    "http_proxy",
    "HTTP_PROXY",
    "https_proxy",
    "HTTPS_PROXY",
    "all_proxy",
    "ALL_PROXY",
];

/// The model of an environment as key/value pairs.
pub open spec fn env_view(env: Seq<(String, String)>) -> Seq<(Seq<char>, Seq<char>)> {
    env.map_values(|p: (String, String)| (p.0@, p.1@))
}

/// An environment names each key at most once, as a map does.
pub open spec fn keys_unique(env: Seq<(Seq<char>, Seq<char>)>) -> bool {
    forall|i: int, j: int| #![trigger env[i], env[j]] 0 <= i < j < env.len() ==> env[i].0 != env[j].0
}

/// The value of `key` in `env`: that of its entry, if any.
pub open spec fn env_lookup(env: Seq<(Seq<char>, Seq<char>)>, key: Seq<char>) -> Option<Seq<char>>
    decreases env.len(),
{
    if env.len() == 0 {
        None
    } else if env[0].0 == key {
        Some(env[0].1)
    } else {
        env_lookup(env.drop_first(), key)
    }
}

/// In an environment whose keys are unique, a key has a value exactly when
/// the environment holds that key with that value.
pub proof fn lemma_env_lookup_unique(
    env: Seq<(Seq<char>, Seq<char>)>,
    key: Seq<char>,
    value: Seq<char>,
)
    requires
        keys_unique(env),
    ensures
        env_lookup(env, key) == Some(value) <==> exists|i: int|
            0 <= i < env.len() && #[trigger] env[i] == (key, value),
    decreases env.len(),
{
    if env.len() > 0 {
        let rest = env.drop_first();
        assert forall|i: int, j: int| 0 <= i < j < rest.len() implies #[trigger] rest[i].0
            != #[trigger] rest[j].0 by {
            assert(rest[i] == env[i + 1] && rest[j] == env[j + 1]);
        }
        lemma_env_lookup_unique(rest, key, value);
        if exists|i: int| 0 <= i < env.len() && #[trigger] env[i] == (key, value) {
            let i = choose|i: int| 0 <= i < env.len() && #[trigger] env[i] == (key, value);
            if i > 0 {
                assert(rest[i - 1] == env[i]);
                if env[0].0 == key {
                    assert(env[0].0 != env[i].0);
                }
            }
        }
        if env_lookup(env, key) == Some(value) && env[0].0 != key {
            let k = choose|k: int| 0 <= k < rest.len() && #[trigger] rest[k] == (key, value);
            assert(env[k + 1] == rest[k]);
        }
    }
}

/// The value of `key` in `env` when it is present and not empty.
pub open spec fn spec_proxy_url_env_value(env: Seq<(Seq<char>, Seq<char>)>, key: Seq<char>) -> Option<
    Seq<char>,
> {
    match env_lookup(env, key) {
        Some(v) if v.len() > 0 => Some(v),
        _ => None,
    }
}

/// Whether some proxy-URL key is set to a non-empty value in `env`.
pub open spec fn spec_has_proxy_url_env_vars(env: Seq<(Seq<char>, Seq<char>)>) -> bool {
    exists|i: int|
        0 <= i < PROXY_URL_ENV_KEYS@.len() && #[trigger] spec_proxy_url_env_value(
            env,
            PROXY_URL_ENV_KEYS@[i]@,
        ) is Some
}

/// Returns the value of the given key from `env`, if present and non-empty.
pub fn proxy_url_env_value<'a>(env: &'a [(String, String)], key: &str) -> (r: Option<&'a str>)
    requires
        keys_unique(env_view(env@)),
    ensures
        match r {
            Some(v) => spec_proxy_url_env_value(env_view(env@), key@) == Some(v@),
            None => spec_proxy_url_env_value(env_view(env@), key@) is None,
        },
{
    let n = env.len();
    let mut i: usize = 0;
    assert(env_view(env@).skip(0) =~= env_view(env@));
    while i < n
        invariant
            n == env@.len(),
            i <= n,
            env_lookup(env_view(env@), key@) == env_lookup(env_view(env@).skip(i as int), key@),
        decreases n - i,
    {
        let ghost rest = env_view(env@).skip(i as int);
        assert(rest[0] == (env@[i as int].0@, env@[i as int].1@));
        assert(rest.drop_first() =~= env_view(env@).skip(i + 1));
        if str_eq(env[i].0.as_str(), key) {
            let v = env[i].1.as_str();
            if v.unicode_len() == 0 {
                return None;
            }
            return Some(v);
        }
        i = i + 1;
    }
    assert(env_view(env@).skip(n as int) =~= Seq::<(Seq<char>, Seq<char>)>::empty());
    None
}

/// Returns true when at least one proxy-URL variable is set and non-empty in `env`.
pub fn has_proxy_url_env_vars(env: &[(String, String)]) -> (r: bool)
    requires
        keys_unique(env_view(env@)),
    ensures
        r == spec_has_proxy_url_env_vars(env_view(env@)),
{
    let keys = PROXY_URL_ENV_KEYS;
    let mut i: usize = 0;
    while i < 6
        invariant
            keys@ == PROXY_URL_ENV_KEYS@,
            keys@.len() == 6,
            i <= 6,
            keys_unique(env_view(env@)),
            forall|k: int|
                0 <= k < i ==> #[trigger] spec_proxy_url_env_value(
                    env_view(env@),
                    PROXY_URL_ENV_KEYS@[k]@,
                ) is None,
        decreases 6 - i,
    {
        if proxy_url_env_value(env, keys[i]).is_some() {
            return true;
        }
        i = i + 1;
    }
    false
}

/// The network proxy: acts as "no proxy".
#[derive(Clone, Copy, Debug, Default)]
pub struct NetworkProxy;

impl NetworkProxy {
    /// No MITM CA bundle is managed.
    pub fn managed_mitm_ca_trust_bundle_path(_this: &Self) -> (r: Option<&std::path::PathBuf>)
        ensures
            r is None,
    {
        None
    }

    /// Injects no proxy variables: `env` is left as it was.
    pub fn apply_to_env_for_optional_environment(
        &self,
        env: &mut Vec<(String, String)>,
        environment_id: Option<&str>,
    ) -> (r: Result<(), String>)
        requires
            keys_unique(env_view(old(env)@)),
        ensures
            r is Ok,
            final(env)@ == old(env)@,
    {
        Ok(())
    }

    /// No permissive unix socket policy.
    pub fn dangerously_allow_all_unix_sockets(&self) -> (r: bool)
        ensures
            !r,
    {
        false
    }

    /// No unix socket is explicitly allowed.
    pub fn allow_unix_sockets(&self) -> (r: &[String])
        ensures
            r@.len() == 0,
    {
        &[]
    }

    /// Local binding is not allowed.
    pub fn allow_local_binding(&self) -> (r: bool)
        ensures
            !r,
    {
        false
    }
}

/// Whether the network proxy allowed or denied a request.
#[derive(Debug, Clone, Copy, PartialEq, Eq, Structural)]
pub enum NetworkPolicyDecision {
    Allow,
    Deny,
    Ask,
}

/// Source that produced a network policy decision.
#[derive(Debug, Clone, Copy, PartialEq, Eq, Structural)]
pub enum NetworkDecisionSource {
    Decider,
    Policy,
    Default,
}

} // verus!
