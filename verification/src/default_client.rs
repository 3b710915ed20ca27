//! The client's originator and user agent.
use crate::auth::{header_value_accepted, is_valid_header_value};
use crate::login::user_agent;
use crate::text::{push_char, starts_with, str_eq};
use vstd::prelude::*;

verus! {

/// The originator of requests made by this client.
pub const DEFAULT_ORIGINATOR: &'static str = "codex_cli_rs";

/// The client version shown in the user agent.
pub const CLIENT_VERSION: &'static str = "0.0.0";

/// Who originates requests.
#[derive(Debug, Clone, PartialEq, Eq)]
pub struct Originator {
    pub value: String,
}

/// The originator of this client.
pub fn originator() -> (r: Originator)
    ensures
        r.value@ == DEFAULT_ORIGINATOR@,
{
    Originator { value: String::from_str(DEFAULT_ORIGINATOR) }
}

/// Whether an originator is one of the first-party clients.
pub open spec fn spec_is_first_party_originator(v: Seq<char>) -> bool {
    ||| v == DEFAULT_ORIGINATOR@
    ||| v == "codex-tui"@
    ||| v == "codex_vscode"@
    ||| "Codex "@.is_prefix_of(v)
}

/// Whether an originator is one of the first-party clients.
pub fn is_first_party_originator(originator_value: &str) -> (r: bool)
    ensures
        r == spec_is_first_party_originator(originator_value@),
{
    str_eq(originator_value, DEFAULT_ORIGINATOR) || str_eq(originator_value, "codex-tui") || str_eq(
        originator_value,
        "codex_vscode",
    ) || starts_with(originator_value, "Codex ")
}

/// Whether an originator is one of the first-party chat clients.
pub open spec fn spec_is_first_party_chat_originator(v: Seq<char>) -> bool {
    v == "codex_atlas"@ || v == "codex_chatgpt_desktop"@
}

/// Whether an originator is one of the first-party chat clients.
pub fn is_first_party_chat_originator(originator_value: &str) -> (r: bool)
    ensures
        r == spec_is_first_party_chat_originator(originator_value@),
{
    str_eq(originator_value, "codex_atlas") || str_eq(originator_value, "codex_chatgpt_desktop")
}

/// A character kept by sanitising: printable ASCII; others become `_`.
pub open spec fn sanitized_char(c: char) -> char {
    if ' ' <= c <= '~' {
        c
    } else {
        '_'
    }
}

/// `s` with every character outside printable ASCII replaced by `_`.
pub open spec fn spec_sanitized(s: Seq<char>) -> Seq<char> {
    s.map_values(|c: char| sanitized_char(c))
}

/// The user agent to send for `candidate`: itself when it is a valid header
/// value; else its sanitised form when that is non-empty and valid; else
/// `fallback` when valid; else the originator.
pub open spec fn spec_sanitize_user_agent(candidate: Seq<char>, fallback: Seq<char>) -> Seq<char> {
    if is_valid_header_value(candidate) {
        candidate
    } else if spec_sanitized(candidate).len() > 0 && is_valid_header_value(spec_sanitized(candidate)) {
        spec_sanitized(candidate)
    } else if is_valid_header_value(fallback) {
        fallback
    } else {
        DEFAULT_ORIGINATOR@
    }
}

fn sanitize_chars(s: &str) -> (r: String)
    ensures
        r@ == spec_sanitized(s@),
{
    let n = s.unicode_len();
    let mut out = String::new();
    let mut i: usize = 0;
    while i < n
        invariant
            n == s@.len(),
            i <= n,
            out@ =~= spec_sanitized(s@.take(i as int)),
        decreases n - i,
    {
        let c = s.get_char(i);
        let d = if ' ' <= c && c <= '~' {
            c
        } else {
            '_'
        };
        push_char(&mut out, d);
        assert(s@.take(i + 1) =~= s@.take(i as int).push(c));
        i = i + 1;
    }
    assert(s@.take(n as int) =~= s@);
    out
}

/// Makes `candidate` fit for a `User-Agent` header.
pub fn sanitize_user_agent(candidate: String, fallback: &str) -> (r: String)
    ensures
        r@ == spec_sanitize_user_agent(candidate@, fallback@),
{
    if header_value_accepted(candidate.as_str()) {
        return candidate;
    }
    let sanitized = sanitize_chars(candidate.as_str());
    if sanitized.unicode_len() > 0 && header_value_accepted(sanitized.as_str()) {
        sanitized
    } else if header_value_accepted(fallback) {
        String::from_str(fallback)
    } else {
        originator().value
    }
}

/// The user agent of this client: `originator/version`, followed by the
/// terminal's fragment when there is one, sanitised.
pub open spec fn spec_codex_user_agent(terminal: Seq<char>) -> Seq<char> {
    let prefix = DEFAULT_ORIGINATOR@ + "/"@ + CLIENT_VERSION@;
    let candidate = if terminal.len() == 0 {
        prefix
    } else {
        prefix + " "@ + terminal
    };
    spec_sanitize_user_agent(candidate, prefix)
}

/// The user agent of this client.
pub fn get_codex_user_agent() -> (r: String)
    ensures
        r@ == spec_codex_user_agent(Seq::empty()),
{
    let mut prefix = originator().value;
    prefix.append("/");
    prefix.append(CLIENT_VERSION);
    let terminal = user_agent();
    let mut candidate = prefix.clone();
    if terminal.unicode_len() > 0 {
        candidate.append(" ");
        candidate.append(terminal.as_str());
    }
    sanitize_user_agent(candidate, prefix.as_str())
}

/// Sanitising always yields a valid header value.
pub proof fn lemma_sanitize_user_agent_is_valid(candidate: Seq<char>, fallback: Seq<char>)
    ensures
        is_valid_header_value(spec_sanitize_user_agent(candidate, fallback)),
{
    reveal_strlit("codex_cli_rs");
    assert(is_valid_header_value(DEFAULT_ORIGINATOR@));
}

/// Sanitising leaves a valid header value unchanged.
pub proof fn lemma_sanitize_keeps_valid(candidate: Seq<char>, fallback: Seq<char>)
    requires
        is_valid_header_value(candidate),
    ensures
        spec_sanitize_user_agent(candidate, fallback) == candidate,
{
}

/// The user agent begins with `originator/`.
pub proof fn lemma_user_agent_prefix()
    ensures
        (DEFAULT_ORIGINATOR@ + "/"@).is_prefix_of(spec_codex_user_agent(Seq::empty())),
{
    reveal_strlit("codex_cli_rs");
    reveal_strlit("/");
    reveal_strlit("0.0.0");
    let prefix = DEFAULT_ORIGINATOR@ + "/"@ + CLIENT_VERSION@;
    assert(is_valid_header_value(prefix));
    assert((DEFAULT_ORIGINATOR@ + "/"@) =~= prefix.take(13));
}

} // verus!
