//! Which registration URLs an API key may be sent to.
//!
//! An API key may only travel over HTTPS to `openai.com`, `openai.org` and
//! their subdomains, or to a loopback host over HTTP or HTTPS.
use crate::text::{
    ends_with, eq_ignore_ascii_case, push_char, spec_ascii_lower, spec_trim, str_eq,
    to_ascii_lowercase, trim,
};
use vstd::prelude::*;

verus! {

/// The host part of a parsed URL.
#[derive(Debug, Clone, PartialEq, Eq)]
pub enum UrlHost {
    /// A domain name, as the URL parser normalised it.
    Domain(String),
    /// An IPv4 address, as its big-endian 32-bit value.
    Ipv4(u32),
    /// An IPv6 address, as its big-endian 128-bit value.
    Ipv6(u128),
}

/// Mathematical model of [`UrlHost`].
pub enum UrlHostView {
    Domain(Seq<char>),
    Ipv4(u32),
    Ipv6(u128),
}

impl View for UrlHost {
    type V = UrlHostView;

    open spec fn view(&self) -> UrlHostView {
        match self {
            UrlHost::Domain(d) => UrlHostView::Domain(d@),
            UrlHost::Ipv4(a) => UrlHostView::Ipv4(*a),
            UrlHost::Ipv6(a) => UrlHostView::Ipv6(*a),
        }
    }
}

/// What the API-key rule reads of a parsed URL: its scheme and its host.
#[derive(Debug, Clone, PartialEq, Eq)]
pub struct RemoteUrl {
    pub scheme: String,
    pub host: Option<UrlHost>,
}

/// Mathematical model of [`RemoteUrl`].
pub struct RemoteUrlView {
    pub scheme: Seq<char>,
    pub host: Option<UrlHostView>,
}

impl View for RemoteUrl {
    type V = RemoteUrlView;

    open spec fn view(&self) -> RemoteUrlView {
        RemoteUrlView {
            scheme: self.scheme@,
            host: match self.host {
                Some(h) => Some(h@),
                None => None,
            },
        }
    }
}

/// Why a registration URL was refused for API-key authentication.
#[derive(Debug, Clone, PartialEq, Eq)]
pub enum RemoteHostError {
    /// The URL did not parse; the parser's message.
    InvalidUrl(String),
    /// The URL has no host.
    MissingHost,
    /// The scheme and host are not among the allowed ones.
    NotAllowed,
}

/// Mathematical model of [`RemoteHostError`].
pub enum RemoteHostErrorView {
    InvalidUrl(Seq<char>),
    MissingHost,
    NotAllowed,
}

impl View for RemoteHostError {
    type V = RemoteHostErrorView;

    open spec fn view(&self) -> RemoteHostErrorView {
        match self {
            RemoteHostError::InvalidUrl(m) => RemoteHostErrorView::InvalidUrl(m@),
            RemoteHostError::MissingHost => RemoteHostErrorView::MissingHost,
            RemoteHostError::NotAllowed => RemoteHostErrorView::NotAllowed,
        }
    }
}

/// The model of a check's outcome.
pub open spec fn verdict_view(r: Result<(), RemoteHostError>) -> Result<(), RemoteHostErrorView> {
    match r {
        Ok(()) => Ok(()),
        Err(e) => Err(e@),
    }
}

/// The model of a parse outcome.
pub open spec fn parse_view(r: Result<RemoteUrl, String>) -> Result<RemoteUrlView, Seq<char>> {
    match r {
        Ok(u) => Ok(u@),
        Err(e) => Err(e@),
    }
}

/// What `url::Url::parse` makes of `input`: the scheme and host of the URL,
/// or the parser's error message.
pub uninterp spec fn url_parse_outcome(input: Seq<char>) -> Result<RemoteUrlView, Seq<char>>;

/// Parses `input` with `url::Url::parse` and keeps its scheme and host.
///
/// Trusted: the outcome is, by definition, `url_parse_outcome(input@)`; no
/// property of the parser itself is claimed.
#[verifier::external_body]
fn parse_remote_url(input: &str) -> (r: Result<RemoteUrl, String>)
    ensures
        parse_view(r) == url_parse_outcome(input@),
{
    let url = url::Url::parse(input).map_err(|e| e.to_string())?;
    let host = match url.host() {
        None => None,
        Some(url::Host::Domain(d)) => Some(UrlHost::Domain(d.to_string())),
        Some(url::Host::Ipv4(a)) => Some(UrlHost::Ipv4(u32::from(a))),
        Some(url::Host::Ipv6(a)) => Some(UrlHost::Ipv6(u128::from(a))),
    };
    Ok(RemoteUrl { scheme: url.scheme().to_string(), host })
}

/// Whether a host is a loopback host: `localhost` in any ASCII case,
/// an IPv4 address in 127.0.0.0/8, or the IPv6 address `::1`.
pub open spec fn is_loopback_host(h: UrlHostView) -> bool {
    match h {
        UrlHostView::Domain(d) => spec_ascii_lower(d) == spec_ascii_lower("localhost"@),
        UrlHostView::Ipv4(a) => a / 0x100_0000 == 127,
        UrlHostView::Ipv6(a) => a == 1,
    }
}

/// Whether a domain is `base` (in any ASCII case) or, lower-cased, ends with `.base`.
pub open spec fn is_domain_or_subdomain(d: Seq<char>, base: Seq<char>, dotted: Seq<char>) -> bool {
    spec_ascii_lower(d) == spec_ascii_lower(base) || dotted.is_suffix_of(spec_ascii_lower(d))
}

/// Whether a host is `openai.com`, `openai.org` or a subdomain of either.
pub open spec fn is_openai_host(h: UrlHostView) -> bool {
    match h {
        UrlHostView::Domain(d) => is_domain_or_subdomain(d, "openai.com"@, ".openai.com"@)
            || is_domain_or_subdomain(d, "openai.org"@, ".openai.org"@),
        _ => false,
    }
}

/// Whether an API key may be sent to `host` over `scheme`.
pub open spec fn api_key_host_allowed(scheme: Seq<char>, host: UrlHostView) -> bool {
    if scheme == "https"@ {
        is_loopback_host(host) || is_openai_host(host)
    } else if scheme == "http"@ {
        is_loopback_host(host)
    } else {
        false
    }
}

/// The verdict on a parsed URL.
pub open spec fn spec_url_verdict(u: RemoteUrlView) -> Result<(), RemoteHostErrorView> {
    match u.host {
        None => Err(RemoteHostErrorView::MissingHost),
        Some(h) => if api_key_host_allowed(u.scheme, h) {
            Ok(())
        } else {
            Err(RemoteHostErrorView::NotAllowed)
        },
    }
}

/// The verdict on a registration URL, given what the parser made of it.
pub open spec fn spec_remote_host_verdict(parsed: Result<RemoteUrlView, Seq<char>>) -> Result<
    (),
    RemoteHostErrorView,
> {
    match parsed {
        Err(e) => Err(RemoteHostErrorView::InvalidUrl(e)),
        Ok(u) => spec_url_verdict(u),
    }
}

/// Whether `host` is a loopback host.
pub fn host_is_loopback(host: &UrlHost) -> (r: bool)
    ensures
        r == is_loopback_host(host@),
{
    match host {
        UrlHost::Domain(d) => eq_ignore_ascii_case(d.as_str(), "localhost"),
        UrlHost::Ipv4(a) => *a / 0x100_0000 == 127,
        UrlHost::Ipv6(a) => *a == 1,
    }
}

fn domain_matches(d: &str, base: &str, dotted: &str) -> (r: bool)
    ensures
        r == is_domain_or_subdomain(d@, base@, dotted@),
{
    if eq_ignore_ascii_case(d, base) {
        return true;
    }
    let lower = to_ascii_lowercase(d);
    ends_with(lower.as_str(), dotted)
}

/// Whether `host` is `openai.com`, `openai.org` or one of their subdomains.
pub fn host_is_openai(host: &UrlHost) -> (r: bool)
    ensures
        r == is_openai_host(host@),
{
    match host {
        UrlHost::Domain(d) => domain_matches(d.as_str(), "openai.com", ".openai.com")
            || domain_matches(d.as_str(), "openai.org", ".openai.org"),
        _ => false,
    }
}

/// Checks a parsed registration URL against the API-key host rule.
pub fn check_api_key_remote_url(url: &RemoteUrl) -> (r: Result<(), RemoteHostError>)
    ensures
        verdict_view(r) == spec_url_verdict(url@),
{
    let host = match &url.host {
        None => return Err(RemoteHostError::MissingHost),
        Some(h) => h,
    };
    let loopback = host_is_loopback(host);
    let allowed = if str_eq(url.scheme.as_str(), "https") {
        loopback || host_is_openai(host)
    } else if str_eq(url.scheme.as_str(), "http") {
        loopback
    } else {
        false
    };
    if allowed {
        Ok(())
    } else {
        Err(RemoteHostError::NotAllowed)
    }
}

/// Parses `base_url` and checks it against the API-key host rule.
pub fn validate_api_key_remote_host(base_url: &str) -> (r: Result<(), RemoteHostError>)
    ensures
        verdict_view(r) == spec_remote_host_verdict(url_parse_outcome(base_url@)),
{
    match parse_remote_url(base_url) {
        Err(e) => Err(RemoteHostError::InvalidUrl(e)),
        Ok(url) => check_api_key_remote_url(&url),
    }
}

/// The message text of each refusal.
pub open spec fn spec_host_error_message(e: RemoteHostErrorView) -> Seq<char> {
    match e {
        RemoteHostErrorView::InvalidUrl(m) => "invalid remote exec-server registration URL: "@ + m,
        RemoteHostErrorView::MissingHost => "remote exec-server registration URL must include a host"@,
        RemoteHostErrorView::NotAllowed =>
            "remote exec-server API-key authentication is restricted to HTTPS openai.com and openai.org hosts and subdomains or loopback hosts"@,
    }
}

impl RemoteHostError {
    /// The message that reports this refusal.
    pub fn message(&self) -> (r: String)
        ensures
            r@ == spec_host_error_message(self@),
    {
        match self {
            RemoteHostError::InvalidUrl(m) => {
                let mut out = String::from_str("invalid remote exec-server registration URL: ");
                out.append(m.as_str());
                out
            },
            RemoteHostError::MissingHost => String::from_str(
                "remote exec-server registration URL must include a host",
            ),
            RemoteHostError::NotAllowed => String::from_str(
                "remote exec-server API-key authentication is restricted to HTTPS openai.com and openai.org hosts and subdomains or loopback hosts",
            ),
        }
    }
}

/// An API key is only ever accepted for a present host that is a loopback
/// host reached over HTTP or HTTPS, or `openai.com`, `openai.org` or one of
/// their subdomains reached over HTTPS.
pub proof fn lemma_accepted_destinations(parsed: Result<RemoteUrlView, Seq<char>>)
    ensures
        spec_remote_host_verdict(parsed) is Ok ==> (parsed matches Ok(u) && u.host matches Some(h)
            && ((is_loopback_host(h) && (u.scheme == "https"@ || u.scheme == "http"@)) || (u.scheme
            == "https"@ && is_openai_host(h)))),
{
}

/// An API key never travels over plain HTTP to a host that is not loopback.
pub proof fn lemma_plain_http_only_loopback(u: RemoteUrlView, h: UrlHostView)
    requires
        u.scheme == "http"@,
        u.host == Some(h),
        !is_loopback_host(h),
    ensures
        spec_url_verdict(u) == Err::<(), RemoteHostErrorView>(RemoteHostErrorView::NotAllowed),
{
    reveal_strlit("http");
    reveal_strlit("https");
    assert("http"@.len() != "https"@.len());
}

/// The comma-separated pieces of `s`, empty pieces included.
pub open spec fn split_commas(s: Seq<char>) -> Seq<Seq<char>>
    decreases s.len(),
{
    if s.len() == 0 {
        seq![Seq::empty()]
    } else {
        let init = split_commas(s.drop_last());
        if s.last() == ',' {
            init.push(Seq::empty())
        } else {
            init.update(init.len() - 1, init.last().push(s.last()))
        }
    }
}

pub proof fn lemma_split_commas_nonempty(s: Seq<char>)
    ensures
        split_commas(s).len() >= 1,
    decreases s.len(),
{
    if s.len() > 0 {
        lemma_split_commas_nonempty(s.drop_last());
    }
}

/// Whether a trimmed piece is kept: it is not empty.
pub open spec fn kept_piece(p: Seq<char>) -> bool {
    spec_trim(p).len() > 0
}

/// The hosts of a comma-separated allow-list: each piece trimmed, empty
/// pieces dropped.
pub open spec fn spec_allowed_hosts(s: Seq<char>) -> Seq<Seq<char>> {
    split_commas(s).filter(|p: Seq<char>| kept_piece(p)).map_values(|p: Seq<char>| spec_trim(p))
}

/// The model of a list of strings.
pub open spec fn strings_view(v: Seq<String>) -> Seq<Seq<char>> {
    v.map_values(|x: String| x@)
}

/// Pieces of `pieces` that are kept, trimmed.
pub open spec fn kept_trimmed(pieces: Seq<Seq<char>>) -> Seq<Seq<char>> {
    pieces.filter(|p: Seq<char>| kept_piece(p)).map_values(|p: Seq<char>| spec_trim(p))
}

proof fn lemma_kept_trimmed_push(pieces: Seq<Seq<char>>, p: Seq<char>)
    ensures
        kept_trimmed(pieces.push(p)) == if kept_piece(p) {
            kept_trimmed(pieces).push(spec_trim(p))
        } else {
            kept_trimmed(pieces)
        },
{
    reveal_with_fuel(Seq::filter, 1);
    assert(pieces.push(p).drop_last() =~= pieces);
    if kept_piece(p) {
        assert(kept_trimmed(pieces.push(p)) =~= kept_trimmed(pieces).push(spec_trim(p)));
    }
}

fn push_if_kept(out: &mut Vec<String>, piece: &String)
    ensures
        strings_view(final(out)@) == if kept_piece(piece@) {
            strings_view(old(out)@).push(spec_trim(piece@))
        } else {
            strings_view(old(out)@)
        },
{
    let t = trim(piece.as_str());
    if t.unicode_len() > 0 {
        out.push(String::from_str(t));
        assert(strings_view(out@) =~= strings_view(old(out)@).push(spec_trim(piece@)));
    }
}

/// Parses a comma-separated allow-list (of hosts or base URLs): each piece is trimmed and
/// empty pieces are dropped.
pub fn parse_allowed_hosts(value: &str) -> (r: Vec<String>)
    ensures
        strings_view(r@) == spec_allowed_hosts(value@),
{
    let n = value.unicode_len();
    let mut out: Vec<String> = Vec::new();
    let mut current = String::new();
    let mut i: usize = 0;
    proof {
        assert(value@.take(0) =~= Seq::<char>::empty());
        assert(split_commas(value@.take(0)).drop_last() =~= Seq::<Seq<char>>::empty());
        assert(kept_trimmed(Seq::empty()) =~= Seq::<Seq<char>>::empty());
    }
    while i < n
        invariant
            n == value@.len(),
            i <= n,
            split_commas(value@.take(i as int)).len() >= 1,
            current@ == split_commas(value@.take(i as int)).last(),
            strings_view(out@) == kept_trimmed(split_commas(value@.take(i as int)).drop_last()),
        decreases n - i,
    {
        let c = value.get_char(i);
        let ghost prev = split_commas(value@.take(i as int));
        proof {
            assert(value@.take(i + 1).drop_last() =~= value@.take(i as int));
            assert(value@.take(i + 1).last() == c);
            lemma_split_commas_nonempty(value@.take(i + 1));
        }
        if c == ',' {
            push_if_kept(&mut out, &current);
            current = String::new();
            proof {
                let next = split_commas(value@.take(i + 1));
                assert(next == prev.push(Seq::empty()));
                assert(next.drop_last() =~= prev);
                assert(prev =~= prev.drop_last().push(prev.last()));
                lemma_kept_trimmed_push(prev.drop_last(), prev.last());
            }
        } else {
            push_char(&mut current, c);
            proof {
                let next = split_commas(value@.take(i + 1));
                assert(next == prev.update(prev.len() - 1, prev.last().push(c)));
                assert(next.drop_last() =~= prev.drop_last());
            }
        }
        i = i + 1;
    }
    push_if_kept(&mut out, &current);
    proof {
        let all = split_commas(value@.take(n as int));
        assert(value@.take(n as int) =~= value@);
        assert(all =~= all.drop_last().push(all.last()));
        lemma_kept_trimmed_push(all.drop_last(), all.last());
    }
    out
}

/// Whether a host is a domain on the allow-list, compared ASCII
/// case-insensitively.
pub open spec fn in_allow_list(h: UrlHostView, allowed: Seq<Seq<char>>) -> bool {
    match h {
        UrlHostView::Domain(d) => exists|i: int|
            0 <= i < allowed.len() && #[trigger] spec_ascii_lower(allowed[i]) == spec_ascii_lower(d),
        _ => false,
    }
}

/// Whether `host` is a domain on the allow-list `allowed`.
pub fn host_in_allow_list(host: &UrlHost, allowed: &[String]) -> (r: bool)
    ensures
        r == in_allow_list(host@, strings_view(allowed@)),
{
    let d = match host {
        UrlHost::Domain(d) => d,
        _ => return false,
    };
    let ghost av = strings_view(allowed@);
    let n = allowed.len();
    let mut i: usize = 0;
    while i < n
        invariant
            n == allowed@.len(),
            av == strings_view(allowed@),
            host@ == UrlHostView::Domain(d@),
            i <= n,
            forall|k: int| 0 <= k < i ==> #[trigger] spec_ascii_lower(av[k]) != spec_ascii_lower(d@),
        decreases n - i,
    {
        if eq_ignore_ascii_case(allowed[i].as_str(), d.as_str()) {
            assert(spec_ascii_lower(strings_view(allowed@)[i as int]) == spec_ascii_lower(
                d@,
            ));
            return true;
        }
        i = i + 1;
    }
    false
}

/// The verdict on a parsed URL when the hosts of `allowed` may also receive
/// an API key over HTTPS.
pub open spec fn spec_url_verdict_allowing(u: RemoteUrlView, allowed: Seq<Seq<char>>) -> Result<
    (),
    RemoteHostErrorView,
> {
    match u.host {
        None => Err(RemoteHostErrorView::MissingHost),
        Some(h) => if api_key_host_allowed(u.scheme, h) || (u.scheme == "https"@ && in_allow_list(
            h,
            allowed,
        )) {
            Ok(())
        } else {
            Err(RemoteHostErrorView::NotAllowed)
        },
    }
}

/// The verdict on a registration URL, given what the parser made of it and
/// the extra allowed hosts.
pub open spec fn spec_remote_host_verdict_allowing(
    parsed: Result<RemoteUrlView, Seq<char>>,
    allowed: Seq<Seq<char>>,
) -> Result<(), RemoteHostErrorView> {
    match parsed {
        Err(e) => Err(RemoteHostErrorView::InvalidUrl(e)),
        Ok(u) => spec_url_verdict_allowing(u, allowed),
    }
}

/// Checks a parsed registration URL against the API-key host rule, with the
/// hosts of `allowed` also accepted over HTTPS.
pub fn check_api_key_remote_url_allowing(url: &RemoteUrl, allowed: &[String]) -> (r: Result<
    (),
    RemoteHostError,
>)
    ensures
        verdict_view(r) == spec_url_verdict_allowing(url@, strings_view(allowed@)),
{
    match check_api_key_remote_url(url) {
        Ok(()) => Ok(()),
        Err(RemoteHostError::NotAllowed) => {
            let host = match &url.host {
                Some(h) => h,
                None => return Err(RemoteHostError::MissingHost),
            };
            if str_eq(url.scheme.as_str(), "https") && host_in_allow_list(host, allowed) {
                Ok(())
            } else {
                Err(RemoteHostError::NotAllowed)
            }
        },
        Err(e) => Err(e),
    }
}

/// Parses `base_url` and checks it against the API-key host rule, with the
/// hosts of `allowed` also accepted over HTTPS.
pub fn validate_api_key_remote_host_allowing(base_url: &str, allowed: &[String]) -> (r: Result<
    (),
    RemoteHostError,
>)
    ensures
        verdict_view(r) == spec_remote_host_verdict_allowing(
            url_parse_outcome(base_url@),
            strings_view(allowed@),
        ),
{
    match parse_remote_url(base_url) {
        Err(e) => Err(RemoteHostError::InvalidUrl(e)),
        Ok(url) => check_api_key_remote_url_allowing(&url, allowed),
    }
}

/// With no extra hosts the allow-list rule is the built-in rule, and extra
/// hosts never admit plain HTTP to a non-loopback host.
pub proof fn lemma_allow_list_extends_rule(u: RemoteUrlView, allowed: Seq<Seq<char>>)
    ensures
        spec_url_verdict_allowing(u, Seq::empty()) == spec_url_verdict(u),
        spec_url_verdict(u) is Ok ==> spec_url_verdict_allowing(u, allowed) is Ok,
        spec_url_verdict_allowing(u, allowed) is Ok && u.scheme != "https"@ ==> spec_url_verdict(
            u,
        ) is Ok,
{
}

} // verus!
