//! The environment registry protocol: configuration normalisation, the
//! registration request, and how registry responses become errors.
use crate::text::{
    decimal, decimal_string, spec_strip_leading, spec_strip_trailing, spec_trim, strip_leading,
    strip_trailing, take_chars, trim,
};
use crate::auth::AuthProviderPlan;
use vstd::prelude::*;

verus! {

/// How many characters of an error body a message may quote.
pub const ERROR_BODY_PREVIEW_CHARS: usize = 4096;

/// Request body for registering an executor with the gateway
/// (`POST /agentx/environment/{env_id}/register`).
#[derive(Debug, Clone, PartialEq, Eq)]
pub struct EnvironmentRegistryRegistrationRequest {
    pub id: String,
    pub public_key: String,
}

/// The gateway's answer to a registration.
#[derive(Debug, Clone, PartialEq, Eq)]
pub struct EnvironmentRegistryRegistrationResponse {
    pub executor_id: String,
    pub url: String,
}

/// The `error` object of a registry error body.
#[derive(Debug, Clone, PartialEq, Eq)]
pub struct RegistryErrorDetail {
    pub code: Option<String>,
    pub message: Option<String>,
}

/// A registry error body, as far as it could be read.
#[derive(Debug, Clone, PartialEq, Eq)]
pub struct RegistryErrorBody {
    pub error: Option<RegistryErrorDetail>,
}

/// Errors of remote registration.
#[derive(Debug, Clone, PartialEq, Eq)]
pub enum ExecServerError {
    /// The local configuration is unusable.
    EnvironmentRegistryConfig(String),
    /// The registry refused the credentials (401 or 403).
    EnvironmentRegistryAuth(String),
    /// The registry answered with another unsuccessful status.
    EnvironmentRegistryHttp { status: u16, code: Option<String>, message: String },
}

/// Mathematical model of [`ExecServerError`].
pub enum ExecServerErrorView {
    EnvironmentRegistryConfig(Seq<char>),
    EnvironmentRegistryAuth(Seq<char>),
    EnvironmentRegistryHttp { status: u16, code: Option<Seq<char>>, message: Seq<char> },
}

/// The model of an optional string.
pub open spec fn opt_view(o: Option<String>) -> Option<Seq<char>> {
    match o {
        Some(s) => Some(s@),
        None => None,
    }
}

impl View for ExecServerError {
    type V = ExecServerErrorView;

    open spec fn view(&self) -> ExecServerErrorView {
        match self {
            ExecServerError::EnvironmentRegistryConfig(m) => ExecServerErrorView::EnvironmentRegistryConfig(m@),
            ExecServerError::EnvironmentRegistryAuth(m) => ExecServerErrorView::EnvironmentRegistryAuth(m@),
            ExecServerError::EnvironmentRegistryHttp { status, code, message } =>
                ExecServerErrorView::EnvironmentRegistryHttp {
                    status: *status,
                    code: opt_view(*code),
                    message: message@,
                },
        }
    }
}

/// Mathematical model of a [`RegistryErrorBody`]: the code and message of its
/// `error` object, when it has one.
pub open spec fn body_error_view(b: RegistryErrorBody) -> Option<(Option<Seq<char>>, Option<Seq<char>>)> {
    match b.error {
        Some(e) => Some((opt_view(e.code), opt_view(e.message))),
        None => None,
    }
}

/// The model of an optionally parsed error body.
pub open spec fn parsed_error_view(p: Option<RegistryErrorBody>) -> Option<(Option<Seq<char>>, Option<Seq<char>>)> {
    match p {
        Some(b) => body_error_view(b),
        None => None,
    }
}

/// The quoted part of an error body: the trimmed body, cut to
/// [`ERROR_BODY_PREVIEW_CHARS`] characters, or nothing when it is blank.
pub open spec fn spec_preview_error_body(body: Seq<char>) -> Option<Seq<char>> {
    let t = spec_trim(body);
    if t.len() == 0 {
        None
    } else if t.len() <= ERROR_BODY_PREVIEW_CHARS {
        Some(t)
    } else {
        Some(t.take(ERROR_BODY_PREVIEW_CHARS as int))
    }
}

/// Quotes an error body for a message.
pub fn preview_error_body(body: &str) -> (r: Option<String>)
    ensures
        opt_view(r) == spec_preview_error_body(body@),
{
    let trimmed = trim(body);
    if trimmed.unicode_len() == 0 {
        return None;
    }
    Some(take_chars(trimmed, ERROR_BODY_PREVIEW_CHARS))
}

/// The message of a registry error: the body's `error.message`, else its preview.
pub open spec fn spec_registry_error_message(
    parsed: Option<(Option<Seq<char>>, Option<Seq<char>>)>,
    body: Seq<char>,
) -> Option<Seq<char>> {
    match parsed {
        Some((_, Some(m))) => Some(m),
        _ => spec_preview_error_body(body),
    }
}

/// The message of a registry error body; `parsed` is the body read as JSON,
/// `None` when it is not such JSON.
pub fn registry_error_message(parsed: &Option<RegistryErrorBody>, body: &str) -> (r: Option<String>)
    ensures
        opt_view(r) == spec_registry_error_message(parsed_error_view(*parsed), body@),
{
    if let Some(b) = parsed {
        if let Some(e) = &b.error {
            if let Some(m) = &e.message {
                return Some(m.clone());
            }
        }
    }
    preview_error_body(body)
}

/// How a status code is displayed: its number and its reason phrase.
pub open spec fn spec_status_display(status: u16) -> Seq<char> {
    decimal(status as nat) + " "@ + match canonical_reason_phrase(status) {
        Some(p) => p,
        None => "<unknown status code>"@,
    }
}

/// The reason phrase `http` gives a status code (`StatusCode::canonical_reason`).
pub uninterp spec fn canonical_reason_phrase(status: u16) -> Option<Seq<char>>;

/// Calls `http::StatusCode::canonical_reason` on the status `status`.
///
/// Trusted: the phrase is, by definition, `canonical_reason_phrase(status)`;
/// the table itself is not stated.
#[verifier::external_body]
fn status_reason(status: u16) -> (r: Option<&'static str>)
    requires
        100 <= status <= 999,
    ensures
        match r {
            Some(p) => canonical_reason_phrase(status) == Some(p@),
            None => canonical_reason_phrase(status) is None,
        },
{
    match http::StatusCode::from_u16(status) {
        Ok(code) => code.canonical_reason(),
        Err(_) => None,
    }
}

/// Displays a status code as `http` does: `401 Unauthorized`.
pub fn status_display(status: u16) -> (r: String)
    requires
        100 <= status <= 999,
    ensures
        r@ == spec_status_display(status),
{
    let mut out = decimal_string(status as u64);
    out.append(" ");
    match status_reason(status) {
        Some(p) => out.append(p),
        None => out.append("<unknown status code>"),
    }
    out
}

/// The authentication error for a 401 or 403 answer.
pub open spec fn spec_auth_error(
    status: u16,
    parsed: Option<(Option<Seq<char>>, Option<Seq<char>>)>,
    body: Seq<char>,
) -> ExecServerErrorView {
    let message = match spec_registry_error_message(parsed, body) {
        Some(m) => m,
        None => "empty error body"@,
    };
    ExecServerErrorView::EnvironmentRegistryAuth(
        "environment registry authentication failed ("@ + spec_status_display(status) + "): "@
            + message,
    )
}

/// Builds the authentication error for a 401 or 403 answer.
pub fn environment_registry_auth_error(
    status: u16,
    parsed: &Option<RegistryErrorBody>,
    body: &str,
) -> (r: ExecServerError)
    requires
        100 <= status <= 999,
    ensures
        r@ == spec_auth_error(status, parsed_error_view(*parsed), body@),
{
    let message = match registry_error_message(parsed, body) {
        Some(m) => m,
        None => String::from_str("empty error body"),
    };
    let mut text = String::from_str("environment registry authentication failed (");
    let shown = status_display(status);
    text.append(shown.as_str());
    text.append("): ");
    text.append(message.as_str());
    ExecServerError::EnvironmentRegistryAuth(text)
}

/// The error for any other unsuccessful answer.
pub open spec fn spec_http_error(
    status: u16,
    parsed: Option<(Option<Seq<char>>, Option<Seq<char>>)>,
    body: Seq<char>,
) -> ExecServerErrorView {
    match parsed {
        Some((code, message)) => ExecServerErrorView::EnvironmentRegistryHttp {
            status,
            code,
            message: match message {
                Some(m) => m,
                None => match spec_preview_error_body(body) {
                    Some(p) => p,
                    None => "empty error body"@,
                },
            },
        },
        None => ExecServerErrorView::EnvironmentRegistryHttp {
            status,
            code: None,
            message: match spec_preview_error_body(body) {
                Some(p) => p,
                None => "empty or malformed error body"@,
            },
        },
    }
}

/// Builds the error for an unsuccessful answer that is not 401 or 403.
pub fn environment_registry_http_error(
    status: u16,
    parsed: &Option<RegistryErrorBody>,
    body: &str,
) -> (r: ExecServerError)
    ensures
        r@ == spec_http_error(status, parsed_error_view(*parsed), body@),
{
    if let Some(b) = parsed {
        if let Some(e) = &b.error {
            let message = match &e.message {
                Some(m) => m.clone(),
                None => match preview_error_body(body) {
                    Some(p) => p,
                    None => String::from_str("empty error body"),
                },
            };
            return ExecServerError::EnvironmentRegistryHttp {
                status,
                code: e.code.clone(),
                message,
            };
        }
    }
    let message = match preview_error_body(body) {
        Some(p) => p,
        None => String::from_str("empty or malformed error body"),
    };
    ExecServerError::EnvironmentRegistryHttp { status, code: None, message }
}

/// What to do with a registry answer.
#[derive(Debug, Clone, PartialEq, Eq)]
pub enum RegistryResponse {
    /// The status is a success: read the body as the expected JSON.
    ReadBody,
    /// The answer is an error.
    Failed(ExecServerError),
}

/// Classifies a registry answer by its status code.
pub open spec fn spec_classify_response(
    status: u16,
    parsed: Option<(Option<Seq<char>>, Option<Seq<char>>)>,
    body: Seq<char>,
) -> Option<ExecServerErrorView> {
    if 200 <= status < 300 {
        None
    } else if status == 401 || status == 403 {
        Some(spec_auth_error(status, parsed, body))
    } else {
        Some(spec_http_error(status, parsed, body))
    }
}

/// Every success status (200 to 299) has its body read, whatever the body;
/// every other status is an error, and 401 and 403 are authentication
/// errors.
pub proof fn lemma_success_statuses_read_body(
    status: u16,
    parsed: Option<(Option<Seq<char>>, Option<Seq<char>>)>,
    body: Seq<char>,
)
    ensures
        (spec_classify_response(status, parsed, body) is None) <==> (200 <= status && status
            < 300),
        (status == 401 || status == 403) ==> spec_classify_response(status, parsed, body) == Some(
            spec_auth_error(status, parsed, body),
        ),
{
}

/// Decides what a registry answer means: success statuses have their body
/// read, 401 and 403 are authentication errors, all others HTTP errors.
pub fn classify_registry_response(
    status: u16,
    parsed: &Option<RegistryErrorBody>,
    body: &str,
) -> (r: RegistryResponse)
    requires
        100 <= status <= 999,
    ensures
        match r {
            RegistryResponse::ReadBody => spec_classify_response(status, parsed_error_view(*parsed), body@) is None,
            RegistryResponse::Failed(e) => spec_classify_response(status, parsed_error_view(*parsed), body@) == Some(e@),
        },
        (r is ReadBody) == (200 <= status && status < 300),
{
    if 200 <= status && status < 300 {
        RegistryResponse::ReadBody
    } else if status == 401 || status == 403 {
        RegistryResponse::Failed(environment_registry_auth_error(status, parsed, body))
    } else {
        RegistryResponse::Failed(environment_registry_http_error(status, parsed, body))
    }
}

/// The error text for a blank environment id.
pub open spec fn missing_environment_id_message() -> Seq<char> {
    "environment id is required for remote exec-server registration"@
}

/// The error text for a blank registry base URL.
pub open spec fn missing_base_url_message() -> Seq<char> {
    "environment registry base URL is required"@
}

/// Trims an environment id; a blank id is a configuration error.
pub fn normalize_environment_id(environment_id: String) -> (r: Result<String, ExecServerError>)
    ensures
        match r {
            Ok(id) => spec_trim(environment_id@).len() > 0 && id@ == spec_trim(environment_id@),
            Err(e) => spec_trim(environment_id@).len() == 0 && e@
                == ExecServerErrorView::EnvironmentRegistryConfig(missing_environment_id_message()),
        },
{
    let trimmed = trim(environment_id.as_str());
    if trimmed.unicode_len() == 0 {
        return Err(
            ExecServerError::EnvironmentRegistryConfig(
                String::from_str("environment id is required for remote exec-server registration"),
            ),
        );
    }
    Ok(String::from_str(trimmed))
}

/// The normalised form of a base URL: trimmed, without trailing slashes.
pub open spec fn spec_normalized_base_url(base_url: Seq<char>) -> Seq<char> {
    spec_strip_trailing(spec_trim(base_url), '/')
}

/// Trims a base URL and drops its trailing slashes; an empty result is a
/// configuration error.
pub fn normalize_base_url(base_url: String) -> (r: Result<String, ExecServerError>)
    ensures
        match r {
            Ok(u) => spec_normalized_base_url(base_url@).len() > 0 && u@
                == spec_normalized_base_url(base_url@),
            Err(e) => spec_normalized_base_url(base_url@).len() == 0 && e@
                == ExecServerErrorView::EnvironmentRegistryConfig(missing_base_url_message()),
        },
{
    let trimmed = strip_trailing(trim(base_url.as_str()), '/');
    if trimmed.unicode_len() == 0 {
        return Err(
            ExecServerError::EnvironmentRegistryConfig(
                String::from_str("environment registry base URL is required"),
            ),
        );
    }
    Ok(String::from_str(trimmed))
}

/// The URL of `path` under `base_url`: one slash between them.
pub open spec fn spec_endpoint_url(base_url: Seq<char>, path: Seq<char>) -> Seq<char> {
    base_url + "/"@ + spec_strip_leading(path, '/')
}

/// Joins a base URL and an endpoint path.
pub fn endpoint_url(base_url: &str, path: &str) -> (r: String)
    ensures
        r@ == spec_endpoint_url(base_url@, path@),
{
    let mut out = String::from_str(base_url);
    out.append("/");
    out.append(strip_leading(path, '/'));
    out
}

/// The registration path of an environment.
pub open spec fn spec_registration_path(environment_id: Seq<char>) -> Seq<char> {
    "/agentx/environment/"@ + environment_id + "/register"@
}

/// The URL to which an environment's registration is posted.
pub fn registration_url(base_url: &str, environment_id: &str) -> (r: String)
    ensures
        r@ == spec_endpoint_url(base_url@, spec_registration_path(environment_id@)),
{
    let mut path = String::from_str("/agentx/environment/");
    path.append(environment_id);
    path.append("/register");
    endpoint_url(base_url, path.as_str())
}

/// The registration body for an environment; the public key stays empty.
pub fn registration_request(environment_id: &str) -> (r: EnvironmentRegistryRegistrationRequest)
    ensures
        r.id@ == environment_id@,
        r.public_key@ == Seq::<char>::empty(),
{
    EnvironmentRegistryRegistrationRequest {
        id: String::from_str(environment_id),
        public_key: String::new(),
    }
}

/// How `Debug` renders a string: quoted, with its special characters
/// escaped.
pub uninterp spec fn str_debug_text(s: Seq<char>) -> Seq<char>;

/// Renders `s` as `Debug` does (`format!("{:?}", s)`).
///
/// Trusted: the result is, by definition, `str_debug_text(s@)`; nothing
/// more of std's escaping is claimed.
#[verifier::external_body]
fn str_debug(s: &str) -> (r: String)
    ensures
        r@ == str_debug_text(s@),
{
    format!("{:?}", s)
}

/// Configuration for registering an exec-server for remote use.
#[derive(Clone, PartialEq, Eq)]
pub struct RemoteEnvironmentConfig {
    pub base_url: String,
    pub environment_id: String,
    pub name: String,
    /// How registration requests are authenticated; never shown by
    /// `debug_text`.
    pub auth_provider: AuthProviderPlan,
}

/// The debug rendering of a configuration: its fields, with the
/// authentication shown as `"<redacted>"`.
pub open spec fn spec_config_debug_text(
    base_url: Seq<char>,
    environment_id: Seq<char>,
    name: Seq<char>,
) -> Seq<char> {
    "RemoteEnvironmentConfig { base_url: "@ + str_debug_text(base_url) + ", environment_id: "@
        + str_debug_text(environment_id) + ", name: "@ + str_debug_text(name)
        + ", auth_provider: \"<redacted>\" }"@
}

impl RemoteEnvironmentConfig {
    /// A configuration with a normalised environment id and the default name.
    pub fn new(base_url: String, environment_id: String, auth_provider: AuthProviderPlan) -> (r:
        Result<Self, ExecServerError>)
        ensures
            match r {
                Ok(c) => {
                    &&& spec_trim(environment_id@).len() > 0
                    &&& c.base_url@ == base_url@
                    &&& c.environment_id@ == spec_trim(environment_id@)
                    &&& c.name@ == "agentx-exec-server"@
                    &&& c.auth_provider == auth_provider
                },
                Err(e) => spec_trim(environment_id@).len() == 0 && e@
                    == ExecServerErrorView::EnvironmentRegistryConfig(
                    missing_environment_id_message(),
                ),
            },
    {
        let environment_id = normalize_environment_id(environment_id)?;
        Ok(
            RemoteEnvironmentConfig {
                base_url,
                environment_id,
                name: String::from_str("agentx-exec-server"),
                auth_provider,
            },
        )
    }

    /// The configuration as `Debug` shows it; the authentication is never
    /// shown, only `"<redacted>"`.
    pub fn debug_text(&self) -> (r: String)
        ensures
            r@ == spec_config_debug_text(self.base_url@, self.environment_id@, self.name@),
    {
        let mut out = String::from_str("RemoteEnvironmentConfig { base_url: ");
        let b = str_debug(self.base_url.as_str());
        out.append(b.as_str());
        out.append(", environment_id: ");
        let e = str_debug(self.environment_id.as_str());
        out.append(e.as_str());
        out.append(", name: ");
        let n = str_debug(self.name.as_str());
        out.append(n.as_str());
        out.append(", auth_provider: \"<redacted>\" }");
        out
    }
}

/// A normalised base URL never ends with a slash, and a normalised
/// environment id has no white space at either end.
pub proof fn lemma_normalized_forms(base_url: Seq<char>, environment_id: Seq<char>)
    ensures
        spec_normalized_base_url(base_url).len() > 0 ==> spec_normalized_base_url(base_url).last()
            != '/',
        spec_trim(environment_id).len() > 0 ==> !crate::text::is_ws(spec_trim(environment_id)[0])
            && !crate::text::is_ws(spec_trim(environment_id).last()),
        spec_trim(spec_trim(environment_id)) == spec_trim(environment_id),
{
    let t = spec_trim(base_url);
    crate::text::lemma_trail_char_bounds(t, '/', t.len() as int);
    crate::text::lemma_trim_idempotent(environment_id);
    let u = crate::text::spec_trim_start(environment_id);
    crate::text::lemma_lead_ws_bounds(environment_id, 0);
    crate::text::lemma_trail_ws_bounds(u, u.len() as int);
}

/// An endpoint URL under a normalised base has exactly one slash between
/// the base and the path: the base does not end with one and the path part
/// does not start with one.
pub proof fn lemma_endpoint_single_slash(base_url: Seq<char>, path: Seq<char>)
    requires
        spec_normalized_base_url(base_url).len() > 0,
    ensures
        ({
            let b = spec_normalized_base_url(base_url);
            let rest = spec_strip_leading(path, '/');
            &&& spec_endpoint_url(b, path) == b + "/"@ + rest
            &&& b.last() != '/'
            &&& (rest.len() > 0 ==> rest[0] != '/')
        }),
{
    lemma_normalized_forms(base_url, Seq::empty());
    crate::text::lemma_lead_char_bounds(path, '/', 0);
}

} // verus!
