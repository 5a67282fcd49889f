//! Linking the client to a host.

use vstd::prelude::*;
use vstd::string::StringExecFns;
use vstd::utf8::encode_utf8;
use crate::cloud::client::{
    verified_reply, CloudApi, CloudClientError, CloudClientErrorView, Delivery,
};
use crate::cloud::types::{optional_text_view, CloudInfoResponse, CloudInfoResponseView};
use crate::config::{AppConfig, AppConfigView};
use crate::security::master_password::{hash_password, password_token};
use crate::text::{
    decimal, decimal_text, same_text, trim_end_char, trim_text, trimmed, without_trailing,
};

verus! {

/// What `x cloud` is asked to do.
pub enum CloudAction {
    /// Forget the host.
    Remove,
    /// Report on the vault.
    Info,
    /// An argument of an older version: say that it is no longer needed.
    Obsolete,
    /// Link to the host at this address.
    SetEndpoint(String),
    /// Show what is configured.
    Status,
}

/// A cloud action as mathematics.
pub enum CloudActionView {
    Remove,
    Info,
    Obsolete,
    SetEndpoint(Seq<char>),
    Status,
}

impl View for CloudAction {
    type V = CloudActionView;

    open spec fn view(&self) -> CloudActionView {
        match self {
            CloudAction::Remove => CloudActionView::Remove,
            CloudAction::Info => CloudActionView::Info,
            CloudAction::Obsolete => CloudActionView::Obsolete,
            CloudAction::SetEndpoint(url) => CloudActionView::SetEndpoint(url@),
            CloudAction::Status => CloudActionView::Status,
        }
    }
}

/// The action that an argument asks for, white space around it aside: the
/// words `remove` and `info`, the arguments of older versions, any other
/// text as the address of a host, and nothing at all as a request for the
/// status.
pub open spec fn cloud_action(target: Option<Seq<char>>) -> CloudActionView {
    match target {
        None => CloudActionView::Status,
        Some(argument) => {
            let word = trimmed(argument);
            if word == "remove"@ {
                CloudActionView::Remove
            } else if word == "info"@ {
                CloudActionView::Info
            } else if word == "register"@ || word == "join"@ || word == "push"@ || word == "pull"@
                || word == "sync"@ {
                CloudActionView::Obsolete
            } else if word.len() > 0 {
                CloudActionView::SetEndpoint(word)
            } else {
                CloudActionView::Status
            }
        },
    }
}

/// What the argument of `x cloud` asks for.
pub fn handle_cloud_command(target: Option<String>) -> (action: CloudAction)
    ensures
        action@ == cloud_action(optional_text_view(target)),
{
    match target {
        None => CloudAction::Status,
        Some(argument) => {
            let word = trim_text(argument.as_str());
            if same_text(word, "remove") {
                CloudAction::Remove
            } else if same_text(word, "info") {
                CloudAction::Info
            } else if same_text(word, "register") || same_text(word, "join") || same_text(
                word,
                "push",
            ) || same_text(word, "pull") || same_text(word, "sync") {
                CloudAction::Obsolete
            } else if !word.is_empty() {
                CloudAction::SetEndpoint(String::from_str(word))
            } else {
                CloudAction::Status
            }
        },
    }
}

/// What the user is told of a client error.
pub open spec fn message_text(error: CloudClientErrorView) -> Seq<char> {
    match error {
        CloudClientErrorView::Http(err) => "Network error: "@ + err,
        CloudClientErrorView::Failure(msg) => msg,
        CloudClientErrorView::AuthenticationFailed => "Authentication failed. Verify the master password and host configuration."@,
    }
}

/// What the user is told of a client error.
pub fn to_message(error: CloudClientError) -> (message: String)
    ensures
        message@ == message_text(error@),
{
    match error {
        CloudClientError::Http(err) => String::from_str("Network error: ").concat(err.as_str()),
        CloudClientError::Failure(msg) => msg,
        CloudClientError::AuthenticationFailed => String::from_str(
            "Authentication failed. Verify the master password and host configuration.",
        ),
    }
}

/// The token to use with the host at `base_url`. A cached token is used
/// as it is, and neither the password nor the host's answer is looked at.
/// Without one, the token of `password` is cached and used, provided the
/// host accepted it: `verification` is what came of sending the verify
/// request with that token.
pub fn ensure_master_hash<T>(
    config: &mut AppConfig,
    base_url: &str,
    password: &str,
    verification: &Delivery<T>,
) -> (r: Result<String, String>)
    ensures
        match old(config)@.master_hash {
            Some(cached) => r matches Ok(hash) && hash@ == cached && final(config)@ == old(
                config,
            )@,
            None => match verified_reply(*verification) {
                Ok(_) => {
                    &&& r matches Ok(hash)
                    &&& hash@ == password_token(password@)
                    &&& final(config)@ == (AppConfigView {
                        base_url: old(config)@.base_url,
                        master_hash: Some(hash@),
                    })
                },
                Err(e) => {
                    &&& r matches Err(message)
                    &&& message@ == message_text(e)
                    &&& final(config)@ == old(config)@
                },
            },
        },
{
    if let Some(hash) = &config.master_hash {
        return Ok(hash.clone());
    }
    let auth_hash = hash_password(password);
    let api = match CloudApi::new(String::from_str(base_url)) {
        Ok(api) => api,
        Err(e) => {
            return Err(to_message(e));
        },
    };
    match api.verify_master(verification) {
        Ok(_) => {
            config.master_hash = Some(auth_hash.clone());
            Ok(auth_hash)
        },
        Err(e) => Err(to_message(e)),
    }
}

/// Links the client to the host at `normalized`, provided the host
/// accepted the token of `password`: `verification` is what came of
/// sending the verify request with that token. On success the address and
/// the token are cached; otherwise the configuration stays as it was.
pub fn set_cloud_endpoint<T>(
    config: &mut AppConfig,
    normalized: String,
    password: &str,
    verification: &Delivery<T>,
) -> (r: Result<(), String>)
    ensures
        match verified_reply(*verification) {
            Ok(_) => r is Ok && final(config)@ == (AppConfigView {
                base_url: Some(normalized@),
                master_hash: Some(password_token(password@)),
            }),
            Err(e) => r matches Err(message) && message@ == message_text(e) && final(config)@
                == old(config)@,
        },
{
    let api = match CloudApi::new(normalized.clone()) {
        Ok(api) => api,
        Err(e) => {
            return Err(to_message(e));
        },
    };
    let auth_hash = hash_password(password);
    match api.verify_master(verification) {
        Ok(_) => {
            config.base_url = Some(normalized);
            config.master_hash = Some(auth_hash);
            Ok(())
        },
        Err(e) => Err(to_message(e)),
    }
}

/// What the user is told of the host's answer to an info request.
pub open spec fn info_text(info: CloudInfoResponseView) -> Seq<char> {
    if info.success {
        "Cloud vault reachable. Stored entries: "@ + decimal(info.entry_count as nat)
    } else {
        "Cloud info error: "@ + match info.message {
            Some(message) => message,
            None => "Unknown error"@,
        }
    }
}

/// What the user is told of the host's answer to an info request, and
/// whether the answer reports success.
pub fn cloud_info(info: CloudInfoResponse) -> (r: (bool, String))
    ensures
        r.0 == info.success,
        r.1@ == info_text(info@),
{
    if info.success {
        (
            true,
            String::from_str("Cloud vault reachable. Stored entries: ").concat(
                decimal_text(info.entry_count as u64).as_str(),
            ),
        )
    } else {
        let message = match info.message {
            Some(message) => message,
            None => String::from_str("Unknown error"),
        };
        (false, String::from_str("Cloud info error: ").concat(message.as_str()))
    }
}

/// What the user is told after the link to a host was removed.
pub open spec fn removal_text(previous: Option<Seq<char>>) -> Seq<char> {
    match previous {
        Some(endpoint) => "Removed cloud endpoint "@ + endpoint + "."@,
        None => "No linked cloud endpoint to remove."@,
    }
}

/// Forgets the host and the cached token, and says what was removed.
pub fn remove_cloud_link(config: &mut AppConfig) -> (message: String)
    ensures
        final(config)@ == (AppConfigView { base_url: None, master_hash: None }),
        message@ == removal_text(old(config)@.base_url),
{
    let previous = config.base_url.take();
    config.master_hash = None;
    match previous {
        Some(endpoint) => String::from_str("Removed cloud endpoint ").concat(
            endpoint.as_str(),
        ).concat("."),
        None => String::from_str("No linked cloud endpoint to remove."),
    }
}

/// What the status shows of a configuration: the host's address, or that
/// there is none, and whether a token is cached. The token itself is
/// never shown.
pub struct CloudStatus {
    pub endpoint: Option<String>,
    pub hint: Option<String>,
    pub master_password_stored: bool,
}

/// The status as mathematics.
pub struct CloudStatusView {
    pub endpoint: Option<Seq<char>>,
    pub hint: Option<Seq<char>>,
    pub master_password_stored: bool,
}

impl View for CloudStatus {
    type V = CloudStatusView;

    open spec fn view(&self) -> CloudStatusView {
        CloudStatusView {
            endpoint: optional_text_view(self.endpoint),
            hint: optional_text_view(self.hint),
            master_password_stored: self.master_password_stored,
        }
    }
}

/// The status of a configuration.
pub open spec fn status_of(config: AppConfigView) -> CloudStatusView {
    CloudStatusView {
        endpoint: config.base_url,
        hint: match config.base_url {
            Some(_) => None,
            None => Some(
                "No cloud endpoint configured. Use `x cloud <url>` to link to a host."@,
            ),
        },
        master_password_stored: config.master_hash is Some,
    }
}

/// What the status shows of `config`.
pub fn show_status(config: &AppConfig) -> (status: CloudStatus)
    ensures
        status@ == status_of(config@),
{
    match &config.base_url {
        Some(url) => CloudStatus {
            endpoint: Some(url.clone()),
            hint: None,
            master_password_stored: config.master_hash.is_some(),
        },
        None => CloudStatus {
            endpoint: None,
            hint: Some(
                String::from_str(
                    "No cloud endpoint configured. Use `x cloud <url>` to link to a host.",
                ),
            ),
            master_password_stored: config.master_hash.is_some(),
        },
    }
}

/// What the logic reads of a parsed URL.
pub struct UrlParts {
    /// The scheme, without the colon.
    pub scheme: String,
    /// The path.
    pub path: String,
    /// The URL written out again.
    pub text: String,
}

/// The parts of a URL as mathematics.
pub struct UrlPartsView {
    pub scheme: Seq<char>,
    pub path: Seq<char>,
    pub text: Seq<char>,
}

impl View for UrlParts {
    type V = UrlPartsView;

    open spec fn view(&self) -> UrlPartsView {
        UrlPartsView { scheme: self.scheme@, path: self.path@, text: self.text@ }
    }
}

/// What the URL parser makes of a text: the parts of the URL, or the text
/// of its error.
pub uninterp spec fn url_parsed(text: Seq<char>) -> Result<UrlPartsView, Seq<char>>;

/// The URL `text` written out with `path` in place of its own path, where
/// `text` is a URL.
pub uninterp spec fn url_with_path(text: Seq<char>, path: Seq<char>) -> Option<Seq<char>>;

/// Calls `Url::parse` and reads the scheme, the path and the text of the
/// result.
///
/// Trusted: the outcome is a function of the text alone.
#[verifier::external_body]
fn parse_url(text: &str) -> (r: Result<UrlParts, String>)
    ensures
        match r {
            Ok(parts) => url_parsed(text@) == Ok::<UrlPartsView, Seq<char>>(parts@),
            Err(why) => url_parsed(text@) == Err::<UrlPartsView, Seq<char>>(why@),
        },
{
    match reqwest::Url::parse(text) {
        Ok(url) => Ok(
            UrlParts {
                scheme: url.scheme().to_string(),
                path: url.path().to_string(),
                text: url.to_string(),
            },
        ),
        Err(e) => Err(e.to_string()),
    }
}

/// Whether a URL that is written out as `written` has room for `path` in
/// place of its own path: a URL holds at most 2^32 - 1 bytes, and a byte
/// of a path may take three once it is escaped.
pub open spec fn path_fits(written: Seq<char>, path: Seq<char>) -> bool {
    encode_utf8(written).len() + 3 * encode_utf8(path).len() + 1 <= u32::MAX
}

/// Calls `Url::parse` and `Url::set_path`, and writes the result out.
///
/// Trusted: there is a result exactly when the text parses, and it is a
/// function of the text and the path. `Url::set_path` panics where the
/// URL grows beyond 2^32 - 1 bytes, which `requires` leaves out.
#[verifier::external_body]
fn replace_url_path(text: &str, path: &str) -> (r: Option<String>)
    requires
        url_parsed(text@) matches Ok(parts) ==> path_fits(parts.text, path@),
    ensures
        r is Some <==> url_parsed(text@) is Ok,
        r matches Some(written) ==> url_with_path(text@, path@) == Some(written@),
{
    match reqwest::Url::parse(text) {
        Ok(mut url) => {
            url.set_path(path);
            Some(url.to_string())
        },
        Err(_) => None,
    }
}

/// The text that is parsed as the host's address: the input without the
/// white space around it where that is a URL, and with `http://` in front
/// where it is not.
pub open spec fn url_candidate(input: Seq<char>) -> Seq<char> {
    if url_parsed(trimmed(input)) is Ok {
        trimmed(input)
    } else {
        "http://"@ + trimmed(input)
    }
}

/// The address as it is stored, given the parts of what was parsed and the
/// same URL written out with the path of the protocol, where there was
/// room for that path. The scheme must be `http` or `https`; an address
/// without a path of its own gets the path of the protocol; no slash stays
/// at the end.
pub open spec fn finished_url(parts: UrlPartsView, with_protocol_path: Option<Seq<char>>) -> Result<
    Seq<char>,
    Seq<char>,
> {
    if parts.scheme != "http"@ && parts.scheme != "https"@ {
        Err("Cloud URL must start with http:// or https://"@)
    } else if parts.path == "/"@ || parts.path.len() == 0 {
        match with_protocol_path {
            Some(written) => Ok(without_trailing(written, '/')),
            None => Err("Cloud URL is too long"@),
        }
    } else {
        Ok(without_trailing(parts.text, '/'))
    }
}

/// The address of a host as it is stored, or why the input is no such
/// address.
pub open spec fn normalized_url(input: Seq<char>) -> Result<Seq<char>, Seq<char>> {
    if trimmed(input).len() == 0 {
        Err("Cloud URL cannot be empty"@)
    } else {
        match url_parsed(url_candidate(input)) {
            Err(why) => Err("Invalid URL: "@ + why),
            Ok(parts) => finished_url(
                parts,
                if path_fits(parts.text, "api/cloudsync"@) {
                    url_with_path(url_candidate(input), "api/cloudsync"@)
                } else {
                    None
                },
            ),
        }
    }
}

/// The address as it is stored, given the parts of what was parsed and the
/// same URL written out with the path of the protocol.
pub fn finish_url(parts: UrlParts, with_protocol_path: Option<String>) -> (r: Result<
    String,
    String,
>)
    ensures
        match r {
            Ok(url) => finished_url(parts@, optional_text_view(with_protocol_path)) == Ok::<
                Seq<char>,
                Seq<char>,
            >(url@),
            Err(why) => finished_url(parts@, optional_text_view(with_protocol_path)) == Err::<
                Seq<char>,
                Seq<char>,
            >(why@),
        },
{
    if !same_text(parts.scheme.as_str(), "http") && !same_text(parts.scheme.as_str(), "https") {
        return Err(String::from_str("Cloud URL must start with http:// or https://"));
    }
    let written = if same_text(parts.path.as_str(), "/") || parts.path.as_str().is_empty() {
        match with_protocol_path {
            Some(written) => written,
            None => {
                return Err(String::from_str("Cloud URL is too long"));
            },
        }
    } else {
        parts.text
    };
    Ok(String::from_str(trim_end_char(written.as_str(), '/')))
}

/// Whether a URL that is written out as `written` has room for `path`.
fn has_room(written: &str, path: &str) -> (r: bool)
    ensures
        r == path_fits(written@, path@),
{
    let escaped = match path.as_bytes().len().checked_mul(3) {
        Some(escaped) => escaped,
        None => {
            return false;
        },
    };
    let added = match escaped.checked_add(1) {
        Some(added) => added,
        None => {
            return false;
        },
    };
    match added.checked_add(written.as_bytes().len()) {
        Some(total) => total as u64 <= u32::MAX as u64,
        None => false,
    }
}

/// The address of a host as it is stored, or why the input is no such
/// address.
pub fn normalize_base_url(input: &str) -> (r: Result<String, String>)
    ensures
        match r {
            Ok(url) => normalized_url(input@) == Ok::<Seq<char>, Seq<char>>(url@),
            Err(why) => normalized_url(input@) == Err::<Seq<char>, Seq<char>>(why@),
        },
{
    let trimmed_input = trim_text(input);
    if trimmed_input.is_empty() {
        return Err(String::from_str("Cloud URL cannot be empty"));
    }
    let (candidate, parts) = match parse_url(trimmed_input) {
        Ok(parts) => (String::from_str(trimmed_input), parts),
        Err(_) => {
            let candidate = String::from_str("http://").concat(trimmed_input);
            match parse_url(candidate.as_str()) {
                Ok(parts) => (candidate, parts),
                Err(why) => {
                    return Err(String::from_str("Invalid URL: ").concat(why.as_str()));
                },
            }
        },
    };
    let with_protocol_path = if has_room(parts.text.as_str(), "api/cloudsync") {
        replace_url_path(candidate.as_str(), "api/cloudsync")
    } else {
        None
    };
    finish_url(parts, with_protocol_path)
}

} // verus!
