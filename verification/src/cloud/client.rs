//! The client: requests to the host, and what its answers mean.
//!
//! Nothing here touches the network. A request is a value that the caller
//! sends; what came of sending it is a value that the caller hands back.
//! Each call is a single attempt: nothing is retried.

use vstd::prelude::*;
use vstd::string::StringExecFns;
use vstd::utf8::encode_utf8;
use crate::cloud::types::{
    copy_vault, headers_view, vault_view, CloudInfoResponse, CloudResponse, Header, HeaderView,
    VaultEntry, VaultEntryView,
};
use crate::security::master_password::{
    blake3_digest, password_token, token_key, MasterSecret,
};
use crate::text::{trim_end_char, without_trailing};

verus! {

/// Name of the request header that carries the token, as the client sends
/// it.
pub const MASTER_HASH_HEADER: &'static str = "X-Master-Hash";

/// Seconds after which an unanswered request counts as failed.
pub const REQUEST_TIMEOUT_SECS: u64 = 15;

/// Why a call to the host failed.
#[derive(Debug)]
pub enum CloudClientError {
    /// The host could not be reached, or its answer could not be read; the
    /// text is the transport's own.
    Http(String),
    /// The host answered with a failure; the text is its diagnosis.
    Failure(String),
    /// The host rejected the token.
    AuthenticationFailed,
}

/// A client error as mathematics.
pub enum CloudClientErrorView {
    Http(Seq<char>),
    Failure(Seq<char>),
    AuthenticationFailed,
}

impl View for CloudClientError {
    type V = CloudClientErrorView;

    open spec fn view(&self) -> CloudClientErrorView {
        match self {
            CloudClientError::Http(m) => CloudClientErrorView::Http(m@),
            CloudClientError::Failure(m) => CloudClientErrorView::Failure(m@),
            CloudClientError::AuthenticationFailed => CloudClientErrorView::AuthenticationFailed,
        }
    }
}

/// The text that describes a client error.
pub open spec fn client_error_text(err: CloudClientErrorView) -> Seq<char> {
    match err {
        CloudClientErrorView::Http(m) => "Network error: "@ + m,
        CloudClientErrorView::Failure(m) => m,
        CloudClientErrorView::AuthenticationFailed => "Authentication with the cloud host failed"@,
    }
}

impl CloudClientError {
    /// The text that describes the error.
    pub fn message(&self) -> (text: String)
        ensures
            text@ == client_error_text(self@),
    {
        match self {
            CloudClientError::Http(m) => String::from_str("Network error: ").concat(m.as_str()),
            CloudClientError::Failure(m) => m.clone(),
            CloudClientError::AuthenticationFailed => String::from_str(
                "Authentication with the cloud host failed",
            ),
        }
    }
}

/// How a request is made.
#[derive(Clone, Copy, Debug, PartialEq, Eq, Structural)]
pub enum HttpMethod {
    Get,
    Post,
}

/// What a request carries as its body.
pub enum RequestBody {
    /// No body.
    Nothing,
    /// The JSON text `{}`.
    EmptyObject,
    /// A JSON object whose `vault` member is the list of entries.
    Vault(Vec<VaultEntry>),
}

/// A request body as mathematics.
pub enum RequestBodyView {
    Nothing,
    EmptyObject,
    Vault(Seq<VaultEntryView>),
}

impl View for RequestBody {
    type V = RequestBodyView;

    open spec fn view(&self) -> RequestBodyView {
        match self {
            RequestBody::Nothing => RequestBodyView::Nothing,
            RequestBody::EmptyObject => RequestBodyView::EmptyObject,
            RequestBody::Vault(vault) => RequestBodyView::Vault(vault_view(vault@)),
        }
    }
}

/// A request for the caller to send.
pub struct HttpRequest {
    pub method: HttpMethod,
    pub url: String,
    pub headers: Vec<Header>,
    pub body: RequestBody,
}

/// A request as mathematics.
pub struct HttpRequestView {
    pub method: HttpMethod,
    pub url: Seq<char>,
    pub headers: Seq<HeaderView>,
    pub body: RequestBodyView,
}

impl View for HttpRequest {
    type V = HttpRequestView;

    open spec fn view(&self) -> HttpRequestView {
        HttpRequestView {
            method: self.method,
            url: self.url@,
            headers: headers_view(self.headers@),
            body: self.body@,
        }
    }
}

/// An answer of the host, as far as the client reads it.
pub struct Reply<T> {
    /// The status code.
    pub status: u16,
    /// The body as text, where it could be read.
    pub text: Option<String>,
    /// The body as the value expected, or why it is not one.
    pub decoded: Result<T, String>,
}

/// What came of sending one request.
pub enum Delivery<T> {
    /// No answer: the host was unreachable or timed out. The text is the
    /// transport's own.
    Failed(String),
    /// The host answered.
    Answered(Reply<T>),
}

/// The text of a status code: for a code from 100 to 999 the number, a
/// space and its reason phrase; for any other number the number alone.
pub uninterp spec fn status_line(status: u16) -> Seq<char>;

/// Whether a header value may be sent: each byte is a tab or at least 32,
/// and none is 127.
pub open spec fn sendable_header_value(text: Seq<char>) -> bool {
    let bytes = encode_utf8(text);
    forall|i: int|
        0 <= i < bytes.len() ==> {
            let b = #[trigger] bytes[i];
            (b >= 32 && b != 127) || b == 9
        }
}

/// Calls `StatusCode::from_u16` and formats the code; a number that is no
/// status code is formatted as it is.
///
/// Trusted: the text is a function of the number alone.
#[verifier::external_body]
fn status_text(status: u16) -> (text: String)
    ensures
        text@ == status_line(status),
{
    match reqwest::StatusCode::from_u16(status) {
        Ok(code) => code.to_string(),
        Err(_) => status.to_string(),
    }
}

/// Calls `HeaderValue::from_str` and says whether it accepted the text.
///
/// Trusted: a text is accepted exactly when each of its bytes is a tab or
/// at least 32, and none is 127.
#[verifier::external_body]
fn header_value_accepted(text: &str) -> (r: bool)
    ensures
        r == sendable_header_value(text@),
{
    reqwest::header::HeaderValue::from_str(text).is_ok()
}

/// Whether a status code reports success: 200 to 299.
pub open spec fn is_success(status: u16) -> bool {
    200 <= status < 300
}

/// The diagnosis made of the text of a status code and of the body, where
/// that could be read.
pub open spec fn diagnosis(status_text: Seq<char>, text: Option<String>) -> Seq<char> {
    "Server returned "@ + status_text + ": "@ + match text {
        Some(body) => body@,
        None => "Unable to read response body"@,
    }
}

/// The diagnosis of an answer that is neither a success nor a rejection of
/// the token.
pub open spec fn failure_text(status: u16, text: Option<String>) -> Seq<char> {
    diagnosis(status_line(status), text)
}

/// The diagnosis made of the text of a status code and of the body, where
/// that could be read.
pub fn failure_message(status_text: &str, text: Option<String>) -> (message: String)
    ensures
        message@ == diagnosis(status_text@, text),
{
    let body = match text {
        Some(body) => body,
        None => String::from_str("Unable to read response body"),
    };
    String::from_str("Server returned ").concat(status_text).concat(": ").concat(body.as_str())
}

/// What an answer means: a success carries its payload, 401 rejects the
/// token, any other status is a failure of the host, and no answer at all
/// is a failure of the network.
pub open spec fn parsed_reply<T>(delivery: Delivery<T>) -> Result<T, CloudClientErrorView> {
    match delivery {
        Delivery::Failed(why) => Err(CloudClientErrorView::Http(why@)),
        Delivery::Answered(reply) => if is_success(reply.status) {
            match reply.decoded {
                Ok(payload) => Ok(payload),
                Err(why) => Err(CloudClientErrorView::Http(why@)),
            }
        } else if reply.status == 401 {
            Err(CloudClientErrorView::AuthenticationFailed)
        } else {
            Err(CloudClientErrorView::Failure(failure_text(reply.status, reply.text)))
        },
    }
}

/// What the answer to a verify request means: any status but a success
/// rejects the token.
pub open spec fn verified_reply<T>(delivery: Delivery<T>) -> Result<(), CloudClientErrorView> {
    match delivery {
        Delivery::Failed(why) => Err(CloudClientErrorView::Http(why@)),
        Delivery::Answered(reply) => if is_success(reply.status) {
            Ok(())
        } else {
            Err(CloudClientErrorView::AuthenticationFailed)
        },
    }
}

/// The headers that carry `auth_hash`.
pub open spec fn auth_headers_view(auth_hash: Seq<char>) -> Seq<HeaderView> {
    Seq::empty().push(HeaderView { name: MASTER_HASH_HEADER@, value: auth_hash })
}

/// The headers that carry `auth_hash`, or a failure where the token cannot
/// be sent as a header value.
pub fn auth_headers(auth_hash: &str) -> (r: Result<Vec<Header>, CloudClientError>)
    ensures
        r is Ok <==> sendable_header_value(auth_hash@),
        r matches Ok(headers) ==> headers_view(headers@) == auth_headers_view(auth_hash@),
        r matches Err(e) ==> e@ == CloudClientErrorView::Failure("Invalid master password hash"@),
{
    if !header_value_accepted(auth_hash) {
        return Err(CloudClientError::Failure(String::from_str("Invalid master password hash")));
    }
    let mut headers: Vec<Header> = Vec::new();
    headers.push(
        Header { name: String::from_str(MASTER_HASH_HEADER), value: String::from_str(auth_hash) },
    );
    assert(headers_view(headers@) =~= auth_headers_view(auth_hash@));
    Ok(headers)
}

/// The stateless client of one host.
#[derive(Clone)]
pub struct CloudApi {
    base_url: String,
}

impl View for CloudApi {
    type V = Seq<char>;

    closed spec fn view(&self) -> Seq<char> {
        self.base_url@
    }
}

/// The address of a route: the base without its trailing slashes, a slash,
/// and the route's name.
pub open spec fn route_url(base_url: Seq<char>, path: Seq<char>) -> Seq<char> {
    without_trailing(base_url, '/') + "/"@ + path
}

/// The request that `method` makes to the route `path` with the token
/// `auth_hash`.
pub open spec fn route_request(
    base_url: Seq<char>,
    method: HttpMethod,
    path: Seq<char>,
    auth_hash: Seq<char>,
    body: RequestBodyView,
) -> HttpRequestView {
    HttpRequestView {
        method,
        url: route_url(base_url, path),
        headers: auth_headers_view(auth_hash),
        body,
    }
}

/// The verify request: like any other, with a header that declares its
/// body as JSON.
pub open spec fn verify_request_view(base_url: Seq<char>, auth_hash: Seq<char>) -> HttpRequestView {
    HttpRequestView {
        method: HttpMethod::Post,
        url: route_url(base_url, "auth"@),
        headers: auth_headers_view(auth_hash).push(
            HeaderView { name: "Content-Type"@, value: "application/json"@ },
        ),
        body: RequestBodyView::EmptyObject,
    }
}

impl CloudApi {
    /// The client of the host at `base_url`. Always succeeds; the result
    /// type leaves room for a transport that has to be set up.
    pub fn new(base_url: String) -> (r: Result<CloudApi, CloudClientError>)
        ensures
            r matches Ok(api) && api@ == base_url@,
    {
        Ok(CloudApi { base_url })
    }

    /// The address of the route `path`.
    pub fn url(&self, path: &str) -> (url: String)
        ensures
            url@ == route_url(self@, path@),
    {
        String::from_str(trim_end_char(self.base_url.as_str(), '/')).concat("/").concat(path)
    }

    fn request(&self, method: HttpMethod, path: &str, auth_hash: &str, body: RequestBody) -> (r:
        Result<HttpRequest, CloudClientError>)
        ensures
            r is Ok <==> sendable_header_value(auth_hash@),
            r matches Ok(request) ==> request@ == route_request(
                self@,
                method,
                path@,
                auth_hash@,
                body@,
            ),
            r matches Err(e) ==> e@ == CloudClientErrorView::Failure(
                "Invalid master password hash"@,
            ),
    {
        let url = self.url(path);
        match auth_headers(auth_hash) {
            Ok(headers) => Ok(HttpRequest { method, url, headers, body }),
            Err(e) => Err(e),
        }
    }

    /// The request that asks the host whether it accepts `auth_hash`.
    pub fn verify_request(&self, auth_hash: &str) -> (r: Result<HttpRequest, CloudClientError>)
        ensures
            r is Ok <==> sendable_header_value(auth_hash@),
            r matches Ok(request) ==> request@ == verify_request_view(self@, auth_hash@),
            r matches Err(e) ==> e@ == CloudClientErrorView::Failure(
                "Invalid master password hash"@,
            ),
    {
        let url = self.url("auth");
        match auth_headers(auth_hash) {
            Ok(headers) => {
                let mut headers = headers;
                headers.push(
                    Header {
                        name: String::from_str("Content-Type"),
                        value: String::from_str("application/json"),
                    },
                );
                let request = HttpRequest {
                    method: HttpMethod::Post,
                    url,
                    headers,
                    body: RequestBody::EmptyObject,
                };
                assert(request@.headers =~= verify_request_view(self@, auth_hash@).headers);
                Ok(request)
            },
            Err(e) => Err(e),
        }
    }

    /// The request that reads the vault.
    pub fn fetch_vault_request(&self, auth_hash: &str) -> (r: Result<
        HttpRequest,
        CloudClientError,
    >)
        ensures
            r is Ok <==> sendable_header_value(auth_hash@),
            r matches Ok(request) ==> request@ == route_request(
                self@,
                HttpMethod::Get,
                "vault"@,
                auth_hash@,
                RequestBodyView::Nothing,
            ),
            r matches Err(e) ==> e@ == CloudClientErrorView::Failure(
                "Invalid master password hash"@,
            ),
    {
        self.request(HttpMethod::Get, "vault", auth_hash, RequestBody::Nothing)
    }

    /// The request that replaces the vault with `vault`.
    pub fn save_vault_request(&self, auth_hash: &str, vault: &[VaultEntry]) -> (r: Result<
        HttpRequest,
        CloudClientError,
    >)
        ensures
            r is Ok <==> sendable_header_value(auth_hash@),
            r matches Ok(request) ==> request@ == route_request(
                self@,
                HttpMethod::Post,
                "vault"@,
                auth_hash@,
                RequestBodyView::Vault(vault_view(vault@)),
            ),
            r matches Err(e) ==> e@ == CloudClientErrorView::Failure(
                "Invalid master password hash"@,
            ),
    {
        self.request(HttpMethod::Post, "vault", auth_hash, RequestBody::Vault(copy_vault(vault)))
    }

    /// The request that asks for the number of entries.
    pub fn info_request(&self, auth_hash: &str) -> (r: Result<HttpRequest, CloudClientError>)
        ensures
            r is Ok <==> sendable_header_value(auth_hash@),
            r matches Ok(request) ==> request@ == route_request(
                self@,
                HttpMethod::Get,
                "info"@,
                auth_hash@,
                RequestBodyView::Nothing,
            ),
            r matches Err(e) ==> e@ == CloudClientErrorView::Failure(
                "Invalid master password hash"@,
            ),
    {
        self.request(HttpMethod::Get, "info", auth_hash, RequestBody::Nothing)
    }

    /// What the answer to a request means.
    pub fn parse_response<T>(delivery: Delivery<T>) -> (r: Result<T, CloudClientError>)
        ensures
            match r {
                Ok(payload) => parsed_reply(delivery) == Ok::<T, CloudClientErrorView>(payload),
                Err(e) => parsed_reply(delivery) == Err::<T, CloudClientErrorView>(e@),
            },
    {
        match delivery {
            Delivery::Failed(why) => Err(CloudClientError::Http(why)),
            Delivery::Answered(reply) => {
                if 200 <= reply.status && reply.status < 300 {
                    match reply.decoded {
                        Ok(payload) => Ok(payload),
                        Err(why) => Err(CloudClientError::Http(why)),
                    }
                } else if reply.status == 401 {
                    Err(CloudClientError::AuthenticationFailed)
                } else {
                    Err(
                        CloudClientError::Failure(
                            failure_message(status_text(reply.status).as_str(), reply.text),
                        ),
                    )
                }
            },
        }
    }

    /// What the answer to a verify request means: the token is accepted on
    /// a success and rejected on any other status.
    pub fn verify_master<T>(&self, delivery: &Delivery<T>) -> (r: Result<(), CloudClientError>)
        ensures
            match r {
                Ok(_) => verified_reply(*delivery) == Ok::<(), CloudClientErrorView>(()),
                Err(e) => verified_reply(*delivery) == Err::<(), CloudClientErrorView>(e@),
            },
    {
        match delivery {
            Delivery::Failed(why) => Err(CloudClientError::Http(why.clone())),
            Delivery::Answered(reply) => {
                if 200 <= reply.status && reply.status < 300 {
                    Ok(())
                } else {
                    Err(CloudClientError::AuthenticationFailed)
                }
            },
        }
    }

    /// The vault that the answer to a read carries; an answer without a
    /// vault stands for an empty one.
    pub fn fetch_vault(&self, delivery: Delivery<CloudResponse>) -> (r: Result<
        Vec<VaultEntry>,
        CloudClientError,
    >)
        ensures
            match r {
                Ok(vault) => parsed_reply(delivery) matches Ok(response) && vault@
                    == match response.vault {
                    Some(entries) => entries@,
                    None => Seq::empty(),
                },
                Err(e) => parsed_reply(delivery) == Err::<CloudResponse, CloudClientErrorView>(e@),
            },
    {
        match Self::parse_response(delivery) {
            Ok(response) => match response.vault {
                Some(entries) => Ok(entries),
                None => Ok(Vec::new()),
            },
            Err(e) => Err(e),
        }
    }

    /// What the answer to a write means: the write took place exactly when
    /// the host says so; otherwise its message is the failure.
    pub fn save_vault(&self, delivery: Delivery<CloudResponse>) -> (r: Result<
        (),
        CloudClientError,
    >)
        ensures
            match r {
                Ok(_) => parsed_reply(delivery) matches Ok(response) && response.success,
                Err(e) => match parsed_reply(delivery) {
                    Ok(response) => !response.success && e@ == CloudClientErrorView::Failure(
                        response.message@,
                    ),
                    Err(why) => e@ == why,
                },
            },
    {
        match Self::parse_response(delivery) {
            Ok(response) => {
                if response.success {
                    Ok(())
                } else {
                    Err(CloudClientError::Failure(response.message))
                }
            },
            Err(e) => Err(e),
        }
    }

    /// What the answer to an info request carries.
    pub fn info(&self, delivery: Delivery<CloudInfoResponse>) -> (r: Result<
        CloudInfoResponse,
        CloudClientError,
    >)
        ensures
            match r {
                Ok(payload) => parsed_reply(delivery) == Ok::<
                    CloudInfoResponse,
                    CloudClientErrorView,
                >(payload),
                Err(e) => parsed_reply(delivery) == Err::<CloudInfoResponse, CloudClientErrorView>(
                    e@,
                ),
            },
    {
        Self::parse_response(delivery)
    }
}

/// A session as mathematics.
pub struct SessionView {
    pub base_url: Seq<char>,
    pub auth_hash: Seq<char>,
    pub encryption_key: Seq<u8>,
}

/// A token that the host has accepted, bound to that host, together with
/// the key that the token carries.
pub struct RemoteSession {
    api: CloudApi,
    auth_hash: String,
    encryption_key: [u8; 32],
}

impl View for RemoteSession {
    type V = SessionView;

    closed spec fn view(&self) -> SessionView {
        SessionView {
            base_url: self.api@,
            auth_hash: self.auth_hash@,
            encryption_key: self.encryption_key@,
        }
    }
}

/// What establishing a session from a password gives, for each answer of
/// the host to the verify request.
pub open spec fn session_of_password<T>(
    base_url: Seq<char>,
    master_password: Seq<char>,
    verification: Delivery<T>,
) -> Result<SessionView, CloudClientErrorView> {
    match verified_reply(verification) {
        Ok(_) => Ok(
            SessionView {
                base_url,
                auth_hash: password_token(master_password),
                encryption_key: blake3_digest(encode_utf8(master_password)),
            },
        ),
        Err(e) => Err(e),
    }
}

/// What establishing a session from a cached token gives: a token that is
/// not 64 hexadecimal digits fails before the host's answer is looked at.
pub open spec fn session_of_token<T>(
    base_url: Seq<char>,
    auth_hash: Seq<char>,
    verification: Delivery<T>,
) -> Result<SessionView, CloudClientErrorView> {
    match token_key(auth_hash) {
        None => Err(CloudClientErrorView::Failure("Stored master password hash is invalid"@)),
        Some(key) => match verified_reply(verification) {
            Ok(_) => Ok(SessionView { base_url, auth_hash, encryption_key: key }),
            Err(e) => Err(e),
        },
    }
}

impl RemoteSession {
    /// The token is the hexadecimal form of the key.
    pub open spec fn wf(&self) -> bool {
        token_key(self@.auth_hash) == Some(self@.encryption_key)
    }

    /// Establishes a session from a password. `verification` is what came
    /// of sending the verify request with the password's token; only a
    /// success of the host yields a session.
    pub fn new<T>(base_url: String, master_password: String, verification: &Delivery<T>) -> (r:
        Result<RemoteSession, CloudClientError>)
        ensures
            match r {
                Ok(session) => session.wf() && session_of_password(
                    base_url@,
                    master_password@,
                    *verification,
                ) == Ok::<SessionView, CloudClientErrorView>(session@),
                Err(e) => session_of_password(base_url@, master_password@, *verification)
                    == Err::<SessionView, CloudClientErrorView>(e@),
            },
    {
        let secret = MasterSecret::derive(master_password.as_str());
        Self::from_hash_bytes(base_url, secret, verification)
    }

    /// Establishes a session from a cached token. `verification` is what
    /// came of sending the verify request with that token.
    pub fn from_hash<T>(base_url: String, auth_hash: String, verification: &Delivery<T>) -> (r:
        Result<RemoteSession, CloudClientError>)
        ensures
            match r {
                Ok(session) => session.wf() && session_of_token(
                    base_url@,
                    auth_hash@,
                    *verification,
                ) == Ok::<SessionView, CloudClientErrorView>(session@),
                Err(e) => session_of_token(base_url@, auth_hash@, *verification) == Err::<
                    SessionView,
                    CloudClientErrorView,
                >(e@),
            },
    {
        match MasterSecret::from_token(auth_hash.as_str()) {
            Some(secret) => Self::from_hash_bytes(base_url, secret, verification),
            None => Err(
                CloudClientError::Failure(
                    String::from_str("Stored master password hash is invalid"),
                ),
            ),
        }
    }

    fn from_hash_bytes<T>(base_url: String, secret: MasterSecret, verification: &Delivery<T>) -> (r:
        Result<RemoteSession, CloudClientError>)
        requires
            secret.wf(),
        ensures
            match r {
                Ok(session) => session.wf() && verified_reply(*verification) is Ok && session@ == (
                SessionView {
                    base_url: base_url@,
                    auth_hash: secret.token@,
                    encryption_key: secret.key@,
                }),
                Err(e) => verified_reply(*verification) == Err::<(), CloudClientErrorView>(e@),
            },
    {
        let api = match CloudApi::new(base_url) {
            Ok(api) => api,
            Err(e) => {
                return Err(e);
            },
        };
        match api.verify_master(verification) {
            Ok(_) => Ok(
                RemoteSession { api, auth_hash: secret.token, encryption_key: secret.key },
            ),
            Err(e) => Err(e),
        }
    }

    /// The token that the host accepted.
    pub fn auth_hash(&self) -> (token: &str)
        ensures
            token@ == self@.auth_hash,
    {
        self.auth_hash.as_str()
    }

    /// The key that the token carries.
    pub fn encryption_key(&self) -> (key: &[u8; 32])
        ensures
            key@ == self@.encryption_key,
    {
        &self.encryption_key
    }

    /// The request that reads the vault with the session's token.
    pub fn fetch_vault_request(&self) -> (r: Result<HttpRequest, CloudClientError>)
        ensures
            r is Ok <==> sendable_header_value(self@.auth_hash),
            r matches Ok(request) ==> request@ == route_request(
                self@.base_url,
                HttpMethod::Get,
                "vault"@,
                self@.auth_hash,
                RequestBodyView::Nothing,
            ),
            r matches Err(e) ==> e@ == CloudClientErrorView::Failure(
                "Invalid master password hash"@,
            ),
    {
        self.api.fetch_vault_request(self.auth_hash.as_str())
    }

    /// The request that replaces the vault with `vault`, with the
    /// session's token.
    pub fn save_vault_request(&self, vault: &[VaultEntry]) -> (r: Result<
        HttpRequest,
        CloudClientError,
    >)
        ensures
            r is Ok <==> sendable_header_value(self@.auth_hash),
            r matches Ok(request) ==> request@ == route_request(
                self@.base_url,
                HttpMethod::Post,
                "vault"@,
                self@.auth_hash,
                RequestBodyView::Vault(vault_view(vault@)),
            ),
            r matches Err(e) ==> e@ == CloudClientErrorView::Failure(
                "Invalid master password hash"@,
            ),
    {
        self.api.save_vault_request(self.auth_hash.as_str(), vault)
    }

    /// The vault that the answer to a read carries. Nothing is decrypted
    /// here.
    pub fn fetch_vault(&self, delivery: Delivery<CloudResponse>) -> (r: Result<
        Vec<VaultEntry>,
        CloudClientError,
    >)
        ensures
            match r {
                Ok(vault) => parsed_reply(delivery) matches Ok(response) && vault@
                    == match response.vault {
                    Some(entries) => entries@,
                    None => Seq::empty(),
                },
                Err(e) => parsed_reply(delivery) == Err::<CloudResponse, CloudClientErrorView>(e@),
            },
    {
        self.api.fetch_vault(delivery)
    }

    /// What the answer to a write means.
    pub fn save_vault(&self, delivery: Delivery<CloudResponse>) -> (r: Result<
        (),
        CloudClientError,
    >)
        ensures
            match r {
                Ok(_) => parsed_reply(delivery) matches Ok(response) && response.success,
                Err(e) => match parsed_reply(delivery) {
                    Ok(response) => !response.success && e@ == CloudClientErrorView::Failure(
                        response.message@,
                    ),
                    Err(why) => e@ == why,
                },
            },
    {
        self.api.save_vault(delivery)
    }
}

} // verus!
