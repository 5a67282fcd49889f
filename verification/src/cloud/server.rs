//! The host: one token, one vault, and the four routes that serve them.
//!
//! The store binds a single authentication token to a single vault. The
//! token is claimed once, when the host starts; every route verifies the
//! request's token against it before it touches the vault. A write replaces
//! the vault as a whole.

use vstd::prelude::*;
use vstd::string::StringExecFns;
use vstd::utf8::{encode_utf8, is_ascii_chars, is_ascii_chars_encode_utf8};
use crate::cloud::client::{auth_headers_view, verify_request_view};
use crate::cloud::types::{
    copy_vault, find_header, header_value, headers_view, optional_text_view, vault_view,
    CloudInfoResponse, CloudInfoResponseView, CloudResponse, CloudResponseView, Header,
    HeaderView, VaultEntry, VaultEntryView,
};
use crate::config::DATA_DIR_NAME;
use crate::security::master_password::password_token;
use crate::text::{ascii_lower, decimal, decimal_text, same_ignoring_case};

verus! {

/// Status of a request that succeeded.
pub const STATUS_OK: u16 = 200;

/// Status of a request that was badly formed.
pub const STATUS_BAD_REQUEST: u16 = 400;

/// Status of a request whose token is missing or wrong.
pub const STATUS_UNAUTHORIZED: u16 = 401;

/// Status of a request that failed inside the host.
pub const STATUS_INTERNAL_SERVER_ERROR: u16 = 500;

/// Name of the meta entry under which the host persists its token.
pub const MASTER_HASH_KEY: &'static str = "master_hash";

/// Name of the entry under which the host persists its vault.
pub const VAULT_KEY: &'static str = "vault";

/// Name of the request header that carries the token, as the host looks it
/// up. Header names match whatever their case.
pub const MASTER_HASH_HEADER: &'static str = "x-master-hash";

/// Path of the route that only verifies the token.
pub const AUTH_PATH: &'static str = "/api/cloudsync/auth";

/// Path of the routes that read and replace the vault.
pub const VAULT_PATH: &'static str = "/api/cloudsync/vault";

/// Path of the route that reports the number of entries.
pub const INFO_PATH: &'static str = "/api/cloudsync/info";

/// Name of the file, in the data directory, that holds the host's store.
pub const STORE_FILE_NAME: &'static str = "cloud_host.db";

/// How the host is to run.
#[derive(Clone, Debug)]
pub struct ServerConfig {
    /// Address to listen on.
    pub bind_address: String,
    /// Port to listen on.
    pub port: u16,
    /// Where the store lives, if not in the default place.
    pub data_path: Option<String>,
    /// The operator's token.
    pub master_hash: Option<String>,
}

/// A host configuration as mathematics.
pub struct ServerConfigView {
    pub bind_address: Seq<char>,
    pub port: u16,
    pub data_path: Option<Seq<char>>,
    pub master_hash: Option<Seq<char>>,
}

impl View for ServerConfig {
    type V = ServerConfigView;

    open spec fn view(&self) -> ServerConfigView {
        ServerConfigView {
            bind_address: self.bind_address@,
            port: self.port,
            data_path: optional_text_view(self.data_path),
            master_hash: optional_text_view(self.master_hash),
        }
    }
}

impl Default for ServerConfig {
    /// Every interface, port 4000, the default store, no token yet.
    fn default() -> (config: ServerConfig)
        ensures
            config@ == (ServerConfigView {
                bind_address: "0.0.0.0"@,
                port: 4000,
                data_path: None,
                master_hash: None,
            }),
    {
        ServerConfig {
            bind_address: String::from_str("0.0.0.0"),
            port: 4000,
            data_path: None,
            master_hash: None,
        }
    }
}

/// The path of the store as the parts to join: the configured path alone,
/// or the data directory (the current directory where the platform names
/// none), the application's directory and the store's file.
pub open spec fn storage_parts(data_path: Option<Seq<char>>, data_dir: Option<Seq<char>>) -> Seq<
    Seq<char>,
> {
    match data_path {
        Some(path) => Seq::empty().push(path),
        None => Seq::empty().push(
            match data_dir {
                Some(dir) => dir,
                None => "."@,
            },
        ).push(DATA_DIR_NAME@).push(STORE_FILE_NAME@),
    }
}

/// The parts of a list of texts, each by its view.
pub open spec fn parts_view(parts: Seq<String>) -> Seq<Seq<char>> {
    parts.map_values(|p: String| p@)
}

impl ServerConfig {
    /// The path of the store, as the parts that the caller joins.
    /// `data_dir` is the platform's data directory, where it names one.
    pub fn storage_path(&self, data_dir: Option<String>) -> (parts: Vec<String>)
        ensures
            parts_view(parts@) == storage_parts(self@.data_path, optional_text_view(data_dir)),
    {
        let mut parts: Vec<String> = Vec::new();
        match &self.data_path {
            Some(path) => {
                parts.push(path.clone());
            },
            None => {
                match data_dir {
                    Some(dir) => {
                        parts.push(dir);
                    },
                    None => {
                        parts.push(String::from_str("."));
                    },
                }
                parts.push(String::from_str(DATA_DIR_NAME));
                parts.push(String::from_str(STORE_FILE_NAME));
            },
        }
        assert(parts_view(parts@) =~= storage_parts(
            self@.data_path,
            optional_text_view(data_dir),
        ));
        parts
    }

    /// The address to bind, as text: the address, a colon, the port.
    pub fn socket_addr(&self) -> (text: String)
        ensures
            text@ == self@.bind_address + ":"@ + decimal(self.port as nat),
    {
        self.bind_address.clone().concat(":").concat(decimal_text(self.port as u64).as_str())
    }
}

/// What can go wrong on the host. Failures of the machine carry their
/// diagnostic text.
#[derive(Debug)]
pub enum ServerError {
    Io(String),
    Serde(String),
    Database(String),
    Http(String),
    Runtime(String),
    Address(String),
    Unauthorized,
    MissingMasterPassword,
}

/// A host error as mathematics.
pub enum ServerErrorView {
    Io(Seq<char>),
    Serde(Seq<char>),
    Database(Seq<char>),
    Http(Seq<char>),
    Runtime(Seq<char>),
    Address(Seq<char>),
    Unauthorized,
    MissingMasterPassword,
}

impl View for ServerError {
    type V = ServerErrorView;

    open spec fn view(&self) -> ServerErrorView {
        match self {
            ServerError::Io(m) => ServerErrorView::Io(m@),
            ServerError::Serde(m) => ServerErrorView::Serde(m@),
            ServerError::Database(m) => ServerErrorView::Database(m@),
            ServerError::Http(m) => ServerErrorView::Http(m@),
            ServerError::Runtime(m) => ServerErrorView::Runtime(m@),
            ServerError::Address(m) => ServerErrorView::Address(m@),
            ServerError::Unauthorized => ServerErrorView::Unauthorized,
            ServerError::MissingMasterPassword => ServerErrorView::MissingMasterPassword,
        }
    }
}

/// The text that describes a host error.
pub open spec fn error_text(err: ServerErrorView) -> Seq<char> {
    match err {
        ServerErrorView::Io(m) => "I/O error: "@ + m,
        ServerErrorView::Serde(m) => "Serialization error: "@ + m,
        ServerErrorView::Database(m) => "Database error: "@ + m,
        ServerErrorView::Http(m) => "HTTP server error: "@ + m,
        ServerErrorView::Runtime(m) => "Runtime error: "@ + m,
        ServerErrorView::Address(m) => "Invalid address: "@ + m,
        ServerErrorView::Unauthorized => "Unauthorized"@,
        ServerErrorView::MissingMasterPassword => "Master password is required to start the server"@,
    }
}

/// The status that answers a host error: 400 for a bad address or a missing
/// start-up credential, 401 for a rejected token, 500 for everything else.
pub open spec fn error_status(err: ServerErrorView) -> u16 {
    match err {
        ServerErrorView::Address(_) => STATUS_BAD_REQUEST,
        ServerErrorView::MissingMasterPassword => STATUS_BAD_REQUEST,
        ServerErrorView::Unauthorized => STATUS_UNAUTHORIZED,
        _ => STATUS_INTERNAL_SERVER_ERROR,
    }
}

/// The message sent with the status that answers a host error.
pub open spec fn error_reply_text(err: ServerErrorView) -> Seq<char> {
    match err {
        ServerErrorView::Address(m) => m,
        ServerErrorView::Unauthorized => "Authentication failed"@,
        ServerErrorView::MissingMasterPassword => "Master password required"@,
        _ => error_text(err),
    }
}

/// `prefix` followed by `detail`.
fn prefixed(prefix: &str, detail: &String) -> (text: String)
    ensures
        text@ == prefix@ + detail@,
{
    String::from_str(prefix).concat(detail.as_str())
}

impl ServerError {
    /// The text that describes the error.
    pub fn message(&self) -> (text: String)
        ensures
            text@ == error_text(self@),
    {
        match self {
            ServerError::Io(m) => prefixed("I/O error: ", m),
            ServerError::Serde(m) => prefixed("Serialization error: ", m),
            ServerError::Database(m) => prefixed("Database error: ", m),
            ServerError::Http(m) => prefixed("HTTP server error: ", m),
            ServerError::Runtime(m) => prefixed("Runtime error: ", m),
            ServerError::Address(m) => prefixed("Invalid address: ", m),
            ServerError::Unauthorized => String::from_str("Unauthorized"),
            ServerError::MissingMasterPassword => String::from_str(
                "Master password is required to start the server",
            ),
        }
    }
}

/// The status and the message that answer a host error.
pub fn classify_error(err: &ServerError) -> (r: (u16, String))
    ensures
        r.0 == error_status(err@),
        r.1@ == error_reply_text(err@),
{
    match err {
        ServerError::Address(m) => (STATUS_BAD_REQUEST, m.clone()),
        ServerError::Unauthorized => (STATUS_UNAUTHORIZED, String::from_str("Authentication failed")),
        ServerError::MissingMasterPassword => (
            STATUS_BAD_REQUEST,
            String::from_str("Master password required"),
        ),
        _ => (STATUS_INTERNAL_SERVER_ERROR, err.message()),
    }
}

/// The answer to a vault request that failed: no success, the error's
/// message, no vault.
pub fn to_error_response(err: ServerError) -> (r: (u16, CloudResponse))
    ensures
        r.0 == error_status(err@),
        r.1@ == (CloudResponseView {
            success: false,
            message: error_reply_text(err@),
            vault: None,
        }),
{
    let (status, message) = classify_error(&err);
    (status, CloudResponse { success: false, message, vault: None })
}

/// What the host holds in place of its vault.
pub enum VaultSlot {
    /// No vault was ever written.
    Empty,
    /// The vault as last written.
    Stored(Vec<VaultEntry>),
    /// What was last persisted could not be read back; the text says why.
    Unreadable(String),
}

/// The vault slot as mathematics.
pub enum VaultSlotView {
    Empty,
    Stored(Seq<VaultEntryView>),
    Unreadable(Seq<char>),
}

impl View for VaultSlot {
    type V = VaultSlotView;

    open spec fn view(&self) -> VaultSlotView {
        match self {
            VaultSlot::Empty => VaultSlotView::Empty,
            VaultSlot::Stored(entries) => VaultSlotView::Stored(vault_view(entries@)),
            VaultSlot::Unreadable(why) => VaultSlotView::Unreadable(why@),
        }
    }
}

/// The host's state as mathematics: the token, once claimed, and the vault
/// slot.
pub struct StoreView {
    pub master_hash: Option<Seq<char>>,
    pub vault: VaultSlotView,
}

impl StoreView {
    /// A store that holds nothing yet.
    pub open spec fn fresh() -> StoreView {
        StoreView { master_hash: None, vault: VaultSlotView::Empty }
    }

    /// Whether a claim-or-verify with `provided` succeeds: no token is
    /// held yet, or the one held is `provided`.
    pub open spec fn claimable(self, provided: Seq<char>) -> bool {
        match self.master_hash {
            Some(existing) => existing == provided,
            None => true,
        }
    }

    /// The store after a claim-or-verify with `provided`: a store without
    /// a token takes it, any other store stays as it is.
    pub open spec fn claimed(self, provided: Seq<char>) -> StoreView {
        match self.master_hash {
            Some(_) => self,
            None => StoreView { master_hash: Some(provided), vault: self.vault },
        }
    }

    /// Whether `provided` is the token that the store holds.
    pub open spec fn accepts(self, provided: Seq<char>) -> bool {
        self.master_hash == Some(provided)
    }

    /// What a read of the vault gives.
    pub open spec fn loaded(self) -> Result<Seq<VaultEntryView>, ServerErrorView> {
        match self.vault {
            VaultSlotView::Empty => Ok(Seq::empty()),
            VaultSlotView::Stored(entries) => Ok(entries),
            VaultSlotView::Unreadable(why) => Err(ServerErrorView::Serde(why)),
        }
    }

    /// The store after a write of `entries`: the vault is replaced as a
    /// whole, the token stays.
    pub open spec fn saved(self, entries: Seq<VaultEntryView>) -> StoreView {
        StoreView { master_hash: self.master_hash, vault: VaultSlotView::Stored(entries) }
    }
}

/// The host's store: at most one token and one vault.
pub struct CloudStore {
    master_hash: Option<String>,
    vault: VaultSlot,
}

impl View for CloudStore {
    type V = StoreView;

    closed spec fn view(&self) -> StoreView {
        StoreView {
            master_hash: match self.master_hash {
                Some(hash) => Some(hash@),
                None => None,
            },
            vault: self.vault@,
        }
    }
}

impl CloudStore {
    /// The store that holds what was persisted: the token, if one was
    /// claimed before, and the vault slot.
    pub fn new(master_hash: Option<String>, vault: VaultSlot) -> (store: CloudStore)
        ensures
            store@ == (StoreView {
                master_hash: match master_hash {
                    Some(hash) => Some(hash@),
                    None => None,
                },
                vault: vault@,
            }),
    {
        CloudStore { master_hash, vault }
    }

    /// The token that the store holds, if it holds one.
    pub fn master_hash(&self) -> (r: Option<String>)
        ensures
            match r {
                Some(hash) => self@.master_hash == Some(hash@),
                None => self@.master_hash is None,
            },
    {
        match &self.master_hash {
            Some(hash) => Some(hash.clone()),
            None => None,
        }
    }

    fn set_master_hash(&mut self, hash: &str)
        ensures
            final(self)@ == (StoreView { master_hash: Some(hash@), vault: old(self)@.vault }),
    {
        self.master_hash = Some(String::from_str(hash));
    }

    /// Claims the store for `provided` where no token is held yet;
    /// otherwise verifies `provided` against the token held. The host calls
    /// this once, when it starts, with the operator's own token.
    pub fn ensure_master_hash(&mut self, provided: &str) -> (r: Result<(), ServerError>)
        ensures
            r is Ok <==> old(self)@.claimable(provided@),
            r matches Err(e) ==> e@ == ServerErrorView::Unauthorized,
            final(self)@ == old(self)@.claimed(provided@),
    {
        match &self.master_hash {
            Some(existing) => {
                if existing.as_str().eq(provided) {
                    Ok(())
                } else {
                    Err(ServerError::Unauthorized)
                }
            },
            None => {
                self.set_master_hash(provided);
                Ok(())
            },
        }
    }

    /// Verifies `provided` against the token held. A store without a token
    /// accepts nothing: no request can claim it.
    pub fn verify_master(&self, provided: &str) -> (r: Result<(), ServerError>)
        ensures
            r is Ok <==> self@.accepts(provided@),
            r matches Err(e) ==> e@ == ServerErrorView::Unauthorized,
    {
        match &self.master_hash {
            Some(existing) => {
                if existing.as_str().eq(provided) {
                    Ok(())
                } else {
                    Err(ServerError::Unauthorized)
                }
            },
            None => Err(ServerError::Unauthorized),
        }
    }

    /// The vault as last written, or no entries where none was ever
    /// written. Fails where what was persisted could not be read back.
    pub fn load_vault(&self) -> (r: Result<Vec<VaultEntry>, ServerError>)
        ensures
            match r {
                Ok(entries) => self@.loaded() == Ok::<Seq<VaultEntryView>, ServerErrorView>(
                    vault_view(entries@),
                ),
                Err(e) => self@.loaded() == Err::<Seq<VaultEntryView>, ServerErrorView>(e@),
            },
    {
        match &self.vault {
            VaultSlot::Empty => {
                let entries: Vec<VaultEntry> = Vec::new();
                assert(vault_view(entries@) =~= Seq::empty());
                Ok(entries)
            },
            VaultSlot::Stored(entries) => Ok(copy_vault(entries.as_slice())),
            VaultSlot::Unreadable(why) => Err(ServerError::Serde(why.clone())),
        }
    }

    /// Replaces the vault with `entries`. Nothing of the vault held before
    /// remains.
    pub fn save_vault(&mut self, entries: &[VaultEntry]) -> (r: Result<(), ServerError>)
        ensures
            r is Ok,
            final(self)@ == old(self)@.saved(vault_view(entries@)),
    {
        self.vault = VaultSlot::Stored(copy_vault(entries));
        Ok(())
    }
}

/// Whether a request with these headers carries the token that the store
/// holds.
pub open spec fn authenticated(store: StoreView, headers: Seq<HeaderView>) -> bool {
    match header_value(headers, MASTER_HASH_HEADER@) {
        Some(token) => store.accepts(token),
        None => false,
    }
}

/// Checks the token that a request carries against the store.
pub fn authenticate(store: &CloudStore, headers: &Vec<Header>) -> (r: Result<(), ServerError>)
    ensures
        r is Ok <==> authenticated(store@, headers_view(headers@)),
        r matches Err(e) ==> e@ == ServerErrorView::Unauthorized,
{
    match find_header(headers, MASTER_HASH_HEADER) {
        Some(hash) => store.verify_master(hash.as_str()),
        None => Err(ServerError::Unauthorized),
    }
}

/// The body of a request that replaces the vault.
pub struct VaultUpdateRequest {
    pub vault: Vec<VaultEntry>,
}

/// The answer to a request that failed with `err`, as mathematics.
pub open spec fn failure_reply(err: ServerErrorView) -> (u16, CloudResponseView) {
    (
        error_status(err),
        CloudResponseView { success: false, message: error_reply_text(err), vault: None },
    )
}

/// The status of the answer to an auth request.
pub open spec fn auth_reply(store: StoreView, headers: Seq<HeaderView>) -> u16 {
    if authenticated(store, headers) {
        STATUS_OK
    } else {
        STATUS_UNAUTHORIZED
    }
}

/// The answer to a vault read.
pub open spec fn vault_get_reply(store: StoreView, headers: Seq<HeaderView>) -> (
    u16,
    CloudResponseView,
) {
    if !authenticated(store, headers) {
        failure_reply(ServerErrorView::Unauthorized)
    } else {
        match store.loaded() {
            Ok(vault) => (
                STATUS_OK,
                CloudResponseView {
                    success: true,
                    message: "Vault retrieved."@,
                    vault: Some(vault),
                },
            ),
            Err(e) => failure_reply(e),
        }
    }
}

/// The answer to a vault write.
pub open spec fn vault_post_reply(store: StoreView, headers: Seq<HeaderView>) -> (
    u16,
    CloudResponseView,
) {
    if !authenticated(store, headers) {
        failure_reply(ServerErrorView::Unauthorized)
    } else {
        (
            STATUS_OK,
            CloudResponseView {
                success: true,
                message: "Vault updated successfully."@,
                vault: None,
            },
        )
    }
}

/// The store after a vault write: replaced where the request is
/// authenticated, untouched where it is not.
pub open spec fn vault_post_store(
    store: StoreView,
    headers: Seq<HeaderView>,
    vault: Seq<VaultEntryView>,
) -> StoreView {
    if authenticated(store, headers) {
        store.saved(vault)
    } else {
        store
    }
}

/// The answer to an info request.
pub open spec fn info_reply(store: StoreView, headers: Seq<HeaderView>) -> (
    u16,
    CloudInfoResponseView,
) {
    if !authenticated(store, headers) {
        (
            STATUS_UNAUTHORIZED,
            CloudInfoResponseView {
                success: false,
                message: Some("Authentication failed"@),
                entry_count: 0,
            },
        )
    } else {
        match store.loaded() {
            Ok(vault) => (
                STATUS_OK,
                CloudInfoResponseView {
                    success: true,
                    message: Some("Vault reachable."@),
                    entry_count: vault.len() as usize,
                },
            ),
            Err(e) => (
                STATUS_INTERNAL_SERVER_ERROR,
                CloudInfoResponseView {
                    success: false,
                    message: Some(error_text(e)),
                    entry_count: 0,
                },
            ),
        }
    }
}

/// The auth route: 200 where the request carries the store's token, 401
/// otherwise.
pub fn auth_handler(store: &CloudStore, headers: &Vec<Header>) -> (status: u16)
    ensures
        status == auth_reply(store@, headers_view(headers@)),
{
    match authenticate(store, headers) {
        Ok(_) => STATUS_OK,
        Err(_) => STATUS_UNAUTHORIZED,
    }
}

/// The route that reads the vault.
pub fn vault_get_handler(store: &CloudStore, headers: &Vec<Header>) -> (r: (u16, CloudResponse))
    ensures
        (r.0, r.1@) == vault_get_reply(store@, headers_view(headers@)),
{
    if let Err(err) = authenticate(store, headers) {
        return to_error_response(err);
    }
    match store.load_vault() {
        Ok(vault) => (
            STATUS_OK,
            CloudResponse {
                success: true,
                message: String::from_str("Vault retrieved."),
                vault: Some(vault),
            },
        ),
        Err(err) => to_error_response(err),
    }
}

/// The route that replaces the vault.
pub fn vault_post_handler(
    store: &mut CloudStore,
    headers: &Vec<Header>,
    payload: VaultUpdateRequest,
) -> (r: (u16, CloudResponse))
    ensures
        (r.0, r.1@) == vault_post_reply(old(store)@, headers_view(headers@)),
        final(store)@ == vault_post_store(
            old(store)@,
            headers_view(headers@),
            vault_view(payload.vault@),
        ),
{
    if let Err(err) = authenticate(store, headers) {
        return to_error_response(err);
    }
    if let Err(err) = store.save_vault(payload.vault.as_slice()) {
        return to_error_response(err);
    }
    (
        STATUS_OK,
        CloudResponse {
            success: true,
            message: String::from_str("Vault updated successfully."),
            vault: None,
        },
    )
}

/// The route that reports how many entries the vault holds.
pub fn info_handler(store: &CloudStore, headers: &Vec<Header>) -> (r: (u16, CloudInfoResponse))
    ensures
        (r.0, r.1@) == info_reply(store@, headers_view(headers@)),
{
    if let Err(_) = authenticate(store, headers) {
        return (
            STATUS_UNAUTHORIZED,
            CloudInfoResponse {
                success: false,
                message: Some(String::from_str("Authentication failed")),
                entry_count: 0,
            },
        );
    }
    match store.load_vault() {
        Ok(vault) => (
            STATUS_OK,
            CloudInfoResponse {
                success: true,
                message: Some(String::from_str("Vault reachable.")),
                entry_count: vault.len(),
            },
        ),
        Err(err) => (
            STATUS_INTERNAL_SERVER_ERROR,
            CloudInfoResponse { success: false, message: Some(err.message()), entry_count: 0 },
        ),
    }
}

/// What starting the host with `config` makes of the store: without an
/// operator's token the host does not start; with one, the store is
/// claimed for it or verified against it.
pub open spec fn started(config: ServerConfigView, store: StoreView) -> Result<
    StoreView,
    ServerErrorView,
> {
    match config.master_hash {
        None => Err(ServerErrorView::MissingMasterPassword),
        Some(provided) => if store.claimable(provided) {
            Ok(store.claimed(provided))
        } else {
            Err(ServerErrorView::Unauthorized)
        },
    }
}

/// What the host does before it serves anything: the operator's token
/// must be there, and the store must take it. The caller binds the address
/// and serves the routes only after this has succeeded. A store that does
/// not let the host start stays as it was.
pub fn run_server(config: &ServerConfig, store: &mut CloudStore) -> (r: Result<(), ServerError>)
    ensures
        match r {
            Ok(_) => started(config@, old(store)@) == Ok::<StoreView, ServerErrorView>(
                final(store)@,
            ),
            Err(e) => started(config@, old(store)@) == Err::<StoreView, ServerErrorView>(e@)
                && final(store)@ == old(store)@,
        },
{
    match &config.master_hash {
        None => Err(ServerError::MissingMasterPassword),
        Some(provided) => store.ensure_master_hash(provided.as_str()),
    }
}

/// On a store without a token, the first claim succeeds; from then on the
/// store accepts the claimed token and no other.
pub proof fn lemma_claim_then_verify(store: StoreView, claimed: Seq<char>, other: Seq<char>)
    requires
        store.master_hash is None,
    ensures
        store.claimable(claimed),
        store.claimed(claimed).accepts(claimed),
        other != claimed ==> !store.claimed(claimed).accepts(other),
        other != claimed ==> !store.claimed(claimed).claimable(other),
        store.claimed(claimed).claimed(other) == store.claimed(claimed),
{
}

/// Of two writes in a row the second wins: the store holds exactly what
/// the later writer sent, whatever either writer had read before.
pub proof fn lemma_last_writer_wins(
    store: StoreView,
    first: Seq<VaultEntryView>,
    second: Seq<VaultEntryView>,
)
    ensures
        store.saved(first).saved(second) == store.saved(second),
        store.saved(first).saved(second).loaded() == Ok::<Seq<VaultEntryView>, ServerErrorView>(
            second,
        ),
{
}

/// Once a token is held it stays: neither a later claim, nor a write, nor
/// any route changes it.
pub proof fn lemma_token_is_kept(
    store: StoreView,
    provided: Seq<char>,
    headers: Seq<HeaderView>,
    vault: Seq<VaultEntryView>,
)
    requires
        store.master_hash is Some,
    ensures
        store.claimed(provided) == store,
        store.saved(vault).master_hash == store.master_hash,
        vault_post_store(store, headers, vault).master_hash == store.master_hash,
{
}

/// A request that does not carry the store's token is answered with 401,
/// is shown nothing of the vault and changes nothing.
pub proof fn lemma_routes_authenticate(
    store: StoreView,
    headers: Seq<HeaderView>,
    vault: Seq<VaultEntryView>,
)
    requires
        !authenticated(store, headers),
    ensures
        auth_reply(store, headers) == STATUS_UNAUTHORIZED,
        vault_get_reply(store, headers).0 == STATUS_UNAUTHORIZED,
        vault_get_reply(store, headers).1.vault is None,
        vault_post_reply(store, headers).0 == STATUS_UNAUTHORIZED,
        vault_post_store(store, headers, vault) == store,
        info_reply(store, headers).0 == STATUS_UNAUTHORIZED,
        info_reply(store, headers).1.entry_count == 0,
{
}

/// A store that holds no token authenticates no request: the token can
/// only be claimed when the host starts.
pub proof fn lemma_no_claim_through_a_route(store: StoreView, headers: Seq<HeaderView>)
    requires
        store.master_hash is None,
    ensures
        !authenticated(store, headers),
{
}

/// The name under which the client sends the token is the name under
/// which the host looks it up, but for the case of its letters.
pub proof fn lemma_header_names_match()
    ensures
        same_ignoring_case(crate::cloud::client::MASTER_HASH_HEADER@, MASTER_HASH_HEADER@),
{
    let sent = crate::cloud::client::MASTER_HASH_HEADER@;
    let sought = MASTER_HASH_HEADER@;
    reveal_strlit("X-Master-Hash");
    reveal_strlit("x-master-hash");
    assert(sent.len() == 13 && sought.len() == 13);
    assert(
        sent[0] == 'X' && sent[1] == '-' && sent[2] == 'M' && sent[3] == 'a' &&
        sent[4] == 's' && sent[5] == 't' && sent[6] == 'e' && sent[7] == 'r' &&
        sent[8] == '-' && sent[9] == 'H' && sent[10] == 'a' && sent[11] == 's' &&
        sent[12] == 'h'
    );
    assert(
        sought[0] == 'x' && sought[1] == '-' && sought[2] == 'm' && sought[3] == 'a' &&
        sought[4] == 's' && sought[5] == 't' && sought[6] == 'e' && sought[7] == 'r' &&
        sought[8] == '-' && sought[9] == 'h' && sought[10] == 'a' && sought[11] == 's' &&
        sought[12] == 'h'
    );
    assert(is_ascii_chars(sent));
    assert(is_ascii_chars(sought));
    is_ascii_chars_encode_utf8(sent);
    is_ascii_chars_encode_utf8(sought);
    let x = encode_utf8(sent);
    let y = encode_utf8(sought);
    assert forall|i: int| 0 <= i < x.len() implies ascii_lower(#[trigger] x[i]) == ascii_lower(
        y[i],
    ) by {
        assert(x[i] == sent[i] as u8);
        assert(y[i] == sought[i] as u8);
    }
}

/// A request that the client builds with a token is authenticated exactly
/// when the store holds that token.
pub proof fn lemma_client_requests_authenticate(
    store: StoreView,
    base_url: Seq<char>,
    auth_hash: Seq<char>,
)
    ensures
        authenticated(store, auth_headers_view(auth_hash)) == store.accepts(auth_hash),
        authenticated(store, verify_request_view(base_url, auth_hash).headers) == store.accepts(
            auth_hash,
        ),
{
    lemma_header_names_match();
    let one = auth_headers_view(auth_hash);
    let two = verify_request_view(base_url, auth_hash).headers;
    assert(one.first().name == crate::cloud::client::MASTER_HASH_HEADER@);
    assert(two.first() == one.first());
}

/// A host that was started on a fresh store with the operator's password
/// answers a client's verify request with 200 where the client's password
/// yields the operator's token, and with 401 where it yields another.
pub proof fn lemma_host_accepts_its_password(
    operator: Seq<char>,
    client: Seq<char>,
    base_url: Seq<char>,
)
    ensures
        StoreView::fresh().claimable(password_token(operator)),
        auth_reply(
            StoreView::fresh().claimed(password_token(operator)),
            verify_request_view(base_url, password_token(client)).headers,
        ) == if password_token(client) == password_token(operator) {
            STATUS_OK
        } else {
            STATUS_UNAUTHORIZED
        },
{
    lemma_client_requests_authenticate(
        StoreView::fresh().claimed(password_token(operator)),
        base_url,
        password_token(client),
    );
}

} // verus!
