use x_cli::cloud::client::{
    CloudApi, CloudClientError, Delivery, HttpMethod, HttpRequest, RemoteSession, Reply,
    RequestBody,
};
use x_cli::cloud::server::{
    auth_handler, info_handler, run_server, vault_get_handler, vault_post_handler, CloudStore,
    ServerConfig, VaultSlot, VaultUpdateRequest,
};
use x_cli::cloud::types::{CloudInfoResponse, CloudResponse, VaultEntry};
use x_cli::commands::add::add_item;
use x_cli::commands::host::host_server;
use x_cli::security::master_password::hash_password;
use x_cli::vault::{SecureEntry, VaultItem};

const BASE: &str = "http://host:4000/api/cloudsync";

fn start_host(password: &str) -> CloudStore {
    let mut store = CloudStore::new(None, VaultSlot::Empty);
    let config = host_server(ServerConfig::default(), None, password);
    run_server(&config, &mut store).expect("the host starts");
    store
}

fn path_of(request: &HttpRequest) -> &str {
    request.url.strip_prefix(BASE).expect("a request to the host")
}

fn deliver_verify(store: &CloudStore, request: &HttpRequest) -> Delivery<()> {
    assert_eq!((request.method, path_of(request)), (HttpMethod::Post, "/auth"));
    let status = auth_handler(store, &request.headers);
    Delivery::Answered(Reply { status, text: Some(String::new()), decoded: Ok(()) })
}

fn deliver_read(store: &CloudStore, request: &HttpRequest) -> Delivery<CloudResponse> {
    assert_eq!((request.method, path_of(request)), (HttpMethod::Get, "/vault"));
    let (status, body) = vault_get_handler(store, &request.headers);
    Delivery::Answered(Reply { status, text: Some(body.message.clone()), decoded: Ok(body) })
}

fn deliver_write(store: &mut CloudStore, request: HttpRequest) -> Delivery<CloudResponse> {
    assert_eq!((request.method, path_of(&request)), (HttpMethod::Post, "/vault"));
    let vault = match request.body {
        RequestBody::Vault(vault) => vault,
        _ => panic!("a write without a vault"),
    };
    let (status, body) = vault_post_handler(store, &request.headers, VaultUpdateRequest { vault });
    Delivery::Answered(Reply { status, text: Some(body.message.clone()), decoded: Ok(body) })
}

fn deliver_info(store: &CloudStore, request: &HttpRequest) -> Delivery<CloudInfoResponse> {
    assert_eq!((request.method, path_of(request)), (HttpMethod::Get, "/info"));
    let (status, body) = info_handler(store, &request.headers);
    Delivery::Answered(Reply { status, text: body.message.clone(), decoded: Ok(body) })
}

fn connect(store: &CloudStore, password: &str) -> Result<RemoteSession, CloudClientError> {
    let api = CloudApi::new(BASE.to_string())?;
    let request = api.verify_request(&hash_password(password))?;
    let verification = deliver_verify(store, &request);
    RemoteSession::new(BASE.to_string(), password.to_string(), &verification)
}

fn fetch(store: &CloudStore, session: &RemoteSession) -> Vec<VaultEntry> {
    let request = session.fetch_vault_request().unwrap();
    session.fetch_vault(deliver_read(store, &request)).unwrap()
}

fn replace(store: &mut CloudStore, session: &RemoteSession, vault: &[VaultEntry]) {
    let request = session.save_vault_request(vault).unwrap();
    session.save_vault(deliver_write(store, request)).unwrap();
}

fn github() -> VaultItem {
    VaultItem::Password {
        name: "github".to_string(),
        website: "https://github.com".to_string(),
        email: "me@example.com".to_string(),
        username: "octocat".to_string(),
        password: "correct horse".to_string(),
    }
}

#[test]
fn a_record_added_on_one_machine_opens_on_another() {
    let mut host = start_host("hunter2");
    assert_eq!(host.master_hash(), Some(hash_password("hunter2")));

    let first = connect(&host, "hunter2").expect("the host accepts the operator's password");
    let mut vault = fetch(&host, &first);
    assert!(vault.is_empty());
    assert_eq!(add_item(&first, &mut vault, &github()), Ok("github".to_string()));
    replace(&mut host, &first, &vault);

    let second = connect(&host, "hunter2").expect("the same password, another machine");
    let fetched = fetch(&host, &second);
    let found = fetched.iter().find(|e| e.key == "github").expect("the entry is in the vault");
    match SecureEntry::decrypt(second.encryption_key(), &found.value) {
        Ok(VaultItem::Password { name, website, email, username, password }) => {
            assert_eq!(name, "github");
            assert_eq!(website, "https://github.com");
            assert_eq!(email, "me@example.com");
            assert_eq!(username, "octocat");
            assert_eq!(password, "correct horse");
        }
        _ => panic!("the record did not open"),
    }
}

#[test]
fn a_wrong_password_derives_another_token_and_gets_401() {
    let host = start_host("hunter2");
    assert_ne!(hash_password("wrong"), hash_password("hunter2"));
    let api = CloudApi::new(BASE.to_string()).unwrap();
    let request = api.verify_request(&hash_password("wrong")).unwrap();
    assert_eq!(auth_handler(&host, &request.headers), 401);
    assert!(matches!(connect(&host, "wrong"), Err(CloudClientError::AuthenticationFailed)));
    let request = api.verify_request(&hash_password("hunter2")).unwrap();
    assert_eq!(auth_handler(&host, &request.headers), 200);
}

#[test]
fn the_host_stores_what_it_cannot_read() {
    let mut host = start_host("hunter2");
    let session = connect(&host, "hunter2").unwrap();
    let mut vault = fetch(&host, &session);
    add_item(&session, &mut vault, &github()).unwrap();
    replace(&mut host, &session, &vault);
    let stored = host.load_vault().unwrap();
    assert_eq!(stored.len(), 1);
    assert!(!stored[0].value.contains("correct horse"));
    assert!(!stored[0].value.contains("octocat"));
    let other = x_cli::security::master_password::MasterSecret::derive("wrong").key;
    assert!(SecureEntry::decrypt(&other, &stored[0].value).is_err());
}

#[test]
fn every_route_refuses_a_request_without_the_token() {
    let mut host = start_host("hunter2");
    let session = connect(&host, "hunter2").unwrap();
    let mut vault = fetch(&host, &session);
    add_item(&session, &mut vault, &github()).unwrap();
    replace(&mut host, &session, &vault);

    let api = CloudApi::new(BASE.to_string()).unwrap();
    let wrong = hash_password("wrong");
    let read = api.fetch_vault_request(&wrong).unwrap();
    assert!(matches!(
        api.fetch_vault(deliver_read(&host, &read)),
        Err(CloudClientError::AuthenticationFailed)
    ));
    let write = api.save_vault_request(&wrong, &[]).unwrap();
    assert!(matches!(
        api.save_vault(deliver_write(&mut host, write)),
        Err(CloudClientError::AuthenticationFailed)
    ));
    let info = api.info_request(&wrong).unwrap();
    assert!(matches!(api.info(deliver_info(&host, &info)), Err(CloudClientError::AuthenticationFailed)));
    assert_eq!(host.load_vault().unwrap().len(), 1);

    let info = api.info_request(&hash_password("hunter2")).unwrap();
    let report = api.info(deliver_info(&host, &info)).unwrap();
    assert_eq!((report.success, report.entry_count), (true, 1));
}

#[test]
fn two_clients_that_fetch_before_either_writes_lose_the_first_write() {
    let mut host = start_host("hunter2");
    let a = connect(&host, "hunter2").unwrap();
    let b = connect(&host, "hunter2").unwrap();
    let mut vault_a = fetch(&host, &a);
    let mut vault_b = fetch(&host, &b);
    add_item(&a, &mut vault_a, &github()).unwrap();
    let note = VaultItem::SecureNote { title: "wifi".to_string(), note: "hunter3".to_string() };
    add_item(&b, &mut vault_b, &note).unwrap();
    replace(&mut host, &a, &vault_a);
    replace(&mut host, &b, &vault_b);
    let stored = fetch(&host, &a);
    assert_eq!(stored.len(), 1);
    assert_eq!(stored[0].key, "wifi");
    assert_eq!(stored[0].value, vault_b[0].value);
}

#[test]
fn a_restarted_host_keeps_its_token() {
    let host = start_host("hunter2");
    let token = host.master_hash();
    let vault = host.load_vault().unwrap();
    let mut restarted = CloudStore::new(token.clone(), VaultSlot::Stored(vault));
    let config = host_server(ServerConfig::default(), token, "ignored once a token is stored");
    assert!(run_server(&config, &mut restarted).is_ok());
    assert!(connect(&restarted, "hunter2").is_ok());
    assert!(connect(&restarted, "ignored once a token is stored").is_err());
}
