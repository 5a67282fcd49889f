use x_cli::cloud::server::{
    auth_handler, authenticate, classify_error, info_handler, run_server, to_error_response,
    vault_get_handler, vault_post_handler, CloudStore, ServerConfig, ServerError, VaultSlot,
    VaultUpdateRequest, AUTH_PATH, INFO_PATH, MASTER_HASH_HEADER, MASTER_HASH_KEY, VAULT_KEY,
    VAULT_PATH,
};
use x_cli::cloud::types::{find_header, Header, VaultEntry};
use x_cli::security::master_password::hash_password;

fn entry(key: &str, value: &str) -> VaultEntry {
    VaultEntry { key: key.to_string(), value: value.to_string() }
}

fn pairs(vault: &[VaultEntry]) -> Vec<(String, String)> {
    vault.iter().map(|e| (e.key.clone(), e.value.clone())).collect()
}

fn header(name: &str, value: &str) -> Header {
    Header { name: name.to_string(), value: value.to_string() }
}

fn fresh() -> CloudStore {
    CloudStore::new(None, VaultSlot::Empty)
}

fn claimed(token: &str) -> CloudStore {
    let mut store = fresh();
    store.ensure_master_hash(token).unwrap();
    store
}

#[test]
fn a_fresh_store_holds_no_token_and_no_entries() {
    let store = fresh();
    assert_eq!(store.master_hash(), None);
    assert_eq!(store.load_vault().unwrap().len(), 0);
}

#[test]
fn the_first_claim_succeeds_and_binds_the_token() {
    let mut store = fresh();
    assert!(store.ensure_master_hash("T1").is_ok());
    assert_eq!(store.master_hash(), Some("T1".to_string()));
}

#[test]
fn after_a_claim_only_the_claimed_token_verifies() {
    let store = claimed("T1");
    assert!(store.verify_master("T1").is_ok());
    assert!(matches!(store.verify_master("T2"), Err(ServerError::Unauthorized)));
    assert!(matches!(store.verify_master(""), Err(ServerError::Unauthorized)));
    assert!(matches!(store.verify_master("t1"), Err(ServerError::Unauthorized)));
    assert!(matches!(store.verify_master("T1 "), Err(ServerError::Unauthorized)));
}

#[test]
fn a_second_claim_with_another_token_is_refused_and_changes_nothing() {
    let mut store = claimed("T1");
    assert!(matches!(store.ensure_master_hash("T2"), Err(ServerError::Unauthorized)));
    assert_eq!(store.master_hash(), Some("T1".to_string()));
    assert!(store.verify_master("T1").is_ok());
}

#[test]
fn a_second_claim_with_the_same_token_succeeds() {
    let mut store = claimed("T1");
    assert!(store.ensure_master_hash("T1").is_ok());
    assert_eq!(store.master_hash(), Some("T1".to_string()));
}

#[test]
fn verifying_does_not_claim() {
    let store = fresh();
    assert!(matches!(store.verify_master("T1"), Err(ServerError::Unauthorized)));
    assert_eq!(store.master_hash(), None);
    assert!(matches!(store.verify_master(""), Err(ServerError::Unauthorized)));
}

#[test]
fn a_store_restored_with_a_token_verifies_it() {
    let store = CloudStore::new(Some("T1".to_string()), VaultSlot::Stored(vec![entry("a", "1")]));
    assert!(store.verify_master("T1").is_ok());
    assert!(store.verify_master("T2").is_err());
    assert_eq!(pairs(&store.load_vault().unwrap()), vec![("a".to_string(), "1".to_string())]);
}

#[test]
fn a_save_replaces_the_vault_as_a_whole() {
    let mut store = claimed("T1");
    store.save_vault(&[entry("a", "1"), entry("b", "2")]).unwrap();
    store.save_vault(&[entry("c", "3")]).unwrap();
    assert_eq!(pairs(&store.load_vault().unwrap()), vec![("c".to_string(), "3".to_string())]);
    store.save_vault(&[]).unwrap();
    assert_eq!(store.load_vault().unwrap().len(), 0);
}

#[test]
fn the_store_does_not_merge_entries_of_one_key() {
    let mut store = claimed("T1");
    store.save_vault(&[entry("a", "1"), entry("a", "2")]).unwrap();
    assert_eq!(
        pairs(&store.load_vault().unwrap()),
        vec![("a".to_string(), "1".to_string()), ("a".to_string(), "2".to_string())]
    );
}

#[test]
fn of_two_writers_that_read_the_same_vault_the_second_wins() {
    let mut store = claimed("T1");
    store.save_vault(&[entry("shared", "0")]).unwrap();
    let mut vault_a = store.load_vault().unwrap();
    let mut vault_b = store.load_vault().unwrap();
    vault_a.push(entry("from_a", "1"));
    vault_b.push(entry("from_b", "2"));
    store.save_vault(&vault_a).unwrap();
    store.save_vault(&vault_b).unwrap();
    assert_eq!(pairs(&store.load_vault().unwrap()), pairs(&vault_b));
    assert!(store.load_vault().unwrap().iter().all(|e| e.key != "from_a"));
}

#[test]
fn an_unreadable_vault_fails_to_load_until_it_is_replaced() {
    let mut store = CloudStore::new(
        Some("T1".to_string()),
        VaultSlot::Unreadable("expected value at line 1 column 1".to_string()),
    );
    match store.load_vault() {
        Err(ServerError::Serde(why)) => assert_eq!(why, "expected value at line 1 column 1"),
        _ => panic!("an unreadable vault loaded"),
    }
    store.save_vault(&[entry("a", "1")]).unwrap();
    assert_eq!(pairs(&store.load_vault().unwrap()), vec![("a".to_string(), "1".to_string())]);
}

#[test]
fn header_names_match_whatever_their_case() {
    let headers = vec![header("Accept", "*/*"), header("X-Master-Hash", "T1")];
    assert_eq!(find_header(&headers, "x-master-hash"), Some(&"T1".to_string()));
    assert_eq!(find_header(&headers, "X-MASTER-HASH"), Some(&"T1".to_string()));
    assert_eq!(find_header(&headers, "accept"), Some(&"*/*".to_string()));
    assert_eq!(find_header(&headers, "x-master"), None);
    assert_eq!(find_header(&headers, "x_master_hash"), None);
    assert_eq!(find_header(&Vec::new(), "x-master-hash"), None);
}

#[test]
fn the_first_of_two_headers_with_one_name_counts() {
    let headers = vec![header("x-master-hash", "first"), header("X-Master-Hash", "second")];
    assert_eq!(find_header(&headers, "X-Master-Hash"), Some(&"first".to_string()));
}

#[test]
fn only_ascii_letters_lose_their_case() {
    let headers = vec![header("É", "upper")];
    assert_eq!(find_header(&headers, "é"), None);
    assert_eq!(find_header(&headers, "É"), Some(&"upper".to_string()));
    let headers = vec![header("[", "bracket")];
    assert_eq!(find_header(&headers, "{"), None);
    let headers = vec![header("@", "at")];
    assert_eq!(find_header(&headers, "`"), None);
}

#[test]
fn authenticate_needs_the_header_and_the_token() {
    let store = claimed("T1");
    assert!(authenticate(&store, &vec![header("X-Master-Hash", "T1")]).is_ok());
    assert!(matches!(
        authenticate(&store, &vec![header("X-Master-Hash", "T2")]),
        Err(ServerError::Unauthorized)
    ));
    assert!(matches!(authenticate(&store, &Vec::new()), Err(ServerError::Unauthorized)));
    assert!(matches!(
        authenticate(&store, &vec![header("Authorization", "T1")]),
        Err(ServerError::Unauthorized)
    ));
    assert!(matches!(
        authenticate(&fresh(), &vec![header("X-Master-Hash", "T1")]),
        Err(ServerError::Unauthorized)
    ));
}

#[test]
fn the_auth_route_answers_200_or_401() {
    let store = claimed("T1");
    assert_eq!(auth_handler(&store, &vec![header("x-master-hash", "T1")]), 200);
    assert_eq!(auth_handler(&store, &vec![header("x-master-hash", "T2")]), 401);
    assert_eq!(auth_handler(&store, &Vec::new()), 401);
}

#[test]
fn the_auth_route_cannot_claim_a_fresh_store() {
    let store = fresh();
    assert_eq!(auth_handler(&store, &vec![header("x-master-hash", "T1")]), 401);
    assert_eq!(store.master_hash(), None);
}

#[test]
fn the_vault_read_route_returns_the_vault() {
    let mut store = claimed("T1");
    store.save_vault(&[entry("a", "1")]).unwrap();
    let (status, body) = vault_get_handler(&store, &vec![header("x-master-hash", "T1")]);
    assert_eq!(status, 200);
    assert!(body.success);
    assert_eq!(body.message, "Vault retrieved.");
    assert_eq!(pairs(&body.vault.unwrap()), vec![("a".to_string(), "1".to_string())]);
}

#[test]
fn the_vault_read_route_returns_an_empty_vault_before_any_write() {
    let store = claimed("T1");
    let (status, body) = vault_get_handler(&store, &vec![header("x-master-hash", "T1")]);
    assert_eq!(status, 200);
    assert_eq!(body.vault.map(|v| v.len()), Some(0));
}

#[test]
fn the_vault_read_route_rejects_a_wrong_token() {
    let mut store = claimed("T1");
    store.save_vault(&[entry("a", "1")]).unwrap();
    let (status, body) = vault_get_handler(&store, &vec![header("x-master-hash", "T2")]);
    assert_eq!(status, 401);
    assert!(!body.success);
    assert_eq!(body.message, "Authentication failed");
    assert!(body.vault.is_none());
}

#[test]
fn the_vault_read_route_answers_500_for_an_unreadable_vault() {
    let store = CloudStore::new(Some("T1".to_string()), VaultSlot::Unreadable("EOF".to_string()));
    let (status, body) = vault_get_handler(&store, &vec![header("x-master-hash", "T1")]);
    assert_eq!(status, 500);
    assert!(!body.success);
    assert_eq!(body.message, "Serialization error: EOF");
    assert!(body.vault.is_none());
}

#[test]
fn the_vault_write_route_replaces_the_vault() {
    let mut store = claimed("T1");
    store.save_vault(&[entry("old", "0")]).unwrap();
    let payload = VaultUpdateRequest { vault: vec![entry("a", "1"), entry("b", "2")] };
    let (status, body) = vault_post_handler(&mut store, &vec![header("x-master-hash", "T1")], payload);
    assert_eq!(status, 200);
    assert!(body.success);
    assert_eq!(body.message, "Vault updated successfully.");
    assert!(body.vault.is_none());
    assert_eq!(
        pairs(&store.load_vault().unwrap()),
        vec![("a".to_string(), "1".to_string()), ("b".to_string(), "2".to_string())]
    );
}

#[test]
fn the_vault_write_route_leaves_the_vault_alone_on_a_wrong_token() {
    let mut store = claimed("T1");
    store.save_vault(&[entry("old", "0")]).unwrap();
    let payload = VaultUpdateRequest { vault: vec![entry("a", "1")] };
    let (status, body) = vault_post_handler(&mut store, &vec![header("x-master-hash", "T2")], payload);
    assert_eq!(status, 401);
    assert!(!body.success);
    assert_eq!(body.message, "Authentication failed");
    assert_eq!(pairs(&store.load_vault().unwrap()), vec![("old".to_string(), "0".to_string())]);
    let payload = VaultUpdateRequest { vault: Vec::new() };
    let (status, _) = vault_post_handler(&mut store, &Vec::new(), payload);
    assert_eq!(status, 401);
    assert_eq!(store.load_vault().unwrap().len(), 1);
}

#[test]
fn the_info_route_counts_the_entries() {
    let mut store = claimed("T1");
    let (status, body) = info_handler(&store, &vec![header("x-master-hash", "T1")]);
    assert_eq!((status, body.success, body.entry_count), (200, true, 0));
    assert_eq!(body.message, Some("Vault reachable.".to_string()));
    store.save_vault(&[entry("a", "1"), entry("b", "2"), entry("a", "3")]).unwrap();
    let (status, body) = info_handler(&store, &vec![header("x-master-hash", "T1")]);
    assert_eq!((status, body.success, body.entry_count), (200, true, 3));
}

#[test]
fn the_info_route_rejects_a_wrong_token() {
    let mut store = claimed("T1");
    store.save_vault(&[entry("a", "1")]).unwrap();
    let (status, body) = info_handler(&store, &vec![header("x-master-hash", "nope")]);
    assert_eq!((status, body.success, body.entry_count), (401, false, 0));
    assert_eq!(body.message, Some("Authentication failed".to_string()));
}

#[test]
fn the_info_route_answers_500_for_an_unreadable_vault() {
    let store = CloudStore::new(Some("T1".to_string()), VaultSlot::Unreadable("EOF".to_string()));
    let (status, body) = info_handler(&store, &vec![header("x-master-hash", "T1")]);
    assert_eq!((status, body.success, body.entry_count), (500, false, 0));
    assert_eq!(body.message, Some("Serialization error: EOF".to_string()));
}

#[test]
fn errors_map_to_their_status() {
    assert_eq!(classify_error(&ServerError::Address("bad".to_string())), (400, "bad".to_string()));
    assert_eq!(
        classify_error(&ServerError::Unauthorized),
        (401, "Authentication failed".to_string())
    );
    assert_eq!(
        classify_error(&ServerError::MissingMasterPassword),
        (400, "Master password required".to_string())
    );
    assert_eq!(
        classify_error(&ServerError::Io("disk".to_string())),
        (500, "I/O error: disk".to_string())
    );
    assert_eq!(
        classify_error(&ServerError::Serde("eof".to_string())),
        (500, "Serialization error: eof".to_string())
    );
    assert_eq!(
        classify_error(&ServerError::Database("locked".to_string())),
        (500, "Database error: locked".to_string())
    );
    assert_eq!(
        classify_error(&ServerError::Http("closed".to_string())),
        (500, "HTTP server error: closed".to_string())
    );
    assert_eq!(
        classify_error(&ServerError::Runtime("threads".to_string())),
        (500, "Runtime error: threads".to_string())
    );
}

#[test]
fn errors_describe_themselves() {
    assert_eq!(ServerError::Io("disk".to_string()).message(), "I/O error: disk");
    assert_eq!(ServerError::Serde("eof".to_string()).message(), "Serialization error: eof");
    assert_eq!(ServerError::Database("locked".to_string()).message(), "Database error: locked");
    assert_eq!(ServerError::Http("closed".to_string()).message(), "HTTP server error: closed");
    assert_eq!(ServerError::Runtime("threads".to_string()).message(), "Runtime error: threads");
    assert_eq!(ServerError::Address("bad".to_string()).message(), "Invalid address: bad");
    assert_eq!(ServerError::Unauthorized.message(), "Unauthorized");
    assert_eq!(
        ServerError::MissingMasterPassword.message(),
        "Master password is required to start the server"
    );
}

#[test]
fn an_error_response_carries_no_vault() {
    let (status, body) = to_error_response(ServerError::Database("locked".to_string()));
    assert_eq!(status, 500);
    assert!(!body.success);
    assert_eq!(body.message, "Database error: locked");
    assert!(body.vault.is_none());
    let (status, body) = to_error_response(ServerError::Address("no".to_string()));
    assert_eq!((status, body.message.as_str()), (400, "no"));
}

#[test]
fn the_default_configuration_listens_on_every_interface() {
    let config = ServerConfig::default();
    assert_eq!(config.bind_address, "0.0.0.0");
    assert_eq!(config.port, 4000);
    assert_eq!(config.data_path, None);
    assert_eq!(config.master_hash, None);
    assert_eq!(config.socket_addr(), "0.0.0.0:4000");
}

#[test]
fn the_socket_address_joins_address_and_port() {
    let mut config = ServerConfig::default();
    config.bind_address = "127.0.0.1".to_string();
    config.port = 0;
    assert_eq!(config.socket_addr(), "127.0.0.1:0");
    config.port = 65535;
    assert_eq!(config.socket_addr(), "127.0.0.1:65535");
}

#[test]
fn the_store_lives_where_it_is_told_or_below_the_data_directory() {
    let mut config = ServerConfig::default();
    assert_eq!(
        config.storage_path(Some("/home/me/.local/share".to_string())),
        vec!["/home/me/.local/share", "x_cli", "cloud_host.db"]
    );
    assert_eq!(config.storage_path(None), vec![".", "x_cli", "cloud_host.db"]);
    config.data_path = Some("/srv/vault.db".to_string());
    assert_eq!(config.storage_path(Some("/home/me".to_string())), vec!["/srv/vault.db"]);
    assert_eq!(config.storage_path(None), vec!["/srv/vault.db"]);
}

#[test]
fn the_host_does_not_start_without_a_token() {
    let mut store = fresh();
    let config = ServerConfig::default();
    assert!(matches!(run_server(&config, &mut store), Err(ServerError::MissingMasterPassword)));
    assert_eq!(store.master_hash(), None);
}

#[test]
fn starting_the_host_claims_a_fresh_store() {
    let mut store = fresh();
    let mut config = ServerConfig::default();
    config.master_hash = Some(hash_password("hunter2"));
    assert!(run_server(&config, &mut store).is_ok());
    assert_eq!(store.master_hash(), Some(hash_password("hunter2")));
}

#[test]
fn starting_the_host_with_another_token_is_refused() {
    let mut store = claimed(&hash_password("hunter2"));
    let mut config = ServerConfig::default();
    config.master_hash = Some(hash_password("wrong"));
    assert!(matches!(run_server(&config, &mut store), Err(ServerError::Unauthorized)));
    assert_eq!(store.master_hash(), Some(hash_password("hunter2")));
    config.master_hash = Some(hash_password("hunter2"));
    assert!(run_server(&config, &mut store).is_ok());
}

#[test]
fn the_names_of_the_protocol_are_fixed() {
    assert_eq!(MASTER_HASH_HEADER, "x-master-hash");
    assert_eq!(MASTER_HASH_KEY, "master_hash");
    assert_eq!(VAULT_KEY, "vault");
    assert_eq!(AUTH_PATH, "/api/cloudsync/auth");
    assert_eq!(VAULT_PATH, "/api/cloudsync/vault");
    assert_eq!(INFO_PATH, "/api/cloudsync/info");
}
