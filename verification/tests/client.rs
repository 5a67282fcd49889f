use x_cli::cloud::client::{
    auth_headers, CloudApi, CloudClientError, Delivery, HttpMethod, RemoteSession, Reply,
    RequestBody, MASTER_HASH_HEADER, REQUEST_TIMEOUT_SECS,
};
use x_cli::cloud::types::{CloudInfoResponse, CloudResponse, VaultEntry};
use x_cli::security::master_password::{hash_password, MasterSecret};
use x_cli::vault::{load_vault, save_vault};

fn entry(key: &str, value: &str) -> VaultEntry {
    VaultEntry { key: key.to_string(), value: value.to_string() }
}

fn api(base: &str) -> CloudApi {
    CloudApi::new(base.to_string()).unwrap()
}

fn answered<T>(status: u16, text: &str, decoded: Result<T, String>) -> Delivery<T> {
    Delivery::Answered(Reply { status, text: Some(text.to_string()), decoded })
}

fn status_only(status: u16) -> Delivery<()> {
    Delivery::Answered(Reply { status, text: None, decoded: Err("no body".to_string()) })
}

fn vault_response(vault: Option<Vec<VaultEntry>>) -> CloudResponse {
    CloudResponse { success: true, message: "Vault retrieved.".to_string(), vault }
}

fn session() -> RemoteSession {
    RemoteSession::new("http://host:4000/api/cloudsync".to_string(), "hunter2".to_string(), &status_only(200))
        .unwrap()
}

#[test]
fn a_route_is_the_base_a_slash_and_its_name() {
    assert_eq!(api("http://host:4000/api/cloudsync").url("auth"), "http://host:4000/api/cloudsync/auth");
    assert_eq!(api("http://host:4000/api/cloudsync/").url("vault"), "http://host:4000/api/cloudsync/vault");
    assert_eq!(api("http://host///").url("info"), "http://host/info");
    assert_eq!(api("").url("info"), "/info");
    assert_eq!(api("///").url("info"), "/info");
    assert_eq!(api("a/b").url(""), "a/b/");
}

#[test]
fn the_token_travels_in_one_header() {
    let headers = auth_headers("abc123").unwrap();
    assert_eq!(headers.len(), 1);
    assert_eq!(headers[0].name, "X-Master-Hash");
    assert_eq!(headers[0].value, "abc123");
    assert_eq!(MASTER_HASH_HEADER, "X-Master-Hash");
}

#[test]
fn a_token_with_a_control_character_cannot_be_sent() {
    for token in ["line\nbreak", "carriage\rreturn", "nul\0", "del\u{7f}", "\u{1b}[0m"] {
        match auth_headers(token) {
            Err(CloudClientError::Failure(message)) => {
                assert_eq!(message, "Invalid master password hash")
            }
            _ => panic!("a control character was accepted"),
        }
    }
    assert!(auth_headers("tab\tis fine").is_ok());
    assert!(auth_headers("").is_ok());
    assert!(auth_headers("~ and é").is_ok());
}

#[test]
fn the_verify_request_posts_an_empty_object() {
    let request = api("http://host/api/cloudsync").verify_request("abc").unwrap();
    assert_eq!(request.method, HttpMethod::Post);
    assert_eq!(request.url, "http://host/api/cloudsync/auth");
    assert_eq!(request.headers.len(), 2);
    assert_eq!((request.headers[0].name.as_str(), request.headers[0].value.as_str()), ("X-Master-Hash", "abc"));
    assert_eq!(
        (request.headers[1].name.as_str(), request.headers[1].value.as_str()),
        ("Content-Type", "application/json")
    );
    assert!(matches!(request.body, RequestBody::EmptyObject));
    assert!(api("http://host").verify_request("a\nb").is_err());
}

#[test]
fn the_read_request_gets_the_vault_route() {
    let request = api("http://host/api/cloudsync").fetch_vault_request("abc").unwrap();
    assert_eq!(request.method, HttpMethod::Get);
    assert_eq!(request.url, "http://host/api/cloudsync/vault");
    assert_eq!(request.headers.len(), 1);
    assert_eq!(request.headers[0].value, "abc");
    assert!(matches!(request.body, RequestBody::Nothing));
    assert!(api("http://host").fetch_vault_request("a\nb").is_err());
}

#[test]
fn the_write_request_posts_the_whole_vault() {
    let vault = vec![entry("a", "1"), entry("b", "2")];
    let request = api("http://host/api/cloudsync").save_vault_request("abc", &vault).unwrap();
    assert_eq!(request.method, HttpMethod::Post);
    assert_eq!(request.url, "http://host/api/cloudsync/vault");
    assert_eq!(request.headers.len(), 1);
    match request.body {
        RequestBody::Vault(sent) => {
            assert_eq!(sent.len(), 2);
            assert_eq!((sent[0].key.as_str(), sent[0].value.as_str()), ("a", "1"));
            assert_eq!((sent[1].key.as_str(), sent[1].value.as_str()), ("b", "2"));
        }
        _ => panic!("the vault was not sent"),
    }
    assert!(api("http://host").save_vault_request("a\nb", &vault).is_err());
}

#[test]
fn the_info_request_gets_the_info_route() {
    let request = api("http://host/api/cloudsync").info_request("abc").unwrap();
    assert_eq!(request.method, HttpMethod::Get);
    assert_eq!(request.url, "http://host/api/cloudsync/info");
    assert!(matches!(request.body, RequestBody::Nothing));
    assert!(api("http://host").info_request("a\nb").is_err());
}

#[test]
fn requests_time_out_after_fifteen_seconds() {
    assert_eq!(REQUEST_TIMEOUT_SECS, 15);
}

#[test]
fn a_success_carries_its_payload() {
    for status in [200u16, 201, 204, 299] {
        let parsed = CloudApi::parse_response(answered(status, "{}", Ok(7u8)));
        assert!(matches!(parsed, Ok(7)));
    }
}

#[test]
fn a_success_that_cannot_be_decoded_is_a_network_error() {
    let parsed = CloudApi::parse_response(answered::<u8>(200, "<html>", Err("expected value".to_string())));
    assert!(matches!(parsed, Err(CloudClientError::Http(why)) if why == "expected value"));
}

#[test]
fn status_401_rejects_the_token() {
    let parsed = CloudApi::parse_response(answered(401, "no", Ok(7u8)));
    assert!(matches!(parsed, Err(CloudClientError::AuthenticationFailed)));
}

#[test]
fn any_other_status_is_a_failure_with_the_body() {
    let parsed = CloudApi::parse_response(answered(500, "disk full", Ok(7u8)));
    assert!(matches!(
        parsed,
        Err(CloudClientError::Failure(why)) if why == "Server returned 500 Internal Server Error: disk full"
    ));
    let parsed = CloudApi::parse_response(answered(404, "", Ok(7u8)));
    assert!(matches!(
        parsed,
        Err(CloudClientError::Failure(why)) if why == "Server returned 404 Not Found: "
    ));
    let parsed = CloudApi::parse_response(answered(199, "early", Ok(7u8)));
    assert!(matches!(
        parsed,
        Err(CloudClientError::Failure(why)) if why == "Server returned 199 <unknown status code>: early"
    ));
    let parsed = CloudApi::parse_response(answered(300, "moved", Ok(7u8)));
    assert!(matches!(
        parsed,
        Err(CloudClientError::Failure(why)) if why == "Server returned 300 Multiple Choices: moved"
    ));
    let parsed = CloudApi::parse_response(answered(42, "odd", Ok(7u8)));
    assert!(matches!(
        parsed,
        Err(CloudClientError::Failure(why)) if why == "Server returned 42: odd"
    ));
}

#[test]
fn a_failure_whose_body_cannot_be_read_says_so() {
    let delivery = Delivery::Answered(Reply { status: 503, text: None, decoded: Ok(7u8) });
    assert!(matches!(
        CloudApi::parse_response(delivery),
        Err(CloudClientError::Failure(why))
            if why == "Server returned 503 Service Unavailable: Unable to read response body"
    ));
}

#[test]
fn no_answer_is_a_network_error() {
    let parsed = CloudApi::parse_response(Delivery::<u8>::Failed("connection refused".to_string()));
    assert!(matches!(parsed, Err(CloudClientError::Http(why)) if why == "connection refused"));
}

#[test]
fn verify_accepts_on_success_and_rejects_otherwise() {
    let api = api("http://host");
    assert!(api.verify_master(&status_only(200)).is_ok());
    assert!(api.verify_master(&status_only(204)).is_ok());
    for status in [401u16, 403, 404, 500, 199, 300] {
        assert!(matches!(
            api.verify_master(&status_only(status)),
            Err(CloudClientError::AuthenticationFailed)
        ));
    }
    assert!(matches!(
        api.verify_master(&Delivery::<()>::Failed("timed out".to_string())),
        Err(CloudClientError::Http(why)) if why == "timed out"
    ));
}

#[test]
fn a_read_returns_the_vault_of_the_answer() {
    let api = api("http://host");
    let vault = api
        .fetch_vault(answered(200, "", Ok(vault_response(Some(vec![entry("a", "1")])))))
        .unwrap();
    assert_eq!(vault.len(), 1);
    assert_eq!((vault[0].key.as_str(), vault[0].value.as_str()), ("a", "1"));
    let vault = api.fetch_vault(answered(200, "", Ok(vault_response(None)))).unwrap();
    assert_eq!(vault.len(), 0);
    assert!(matches!(
        api.fetch_vault(answered(401, "", Ok(vault_response(None)))),
        Err(CloudClientError::AuthenticationFailed)
    ));
    assert!(matches!(
        api.fetch_vault(answered(500, "boom", Ok(vault_response(None)))),
        Err(CloudClientError::Failure(_))
    ));
    assert!(matches!(
        api.fetch_vault(Delivery::Failed("dns".to_string())),
        Err(CloudClientError::Http(_))
    ));
}

#[test]
fn a_write_took_place_when_the_host_says_so() {
    let api = api("http://host");
    let ok = CloudResponse { success: true, message: "Vault updated successfully.".to_string(), vault: None };
    assert!(api.save_vault(answered(200, "", Ok(ok))).is_ok());
    let refused = CloudResponse { success: false, message: "quota".to_string(), vault: None };
    assert!(matches!(
        api.save_vault(answered(200, "", Ok(refused))),
        Err(CloudClientError::Failure(why)) if why == "quota"
    ));
    let ok = CloudResponse { success: true, message: String::new(), vault: None };
    assert!(matches!(
        api.save_vault(answered(401, "", Ok(ok))),
        Err(CloudClientError::AuthenticationFailed)
    ));
    assert!(matches!(
        api.save_vault(Delivery::Failed("dns".to_string())),
        Err(CloudClientError::Http(_))
    ));
}

#[test]
fn info_returns_the_answer() {
    let api = api("http://host");
    let info = CloudInfoResponse { success: true, message: Some("Vault reachable.".to_string()), entry_count: 3 };
    let got = api.info(answered(200, "", Ok(info))).unwrap();
    assert_eq!((got.success, got.entry_count), (true, 3));
    assert_eq!(got.message, Some("Vault reachable.".to_string()));
    let info = CloudInfoResponse { success: false, message: None, entry_count: 0 };
    assert!(matches!(
        api.info(answered(401, "", Ok(info))),
        Err(CloudClientError::AuthenticationFailed)
    ));
    let info = CloudInfoResponse { success: false, message: None, entry_count: 0 };
    assert!(matches!(
        api.info(answered(502, "bad gateway", Ok(info))),
        Err(CloudClientError::Failure(why)) if why == "Server returned 502 Bad Gateway: bad gateway"
    ));
}

#[test]
fn client_errors_describe_themselves() {
    assert_eq!(CloudClientError::Http("timed out".to_string()).message(), "Network error: timed out");
    assert_eq!(CloudClientError::Failure("quota".to_string()).message(), "quota");
    assert_eq!(
        CloudClientError::AuthenticationFailed.message(),
        "Authentication with the cloud host failed"
    );
}

#[test]
fn a_session_holds_token_and_key_of_the_password() {
    let session = session();
    let secret = MasterSecret::derive("hunter2");
    assert_eq!(session.auth_hash(), hash_password("hunter2"));
    assert_eq!(session.encryption_key(), &secret.key);
}

#[test]
fn no_session_without_the_hosts_consent() {
    let url = "http://host".to_string();
    assert!(matches!(
        RemoteSession::new(url.clone(), "hunter2".to_string(), &status_only(401)),
        Err(CloudClientError::AuthenticationFailed)
    ));
    assert!(matches!(
        RemoteSession::new(url.clone(), "hunter2".to_string(), &status_only(500)),
        Err(CloudClientError::AuthenticationFailed)
    ));
    assert!(matches!(
        RemoteSession::new(url, "hunter2".to_string(), &Delivery::<()>::Failed("down".to_string())),
        Err(CloudClientError::Http(why)) if why == "down"
    ));
}

#[test]
fn a_session_from_a_cached_token_has_the_same_key() {
    let token = hash_password("hunter2");
    let session = RemoteSession::from_hash("http://host".to_string(), token.clone(), &status_only(200)).unwrap();
    assert_eq!(session.auth_hash(), token);
    assert_eq!(session.encryption_key(), &MasterSecret::derive("hunter2").key);
}

#[test]
fn a_cached_token_that_is_not_a_token_fails_before_the_host_counts() {
    for token in ["", "xyz", &"a".repeat(63), &"g".repeat(64)] {
        assert!(matches!(
            RemoteSession::from_hash("http://host".to_string(), token.to_string(), &status_only(200)),
            Err(CloudClientError::Failure(why)) if why == "Stored master password hash is invalid"
        ));
    }
}

#[test]
fn a_cached_token_that_the_host_rejects_gives_no_session() {
    let token = hash_password("hunter2");
    assert!(matches!(
        RemoteSession::from_hash("http://host".to_string(), token.clone(), &status_only(401)),
        Err(CloudClientError::AuthenticationFailed)
    ));
    assert!(matches!(
        RemoteSession::from_hash("http://host".to_string(), token, &Delivery::<()>::Failed("down".to_string())),
        Err(CloudClientError::Http(_))
    ));
}

#[test]
fn a_session_sends_its_own_token() {
    let session = session();
    let request = session.fetch_vault_request().unwrap();
    assert_eq!(request.url, "http://host:4000/api/cloudsync/vault");
    assert_eq!(request.headers[0].value, hash_password("hunter2"));
    let request = session.save_vault_request(&[entry("a", "1")]).unwrap();
    assert_eq!(request.method, HttpMethod::Post);
    assert_eq!(request.headers[0].value, hash_password("hunter2"));
    assert!(matches!(request.body, RequestBody::Vault(sent) if sent.len() == 1));
}

#[test]
fn a_session_reads_and_writes_without_decrypting() {
    let session = session();
    let vault = session
        .fetch_vault(answered(200, "", Ok(vault_response(Some(vec![entry("a", "not an envelope")])))))
        .unwrap();
    assert_eq!(vault[0].value, "not an envelope");
    let ok = CloudResponse { success: true, message: String::new(), vault: None };
    assert!(session.save_vault(answered(200, "", Ok(ok))).is_ok());
}

#[test]
fn load_and_save_put_failures_into_words() {
    let session = session();
    let vault = load_vault(&session, answered(200, "", Ok(vault_response(Some(vec![entry("a", "1")]))))).unwrap();
    assert_eq!(vault.len(), 1);
    assert_eq!(
        load_vault(&session, answered(401, "", Ok(vault_response(None)))).err(),
        Some("Authentication with the cloud host failed".to_string())
    );
    assert_eq!(
        load_vault(&session, Delivery::Failed("timed out".to_string())).err(),
        Some("Network error: timed out".to_string())
    );
    let ok = CloudResponse { success: true, message: String::new(), vault: None };
    assert_eq!(save_vault(&session, answered(200, "", Ok(ok))), Ok(()));
    let refused = CloudResponse { success: false, message: "quota".to_string(), vault: None };
    assert_eq!(save_vault(&session, answered(200, "", Ok(refused))), Err("quota".to_string()));
    let ok = CloudResponse { success: true, message: String::new(), vault: None };
    assert_eq!(
        save_vault(&session, answered(500, "boom", Ok(ok))),
        Err("Server returned 500 Internal Server Error: boom".to_string())
    );
}
