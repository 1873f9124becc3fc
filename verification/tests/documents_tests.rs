use lock_bootstrap::bootstrap::{bearer_authorization, bundle_url, discovery_url};
use lock_bootstrap::codec::base64_encode_bytes;
use lock_bootstrap::credential::{basic_authorization, software_statement_issuer};
use lock_bootstrap::documents::{
    parse_access_grant, parse_client_registration, parse_lock_master_config, parse_oauth_config,
};
use lock_bootstrap::errors::BootstrapError;

fn statement_with_payload(payload: &[u8]) -> String {
    let encoded = base64_encode_bytes(payload);
    let translated: Vec<u8> = encoded
        .into_iter()
        .filter(|&b| b != b'=')
        .map(|b| match b {
            b'+' => b'-',
            b'/' => b'_',
            other => other,
        })
        .collect();
    format!("header.{}.signature", String::from_utf8(translated).unwrap())
}

#[test]
fn lock_master_config_decodes() {
    let body = br#"{
        "oauth_as_well_known": "https://as.example/meta",
        "config_uri": "https://lock.example/config",
        "lock_sse_uri": "https://lock.example/sse"
    }"#;
    let config = parse_lock_master_config(body).unwrap();
    assert_eq!(config.oauth_as_well_known, "https://as.example/meta");
    assert_eq!(config.config_uri, "https://lock.example/config");
    assert_eq!(config.lock_sse_uri, "https://lock.example/sse");
}

#[test]
fn lock_master_config_requires_every_member() {
    let body = br#"{"oauth_as_well_known": "https://as.example/meta"}"#;
    match parse_lock_master_config(body) {
        Err(e) => assert_eq!(e, BootstrapError::DecodeFailure),
        Ok(_) => panic!("expected a decode failure"),
    }
    match parse_lock_master_config(b"[1, 2]") {
        Err(e) => assert_eq!(e, BootstrapError::DecodeFailure),
        Ok(_) => panic!("expected a decode failure"),
    }
}

#[test]
fn oauth_config_registration_endpoint_is_optional() {
    let body = br#"{"token_endpoint": "https://as.example/token"}"#;
    let config = parse_oauth_config(body).unwrap();
    assert!(config.registration_endpoint.is_none());
    assert_eq!(config.token_endpoint, "https://as.example/token");

    let body = br#"{
        "registration_endpoint": "https://as.example/register",
        "token_endpoint": "https://as.example/token"
    }"#;
    let config = parse_oauth_config(body).unwrap();
    assert_eq!(config.registration_endpoint.unwrap(), "https://as.example/register");
}

#[test]
fn oauth_config_requires_token_endpoint() {
    let body = br#"{"registration_endpoint": "https://as.example/register"}"#;
    assert!(parse_oauth_config(body).is_err());
}

#[test]
fn client_registration_decodes_with_and_without_secret() {
    let body = br#"{"client_id": "cid", "client_secret": "sec"}"#;
    let registration = parse_client_registration(body).unwrap();
    assert_eq!(registration.client_id, "cid");
    assert_eq!(registration.client_secret.unwrap(), "sec");

    let body = br#"{"client_id": "cid"}"#;
    let registration = parse_client_registration(body).unwrap();
    assert_eq!(registration.client_id, "cid");
    assert!(registration.client_secret.is_none());

    assert!(parse_client_registration(br#"{"client_secret": "sec"}"#).is_err());
}

#[test]
fn access_grant_decodes() {
    let grant = parse_access_grant(br#"{"access_token": "abc"}"#).unwrap();
    assert_eq!(grant.access_token, "abc");
    assert!(parse_access_grant(br#"{"token_type": "bearer"}"#).is_err());
}

#[test]
fn issuer_extraction_reads_the_payload_claim() {
    let token = statement_with_payload(br#"{"iss": "https://issuer.example", "sub": "s"}"#);
    assert_eq!(software_statement_issuer(&token).unwrap(), "https://issuer.example");
}

#[test]
fn issuer_extraction_rejects_broken_statements() {
    // no dot at all: no payload segment
    assert!(software_statement_issuer("nodots").is_none());
    // payload is not base64url
    assert!(software_statement_issuer("a.!!!.b").is_none());
    // payload decodes but carries no issuer claim
    let token = statement_with_payload(br#"{"sub": "s"}"#);
    assert!(software_statement_issuer(&token).is_none());
    // payload decodes but is not JSON
    let token = statement_with_payload(b"plain text");
    assert!(software_statement_issuer(&token).is_none());
}

#[test]
fn url_and_header_builders() {
    assert_eq!(
        discovery_url("https://lock.example"),
        "https://lock.example/.well-known/lock-master-configuration"
    );
    assert_eq!(
        bundle_url("https://lock.example/config", "store-1"),
        "https://lock.example/config?policy_store_format=json&policy_store_id=store-1"
    );
    assert_eq!(bearer_authorization("abc"), "Bearer abc");
    assert_eq!(basic_authorization("cid:sec"), b"Basic Y2lkOnNlYw==".to_vec());
    assert_eq!(basic_authorization("cid"), b"Basic Y2lk".to_vec());
}

#[test]
fn error_descriptions() {
    assert_eq!(BootstrapError::TransportFailure.describe(), "transport failure");
    assert_eq!(
        BootstrapError::UnsupportedAuthority.describe(),
        "authority does not support dynamic client registration"
    );
    assert_eq!(
        BootstrapError::StreamDisconnected.describe(),
        "live-sync stream disconnected"
    );
}
