use lock_bootstrap::bootstrap::{begin, step, BootstrapAction, BootstrapParams, BootstrapState, FetchOutcome};
use lock_bootstrap::codec::base64_encode_bytes;
use lock_bootstrap::errors::BootstrapError;
use lock_bootstrap::cache::RevocationStatusCache;

/// Unpadded base64url of a payload, for building software statements.
fn b64url(data: &[u8]) -> String {
    let encoded = base64_encode_bytes(data);
    let translated: Vec<u8> = encoded
        .into_iter()
        .filter(|&b| b != b'=')
        .map(|b| match b {
            b'+' => b'-',
            b'/' => b'_',
            other => other,
        })
        .collect();
    String::from_utf8(translated).unwrap()
}

fn software_statement(payload: &[u8]) -> String {
    format!("hdr.{}.sig", b64url(payload))
}

fn params(decompress: bool, statement: String) -> BootstrapParams {
    BootstrapParams {
        base_url: "https://lock.example".to_string(),
        policy_store_id: "store-1".to_string(),
        enable_dynamic_configuration: false,
        software_statement: statement,
        application_name: "agent".to_string(),
        decompress,
    }
}

const LOCK_MASTER_DOC: &[u8] = br#"{
    "oauth_as_well_known": "https://as.example/.well-known/openid-configuration",
    "config_uri": "https://lock.example/config",
    "lock_sse_uri": "https://lock.example/sse"
}"#;

const OAUTH_DOC: &[u8] = br#"{
    "registration_endpoint": "https://as.example/register",
    "token_endpoint": "https://as.example/token"
}"#;

/// Drive the handshake up to the registration response, returning the state
/// awaiting it.
fn advance_to_registration(statement: String, decompress: bool) -> BootstrapState {
    let (state, action) = begin(params(decompress, statement));
    match action {
        BootstrapAction::FetchLockMasterConfig { url } => {
            assert_eq!(url, "https://lock.example/.well-known/lock-master-configuration");
        }
        _ => panic!("expected the discovery fetch"),
    }
    let (state, actions) = step(state, FetchOutcome::Success(LOCK_MASTER_DOC.to_vec()));
    assert_eq!(actions.len(), 1);
    match &actions[0] {
        BootstrapAction::FetchOAuthConfig { url } => {
            assert_eq!(url, "https://as.example/.well-known/openid-configuration");
        }
        _ => panic!("expected the metadata fetch"),
    }
    let (state, actions) = step(state, FetchOutcome::Success(OAUTH_DOC.to_vec()));
    assert_eq!(actions.len(), 1);
    match &actions[0] {
        BootstrapAction::Register { url, request } => {
            assert_eq!(url, "https://as.example/register");
            assert_eq!(request.client_name, "agent");
            assert_eq!(request.application_type, "web");
            assert_eq!(request.grant_types, vec!["client_credentials".to_string()]);
            assert_eq!(request.redirect_uris, vec!["https://issuer.example".to_string()]);
            assert_eq!(request.token_endpoint_auth_method, "client_secret_basic");
            assert_eq!(request.contacts, vec!["newton@gluu.org".to_string()]);
        }
        _ => panic!("expected the registration request"),
    }
    state
}

/// Drive the handshake from the registration response to the bundle fetch.
fn advance_to_bundle(state: BootstrapState) -> BootstrapState {
    let registration = br#"{"client_id": "cid", "client_secret": "sec"}"#.to_vec();
    let (state, actions) = step(state, FetchOutcome::Success(registration));
    assert_eq!(actions.len(), 1);
    match &actions[0] {
        BootstrapAction::RequestToken { url, authorization, request } => {
            assert_eq!(url, "https://as.example/token");
            assert_eq!(authorization, b"Basic Y2lkOnNlYw==");
            assert_eq!(request.grant_type, "client_credentials authorization_code");
            assert_eq!(
                request.scope,
                vec![
                    "https://jans.io/oauth/scopes/cedarling".to_string(),
                    "https://jans.io/oauth/scopes/lock_sse".to_string(),
                ]
            );
        }
        _ => panic!("expected the token request"),
    }
    let grant = br#"{"access_token": "abc"}"#.to_vec();
    let (state, actions) = step(state, FetchOutcome::Success(grant));
    assert_eq!(actions.len(), 1);
    match &actions[0] {
        BootstrapAction::FetchBundle { url, authorization } => {
            assert_eq!(
                url,
                "https://lock.example/config?policy_store_format=json&policy_store_id=store-1"
            );
            assert_eq!(authorization, "Bearer abc");
        }
        _ => panic!("expected the bundle fetch"),
    }
    state
}

#[test]
fn full_handshake_uncompressed_bundle() {
    let statement = software_statement(br#"{"iss": "https://issuer.example"}"#);
    let state = advance_to_registration(statement, false);
    let state = advance_to_bundle(state);
    let (state, actions) = step(state, FetchOutcome::Success(br#"{"policies":[]}"#.to_vec()));
    assert!(actions.is_empty());
    match state {
        BootstrapState::Complete { bundle } => {
            assert_eq!(bundle, br#"{"policies":[]}"#.to_vec());
            let value: serde_json::Value = serde_json::from_slice(&bundle).unwrap();
            assert!(value.get("policies").unwrap().as_array().unwrap().is_empty());
        }
        _ => panic!("expected a completed bootstrap"),
    }
}

#[test]
fn full_handshake_compressed_bundle() {
    let statement = software_statement(br#"{"iss": "https://issuer.example"}"#);
    let state = advance_to_registration(statement, true);
    let state = advance_to_bundle(state);
    let raw = br#"{"policies":["p1"]}"#.to_vec();
    let compressed = miniz_oxide::deflate::compress_to_vec_zlib(&raw, 6);
    let (state, actions) = step(state, FetchOutcome::Success(compressed));
    assert!(actions.is_empty());
    match state {
        BootstrapState::Complete { bundle } => {
            assert_eq!(bundle, raw);
            let value: serde_json::Value = serde_json::from_slice(&bundle).unwrap();
            let list = value.get("policies").unwrap().as_array().unwrap();
            assert_eq!(list.len(), 1);
            assert_eq!(list[0].as_str().unwrap(), "p1");
        }
        _ => panic!("expected a completed bootstrap"),
    }
}

#[test]
fn corrupt_compressed_bundle_fails() {
    let statement = software_statement(br#"{"iss": "https://issuer.example"}"#);
    let state = advance_to_registration(statement, true);
    let state = advance_to_bundle(state);
    let (state, actions) = step(state, FetchOutcome::Success(b"not zlib".to_vec()));
    assert!(actions.is_empty());
    match state {
        BootstrapState::Failed { error } => assert_eq!(error, BootstrapError::DecompressionError),
        _ => panic!("expected a decompression failure"),
    }
}

#[test]
fn token_endpoint_failure_is_fatal_and_cache_stays_empty() {
    let cache = RevocationStatusCache::new();
    let statement = software_statement(br#"{"iss": "https://issuer.example"}"#);
    let state = advance_to_registration(statement, false);
    let registration = br#"{"client_id": "cid", "client_secret": "sec"}"#.to_vec();
    let (state, _) = step(state, FetchOutcome::Success(registration));
    // the token endpoint answers HTTP 500: the host reports a failed fetch
    let (state, actions) = step(state, FetchOutcome::Failure);
    assert!(actions.is_empty());
    match state {
        BootstrapState::Failed { error } => assert_eq!(error, BootstrapError::TransportFailure),
        _ => panic!("expected a transport failure"),
    }
    assert!(!cache.lookup(&"list-1".to_string(), &"jti-A".to_string()));
}

#[test]
fn missing_issuer_claim_blocks_registration() {
    let statement = software_statement(br#"{"sub": "someone"}"#);
    let (state, _) = begin(params(false, statement));
    let (state, _) = step(state, FetchOutcome::Success(LOCK_MASTER_DOC.to_vec()));
    let (state, actions) = step(state, FetchOutcome::Success(OAUTH_DOC.to_vec()));
    assert!(actions.is_empty());
    match state {
        BootstrapState::Failed { error } => {
            assert_eq!(error, BootstrapError::MalformedCredential)
        }
        _ => panic!("expected a malformed-credential failure"),
    }
}

#[test]
fn statement_without_payload_blocks_registration() {
    let (state, _) = begin(params(false, "no-dots-here".to_string()));
    let (state, _) = step(state, FetchOutcome::Success(LOCK_MASTER_DOC.to_vec()));
    let (state, actions) = step(state, FetchOutcome::Success(OAUTH_DOC.to_vec()));
    assert!(actions.is_empty());
    match state {
        BootstrapState::Failed { error } => {
            assert_eq!(error, BootstrapError::MalformedCredential)
        }
        _ => panic!("expected a malformed-credential failure"),
    }
}

#[test]
fn absent_registration_endpoint_is_unsupported() {
    let statement = software_statement(br#"{"iss": "https://issuer.example"}"#);
    let (state, _) = begin(params(false, statement));
    let (state, _) = step(state, FetchOutcome::Success(LOCK_MASTER_DOC.to_vec()));
    let metadata = br#"{"token_endpoint": "https://as.example/token"}"#.to_vec();
    let (state, actions) = step(state, FetchOutcome::Success(metadata));
    assert!(actions.is_empty());
    match state {
        BootstrapState::Failed { error } => {
            assert_eq!(error, BootstrapError::UnsupportedAuthority)
        }
        _ => panic!("expected an unsupported-authority failure"),
    }
}

#[test]
fn missing_client_secret_warns_and_uses_id_alone() {
    let statement = software_statement(br#"{"iss": "https://issuer.example"}"#);
    let state = advance_to_registration(statement, false);
    let registration = br#"{"client_id": "cid"}"#.to_vec();
    let (state, actions) = step(state, FetchOutcome::Success(registration));
    assert_eq!(actions.len(), 2);
    assert!(matches!(actions[0], BootstrapAction::WarnMissingSecret));
    match &actions[1] {
        BootstrapAction::RequestToken { authorization, .. } => {
            assert_eq!(authorization, b"Basic Y2lk");
        }
        _ => panic!("expected the token request"),
    }
    assert!(matches!(state, BootstrapState::AwaitingToken { .. }));
}

#[test]
fn undecodable_discovery_document_is_fatal() {
    let statement = software_statement(br#"{"iss": "https://issuer.example"}"#);
    let (state, _) = begin(params(false, statement));
    let (state, actions) = step(state, FetchOutcome::Success(b"not json".to_vec()));
    assert!(actions.is_empty());
    match state {
        BootstrapState::Failed { error } => assert_eq!(error, BootstrapError::DecodeFailure),
        _ => panic!("expected a decode failure"),
    }
}

#[test]
fn discovery_document_missing_member_is_fatal() {
    let statement = software_statement(br#"{"iss": "https://issuer.example"}"#);
    let (state, _) = begin(params(false, statement));
    let partial = br#"{"oauth_as_well_known": "https://as.example/meta"}"#.to_vec();
    let (state, actions) = step(state, FetchOutcome::Success(partial));
    assert!(actions.is_empty());
    match state {
        BootstrapState::Failed { error } => assert_eq!(error, BootstrapError::DecodeFailure),
        _ => panic!("expected a decode failure"),
    }
}

#[test]
fn dynamic_configuration_starts_live_sync() {
    let statement = software_statement(br#"{"iss": "https://issuer.example"}"#);
    let mut p = params(false, statement);
    p.enable_dynamic_configuration = true;
    let (state, _) = begin(p);
    let (_, actions) = step(state, FetchOutcome::Success(LOCK_MASTER_DOC.to_vec()));
    assert_eq!(actions.len(), 2);
    match &actions[0] {
        BootstrapAction::StartLiveSync { url } => {
            assert_eq!(url, "https://lock.example/sse");
        }
        _ => panic!("expected the live-sync start"),
    }
    assert!(matches!(&actions[1], BootstrapAction::FetchOAuthConfig { .. }));
}
