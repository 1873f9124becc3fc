//! The protocol documents of the handshake, and their decoders.
//!
//! Each stage of the bootstrap receives a JSON body from the authority and
//! reads a fixed set of members out of it.  The decoders below state exactly
//! which members must be present for a body to be accepted, and that every
//! field of the decoded document equals the corresponding member.

use vstd::prelude::*;
use crate::errors::BootstrapError;
use crate::json::{json_str_member, json_str_member_of};

verus! {

/// The discovered Lock Master configuration document.
pub struct LockMasterConfig {
    /// Where the OAuth authorization-server metadata lives.
    pub oauth_as_well_known: String,
    /// Base URL of the policy-bundle endpoint.
    pub config_uri: String,
    /// URL of the live-sync event stream.
    pub lock_sse_uri: String,
}

/// The discovered OAuth authorization-server metadata.
pub struct OAuthConfig {
    /// The dynamic-client-registration endpoint; absent when the authority
    /// does not support registration.
    pub registration_endpoint: Option<String>,
    /// The token endpoint.
    pub token_endpoint: String,
}

/// The credentials produced by dynamic client registration.
pub struct ClientRegistration {
    pub client_id: String,
    /// Absent secrets are tolerated: the flow continues with the client id
    /// alone, under a recorded warning.
    pub client_secret: Option<String>,
}

/// The outcome of the client-credentials grant.
pub struct AccessGrant {
    pub access_token: String,
}

/// What a valid Lock Master configuration body holds: its three required
/// string members, in document order.
pub open spec fn lock_master_config_of(body: Seq<u8>) -> Option<(Seq<char>, Seq<char>, Seq<char>)> {
    match (
        json_str_member_of(body, "oauth_as_well_known"@),
        json_str_member_of(body, "config_uri"@),
        json_str_member_of(body, "lock_sse_uri"@),
    ) {
        (Some(oauth), Some(config), Some(sse)) => Some((oauth, config, sse)),
        _ => None,
    }
}

/// What a valid OAuth metadata body holds: the required token endpoint and
/// the optional registration endpoint.
pub open spec fn oauth_config_of(body: Seq<u8>) -> Option<(Option<Seq<char>>, Seq<char>)> {
    match json_str_member_of(body, "token_endpoint"@) {
        Some(token) => Some((json_str_member_of(body, "registration_endpoint"@), token)),
        None => None,
    }
}

/// What a valid registration response holds: the required client id and the
/// optional client secret.
pub open spec fn client_registration_of(body: Seq<u8>) -> Option<(Seq<char>, Option<Seq<char>>)> {
    match json_str_member_of(body, "client_id"@) {
        Some(id) => Some((id, json_str_member_of(body, "client_secret"@))),
        None => None,
    }
}

/// What a valid token response holds: the access token.
pub open spec fn access_grant_of(body: Seq<u8>) -> Option<Seq<char>> {
    json_str_member_of(body, "access_token"@)
}

/// Decode a Lock Master configuration document.  Succeeds exactly when all
/// three members are present, and then returns them verbatim.
pub fn parse_lock_master_config(body: &[u8]) -> (r: Result<LockMasterConfig, BootstrapError>)
    ensures
        match r {
            Ok(c) => lock_master_config_of(body@)
                == Some((c.oauth_as_well_known@, c.config_uri@, c.lock_sse_uri@)),
            Err(e) => lock_master_config_of(body@) is None && e == BootstrapError::DecodeFailure,
        },
{
    let oauth = json_str_member(body, "oauth_as_well_known");
    let config = json_str_member(body, "config_uri");
    let sse = json_str_member(body, "lock_sse_uri");
    match (oauth, config, sse) {
        (Some(oauth_as_well_known), Some(config_uri), Some(lock_sse_uri)) => Ok(LockMasterConfig {
            oauth_as_well_known,
            config_uri,
            lock_sse_uri,
        }),
        _ => Err(BootstrapError::DecodeFailure),
    }
}

/// Decode an OAuth metadata document.  Succeeds exactly when the token
/// endpoint is present; the registration endpoint is carried through as-is.
pub fn parse_oauth_config(body: &[u8]) -> (r: Result<OAuthConfig, BootstrapError>)
    ensures
        match r {
            Ok(c) => oauth_config_of(body@) == Some((
                match c.registration_endpoint {
                    Some(reg) => Some(reg@),
                    None => None::<Seq<char>>,
                },
                c.token_endpoint@,
            )),
            Err(e) => oauth_config_of(body@) is None && e == BootstrapError::DecodeFailure,
        },
{
    let token_endpoint = json_str_member(body, "token_endpoint");
    let registration_endpoint = json_str_member(body, "registration_endpoint");
    match token_endpoint {
        Some(token_endpoint) => Ok(OAuthConfig { registration_endpoint, token_endpoint }),
        None => Err(BootstrapError::DecodeFailure),
    }
}

/// Decode a registration response.  Succeeds exactly when the client id is
/// present; a missing secret is not an error.
pub fn parse_client_registration(body: &[u8]) -> (r: Result<ClientRegistration, BootstrapError>)
    ensures
        match r {
            Ok(c) => client_registration_of(body@) == Some((
                c.client_id@,
                match c.client_secret {
                    Some(sec) => Some(sec@),
                    None => None::<Seq<char>>,
                },
            )),
            Err(e) => client_registration_of(body@) is None && e == BootstrapError::DecodeFailure,
        },
{
    let client_id = json_str_member(body, "client_id");
    let client_secret = json_str_member(body, "client_secret");
    match client_id {
        Some(client_id) => Ok(ClientRegistration { client_id, client_secret }),
        None => Err(BootstrapError::DecodeFailure),
    }
}

/// Decode a token response.  Succeeds exactly when the access token is
/// present.
pub fn parse_access_grant(body: &[u8]) -> (r: Result<AccessGrant, BootstrapError>)
    ensures
        match r {
            Ok(g) => access_grant_of(body@) == Some(g.access_token@),
            Err(e) => access_grant_of(body@) is None && e == BootstrapError::DecodeFailure,
        },
{
    match json_str_member(body, "access_token") {
        Some(access_token) => Ok(AccessGrant { access_token }),
        None => Err(BootstrapError::DecodeFailure),
    }
}

} // verus!
