//! The bootstrap handshake, as a verified state machine.
//!
//! The handshake chains four network round-trips: service discovery, dynamic
//! client registration, token acquisition and policy-bundle retrieval.  The
//! host owns the transport: it starts with [`begin`], performs each requested
//! action, and feeds the outcome back through [`step`] until the state is
//! [`BootstrapState::Complete`] or [`BootstrapState::Failed`].  Every
//! transition — which stage may run, with which URL, body and credential, and
//! which error ends the run — is pinned by [`step_rel`].

use vstd::prelude::*;
use vstd::string::StringExecFns;
use vstd::string::StringSliceAdditionalSpecFns;
use vstd::utf8::encode_utf8;
use crate::codec::inflate_zlib;
use crate::codec::inflate_zlib_of;
use crate::credential::basic_authorization;
use crate::credential::basic_authorization_of;
use crate::credential::client_auth;
use crate::credential::credential_token;
use crate::credential::issuer_of;
use crate::documents::access_grant_of;
use crate::documents::client_registration_of;
use crate::documents::lock_master_config_of;
use crate::documents::oauth_config_of;
use crate::documents::parse_access_grant;
use crate::documents::parse_client_registration;
use crate::documents::parse_lock_master_config;
use crate::documents::parse_oauth_config;
use crate::documents::LockMasterConfig;
use crate::errors::BootstrapError;

verus! {

/// What the host consumed from its configuration to run one bootstrap.
pub struct BootstrapParams {
    /// Base URL of the Lock Master authority.
    pub base_url: String,
    /// The policy store to fetch the bundle for.
    pub policy_store_id: String,
    /// Whether to start the live-sync channel after discovery.
    pub enable_dynamic_configuration: bool,
    /// The signed software statement presented during registration.
    pub software_statement: String,
    /// The application name registered with the authority.
    pub application_name: String,
    /// Whether the bundle endpoint serves zlib-compressed bytes.
    pub decompress: bool,
}

/// The registration request body, field for field.
pub struct RegistrationRequest {
    pub client_name: String,
    pub application_type: String,
    pub grant_types: Vec<String>,
    pub redirect_uris: Vec<String>,
    pub token_endpoint_auth_method: String,
    pub software_statement: String,
    pub contacts: Vec<String>,
}

/// The form body of the client-credentials grant request.
pub struct TokenRequest {
    pub scope: Vec<String>,
    pub grant_type: String,
}

/// The result the host hands back for one requested fetch: the response body
/// on success, or a transport-level failure (including non-success statuses).
pub enum FetchOutcome {
    Success(Vec<u8>),
    Failure,
}

/// Where the handshake stands.  Each waiting state holds everything later
/// stages will need, so a state can only be reached with its prerequisites
/// fully decoded.
pub enum BootstrapState {
    AwaitingLockMasterConfig { params: BootstrapParams },
    AwaitingOAuthConfig { params: BootstrapParams, lock: LockMasterConfig },
    AwaitingRegistration { params: BootstrapParams, lock: LockMasterConfig, token_endpoint: String },
    AwaitingToken { params: BootstrapParams, lock: LockMasterConfig },
    AwaitingBundle { params: BootstrapParams },
    Complete { bundle: Vec<u8> },
    Failed { error: BootstrapError },
}

/// What the host must do next.
pub enum BootstrapAction {
    /// Unauthenticated GET expecting the Lock Master configuration document.
    FetchLockMasterConfig { url: String },
    /// Start the live-sync channel against this stream URL.
    StartLiveSync { url: String },
    /// Unauthenticated GET expecting the OAuth metadata document.
    FetchOAuthConfig { url: String },
    /// POST the registration request as JSON to the registration endpoint.
    Register { url: String, request: RegistrationRequest },
    /// Record that the registration carried no client secret.
    WarnMissingSecret,
    /// POST the grant request as a form to the token endpoint, with the Basic
    /// credential bytes as the `Authorization` header value.
    RequestToken { url: String, authorization: Vec<u8>, request: TokenRequest },
    /// GET the policy bundle with a Bearer `Authorization` header.
    FetchBundle { url: String, authorization: String },
}

/// The two parameter records describe the same bootstrap run.
pub open spec fn params_eq(a: BootstrapParams, b: BootstrapParams) -> bool {
    &&& a.base_url@ == b.base_url@
    &&& a.policy_store_id@ == b.policy_store_id@
    &&& a.enable_dynamic_configuration == b.enable_dynamic_configuration
    &&& a.software_statement@ == b.software_statement@
    &&& a.application_name@ == b.application_name@
    &&& a.decompress == b.decompress
}

/// The two discovered configurations are the same document.
pub open spec fn lock_eq(a: LockMasterConfig, b: LockMasterConfig) -> bool {
    &&& a.oauth_as_well_known@ == b.oauth_as_well_known@
    &&& a.config_uri@ == b.config_uri@
    &&& a.lock_sse_uri@ == b.lock_sse_uri@
}

/// The registration request the handshake sends: application type `web`,
/// grant type `client_credentials`, the issuer as sole redirect URI, Basic
/// authentication at the token endpoint, the software statement itself and
/// the fixed contact address.
pub open spec fn registration_request_matches(
    r: RegistrationRequest,
    application_name: Seq<char>,
    issuer: Seq<char>,
    software_statement: Seq<char>,
) -> bool {
    &&& r.client_name@ == application_name
    &&& r.application_type@ == "web"@
    &&& r.grant_types@.len() == 1 && r.grant_types@[0]@ == "client_credentials"@
    &&& r.redirect_uris@.len() == 1 && r.redirect_uris@[0]@ == issuer
    &&& r.token_endpoint_auth_method@ == "client_secret_basic"@
    &&& r.software_statement@ == software_statement
    &&& r.contacts@.len() == 1 && r.contacts@[0]@ == "newton@gluu.org"@
}

/// The grant request the handshake sends: the two fixed scopes, and the
/// authority-specific combined grant-type value, preserved verbatim.
pub open spec fn token_request_matches(r: TokenRequest) -> bool {
    &&& r.scope@.len() == 2
    &&& r.scope@[0]@ == "https://jans.io/oauth/scopes/cedarling"@
    &&& r.scope@[1]@ == "https://jans.io/oauth/scopes/lock_sse"@
    &&& r.grant_type@ == "client_credentials authorization_code"@
}

/// The credential token the client presents: `id:secret`, or the bare id
/// when no secret was issued.
pub open spec fn credential_token_of(id: Seq<char>, secret: Option<Seq<char>>) -> Seq<char> {
    match secret {
        Some(sec) => id + ":"@ + sec,
        None => id,
    }
}

/// The full transition relation of the handshake: for every state and fetch
/// outcome, exactly which state follows and which actions the host must
/// perform.
pub open spec fn step_rel(
    pre: BootstrapState,
    event: FetchOutcome,
    post: BootstrapState,
    actions: Seq<BootstrapAction>,
) -> bool {
    match pre {
        BootstrapState::AwaitingLockMasterConfig { params } => match event {
            FetchOutcome::Failure => {
                &&& post matches BootstrapState::Failed { error }
                    && error == BootstrapError::TransportFailure
                &&& actions.len() == 0
            },
            FetchOutcome::Success(body) => match lock_master_config_of(body@) {
                None => {
                    &&& post matches BootstrapState::Failed { error }
                        && error == BootstrapError::DecodeFailure
                    &&& actions.len() == 0
                },
                Some((oauth, config, sse)) => {
                    &&& post matches BootstrapState::AwaitingOAuthConfig { params: p, lock }
                        && params_eq(p, params) && lock.oauth_as_well_known@ == oauth
                        && lock.config_uri@ == config && lock.lock_sse_uri@ == sse
                    &&& if params.enable_dynamic_configuration {
                        &&& actions.len() == 2
                        &&& actions[0] matches BootstrapAction::StartLiveSync { url } && url@
                            == sse
                        &&& actions[1] matches BootstrapAction::FetchOAuthConfig { url } && url@
                            == oauth
                    } else {
                        &&& actions.len() == 1
                        &&& actions[0] matches BootstrapAction::FetchOAuthConfig { url } && url@
                            == oauth
                    }
                },
            },
        },
        BootstrapState::AwaitingOAuthConfig { params, lock } => match event {
            FetchOutcome::Failure => {
                &&& post matches BootstrapState::Failed { error }
                    && error == BootstrapError::TransportFailure
                &&& actions.len() == 0
            },
            FetchOutcome::Success(body) => match oauth_config_of(body@) {
                None => {
                    &&& post matches BootstrapState::Failed { error }
                        && error == BootstrapError::DecodeFailure
                    &&& actions.len() == 0
                },
                Some((registration_endpoint, token_endpoint)) => match issuer_of(
                    encode_utf8(params.software_statement@),
                ) {
                    None => {
                        &&& post matches BootstrapState::Failed { error }
                            && error == BootstrapError::MalformedCredential
                        &&& actions.len() == 0
                    },
                    Some(issuer) => match registration_endpoint {
                        None => {
                            &&& post matches BootstrapState::Failed { error }
                                && error == BootstrapError::UnsupportedAuthority
                            &&& actions.len() == 0
                        },
                        Some(registration_url) => {
                            &&& post matches BootstrapState::AwaitingRegistration {
                                params: p,
                                lock: l,
                                token_endpoint: te,
                            } && params_eq(p, params) && lock_eq(l, lock) && te@
                                == token_endpoint
                            &&& actions.len() == 1
                            &&& actions[0] matches BootstrapAction::Register { url, request }
                                && url@ == registration_url && registration_request_matches(
                                request,
                                params.application_name@,
                                issuer,
                                params.software_statement@,
                            )
                        },
                    },
                },
            },
        },
        BootstrapState::AwaitingRegistration { params, lock, token_endpoint } => match event {
            FetchOutcome::Failure => {
                &&& post matches BootstrapState::Failed { error }
                    && error == BootstrapError::TransportFailure
                &&& actions.len() == 0
            },
            FetchOutcome::Success(body) => match client_registration_of(body@) {
                None => {
                    &&& post matches BootstrapState::Failed { error }
                        && error == BootstrapError::DecodeFailure
                    &&& actions.len() == 0
                },
                Some((client_id, client_secret)) => {
                    &&& post matches BootstrapState::AwaitingToken { params: p, lock: l }
                        && params_eq(p, params) && lock_eq(l, lock)
                    &&& {
                        let request_index = if client_secret is None {
                            1int
                        } else {
                            0int
                        };
                        &&& actions.len() == request_index + 1
                        &&& client_secret is None ==> actions[0]
                            is WarnMissingSecret
                        &&& actions[request_index] matches BootstrapAction::RequestToken {
                            url,
                            authorization,
                            request,
                        } && url@ == token_endpoint@ && token_request_matches(request)
                            && authorization@ == basic_authorization_of(
                            encode_utf8(credential_token_of(client_id, client_secret)),
                        )
                    }
                },
            },
        },
        BootstrapState::AwaitingToken { params, lock } => match event {
            FetchOutcome::Failure => {
                &&& post matches BootstrapState::Failed { error }
                    && error == BootstrapError::TransportFailure
                &&& actions.len() == 0
            },
            FetchOutcome::Success(body) => match access_grant_of(body@) {
                None => {
                    &&& post matches BootstrapState::Failed { error }
                        && error == BootstrapError::DecodeFailure
                    &&& actions.len() == 0
                },
                Some(access_token) => {
                    &&& post matches BootstrapState::AwaitingBundle { params: p } && params_eq(
                        p,
                        params,
                    )
                    &&& actions.len() == 1
                    &&& actions[0] matches BootstrapAction::FetchBundle { url, authorization }
                        && url@ == lock.config_uri@ + "?policy_store_format=json&policy_store_id="@
                        + params.policy_store_id@ && authorization@ == "Bearer "@ + access_token
                },
            },
        },
        BootstrapState::AwaitingBundle { params } => match event {
            FetchOutcome::Failure => {
                &&& post matches BootstrapState::Failed { error }
                    && error == BootstrapError::TransportFailure
                &&& actions.len() == 0
            },
            FetchOutcome::Success(body) => {
                &&& actions.len() == 0
                &&& if params.decompress {
                    match inflate_zlib_of(body@) {
                        Some(raw) => post matches BootstrapState::Complete { bundle } && bundle@
                            == raw,
                        None => post matches BootstrapState::Failed { error } && error
                            == BootstrapError::DecompressionError,
                    }
                } else {
                    post matches BootstrapState::Complete { bundle } && bundle@ == body@
                }
            },
        },
        BootstrapState::Complete { bundle } => {
            &&& post matches BootstrapState::Complete { bundle: b } && b@ == bundle@
            &&& actions.len() == 0
        },
        BootstrapState::Failed { error } => {
            &&& post matches BootstrapState::Failed { error: e } && e == error
            &&& actions.len() == 0
        },
    }
}

/// Law: a registration request is only ever issued from the state that
/// already holds a fully decoded Lock Master configuration, and only on a
/// response whose OAuth metadata decoded completely — registration never
/// runs before both discovery documents are in hand.
pub proof fn lemma_register_needs_both_configs(
    pre: BootstrapState,
    event: FetchOutcome,
    post: BootstrapState,
    actions: Seq<BootstrapAction>,
    i: int,
)
    requires
        step_rel(pre, event, post, actions),
        0 <= i < actions.len(),
        actions[i] is Register,
    ensures
        pre is AwaitingOAuthConfig,
        event matches FetchOutcome::Success(body) && oauth_config_of(body@) is Some,
{
}

/// Law: the state that may issue a registration request is itself reachable
/// only from a discovery response whose Lock Master configuration decoded
/// completely.  Together with `lemma_register_needs_both_configs`, no
/// registration ever precedes both discovery documents.
pub proof fn lemma_oauth_state_needs_lock_config(
    pre: BootstrapState,
    event: FetchOutcome,
    post: BootstrapState,
    actions: Seq<BootstrapAction>,
)
    requires
        step_rel(pre, event, post, actions),
        post is AwaitingOAuthConfig,
    ensures
        pre is AwaitingLockMasterConfig || pre is AwaitingOAuthConfig,
        pre is AwaitingLockMasterConfig ==> (event matches FetchOutcome::Success(body)
            && lock_master_config_of(body@) is Some),
{
}

/// Law: a software statement without a readable issuer claim ends the
/// handshake with `MalformedCredential`, and no registration request is
/// issued.
pub proof fn lemma_missing_issuer_blocks_registration(
    pre: BootstrapState,
    event: FetchOutcome,
    post: BootstrapState,
    actions: Seq<BootstrapAction>,
    statement: Seq<char>,
)
    requires
        step_rel(pre, event, post, actions),
        pre matches BootstrapState::AwaitingOAuthConfig { params, .. } && params.software_statement@
            == statement,
        event matches FetchOutcome::Success(body) && oauth_config_of(body@) is Some,
        issuer_of(encode_utf8(statement)) is None,
    ensures
        post matches BootstrapState::Failed { error } && error
            == BootstrapError::MalformedCredential,
        actions.len() == 0,
{
}

/// Law: an authority that advertises no registration endpoint ends the
/// handshake with `UnsupportedAuthority`, and no network call to any
/// registration URL is requested.
pub proof fn lemma_no_endpoint_blocks_registration(
    pre: BootstrapState,
    event: FetchOutcome,
    post: BootstrapState,
    actions: Seq<BootstrapAction>,
    statement: Seq<char>,
    body: Seq<u8>,
)
    requires
        step_rel(pre, event, post, actions),
        pre matches BootstrapState::AwaitingOAuthConfig { params, .. } && params.software_statement@
            == statement,
        event matches FetchOutcome::Success(b) && b@ == body,
        oauth_config_of(body) matches Some((registration_endpoint, _)) && registration_endpoint
            is None,
        issuer_of(encode_utf8(statement)) is Some,
    ensures
        post matches BootstrapState::Failed { error } && error
            == BootstrapError::UnsupportedAuthority,
        actions.len() == 0,
{
}

/// Law: a registration response without a client secret does not fail the
/// handshake: a warning is recorded, and the Basic credential is built over
/// the client id alone.
pub proof fn lemma_missing_secret_uses_id_alone(
    pre: BootstrapState,
    event: FetchOutcome,
    post: BootstrapState,
    actions: Seq<BootstrapAction>,
    body: Seq<u8>,
    client_id: Seq<char>,
)
    requires
        step_rel(pre, event, post, actions),
        pre is AwaitingRegistration,
        event matches FetchOutcome::Success(b) && b@ == body,
        client_registration_of(body) == Some((client_id, None::<Seq<char>>)),
    ensures
        post is AwaitingToken,
        actions.len() == 2,
        actions[0] is WarnMissingSecret,
        actions[1] matches BootstrapAction::RequestToken { authorization, request, .. }
            && authorization@ == basic_authorization_of(encode_utf8(client_id))
            && token_request_matches(request),
{
}

/// The well-known path of the Lock Master configuration document, appended
/// to the authority's base URL.
pub fn discovery_url(base_url: &str) -> (r: String)
    ensures
        r@ == base_url@ + "/.well-known/lock-master-configuration"@,
{
    base_url.to_owned().concat("/.well-known/lock-master-configuration")
}

/// The bundle endpoint URL: the configuration URI with the requested format
/// (always `json`) and the policy-store identifier.
pub fn bundle_url(config_uri: &str, policy_store_id: &str) -> (r: String)
    ensures
        r@ == config_uri@ + "?policy_store_format=json&policy_store_id="@ + policy_store_id@,
{
    config_uri.to_owned().concat("?policy_store_format=json&policy_store_id=").concat(
        policy_store_id,
    )
}

/// The Bearer `Authorization` header value for the bundle fetch.
pub fn bearer_authorization(access_token: &str) -> (r: String)
    ensures
        r@ == "Bearer "@ + access_token@,
{
    String::from_str("Bearer ").concat(access_token)
}

/// Build the registration request for an application name, a redirect URI
/// (the issuer of the software statement) and the statement itself.
pub fn registration_request(application_name: &str, issuer: String, software_statement: &str) -> (r:
    RegistrationRequest)
    ensures
        registration_request_matches(r, application_name@, issuer@, software_statement@),
{
    let mut grant_types: Vec<String> = Vec::new();
    grant_types.push(String::from_str("client_credentials"));
    let mut redirect_uris: Vec<String> = Vec::new();
    redirect_uris.push(issuer);
    let mut contacts: Vec<String> = Vec::new();
    contacts.push(String::from_str("newton@gluu.org"));
    RegistrationRequest {
        client_name: application_name.to_owned(),
        application_type: String::from_str("web"),
        grant_types,
        redirect_uris,
        token_endpoint_auth_method: String::from_str("client_secret_basic"),
        software_statement: software_statement.to_owned(),
        contacts,
    }
}

/// Build the fixed client-credentials grant request.
pub fn token_request() -> (r: TokenRequest)
    ensures
        token_request_matches(r),
{
    let mut scope: Vec<String> = Vec::new();
    scope.push(String::from_str("https://jans.io/oauth/scopes/cedarling"));
    scope.push(String::from_str("https://jans.io/oauth/scopes/lock_sse"));
    TokenRequest { scope, grant_type: String::from_str("client_credentials authorization_code") }
}

/// Enter the handshake: the first action fetches the discovery document.
pub fn begin(params: BootstrapParams) -> (r: (BootstrapState, BootstrapAction))
    ensures
        r.0 matches BootstrapState::AwaitingLockMasterConfig { params: p } && params_eq(p, params),
        r.1 matches BootstrapAction::FetchLockMasterConfig { url } && url@ == params.base_url@
            + "/.well-known/lock-master-configuration"@,
{
    let url = discovery_url(params.base_url.as_str());
    (
        BootstrapState::AwaitingLockMasterConfig { params },
        BootstrapAction::FetchLockMasterConfig { url },
    )
}

/// Advance the handshake by one fetch outcome.
pub fn step(state: BootstrapState, event: FetchOutcome) -> (r: (
    BootstrapState,
    Vec<BootstrapAction>,
))
    ensures
        step_rel(state, event, r.0, r.1@),
{
    let ghost pre = state;
    let mut actions: Vec<BootstrapAction> = Vec::new();
    let post = match state {
        BootstrapState::AwaitingLockMasterConfig { params } => match event {
            FetchOutcome::Failure => BootstrapState::Failed {
                error: BootstrapError::TransportFailure,
            },
            FetchOutcome::Success(body) => match parse_lock_master_config(body.as_slice()) {
                Err(error) => BootstrapState::Failed { error },
                Ok(lock) => {
                    if params.enable_dynamic_configuration {
                        actions.push(
                            BootstrapAction::StartLiveSync { url: lock.lock_sse_uri.clone() },
                        );
                    }
                    actions.push(
                        BootstrapAction::FetchOAuthConfig { url: lock.oauth_as_well_known.clone() },
                    );
                    BootstrapState::AwaitingOAuthConfig { params, lock }
                },
            },
        },
        BootstrapState::AwaitingOAuthConfig { params, lock } => match event {
            FetchOutcome::Failure => BootstrapState::Failed {
                error: BootstrapError::TransportFailure,
            },
            FetchOutcome::Success(body) => match parse_oauth_config(body.as_slice()) {
                Err(error) => BootstrapState::Failed { error },
                Ok(oauth) => match crate::credential::software_statement_issuer(
                    params.software_statement.as_str(),
                ) {
                    None => BootstrapState::Failed { error: BootstrapError::MalformedCredential },
                    Some(issuer) => match oauth.registration_endpoint {
                        None => BootstrapState::Failed {
                            error: BootstrapError::UnsupportedAuthority,
                        },
                        Some(registration_url) => {
                            let request = registration_request(
                                params.application_name.as_str(),
                                issuer,
                                params.software_statement.as_str(),
                            );
                            actions.push(
                                BootstrapAction::Register { url: registration_url, request },
                            );
                            BootstrapState::AwaitingRegistration {
                                params,
                                lock,
                                token_endpoint: oauth.token_endpoint,
                            }
                        },
                    },
                },
            },
        },
        BootstrapState::AwaitingRegistration { params, lock, token_endpoint } => match event {
            FetchOutcome::Failure => BootstrapState::Failed {
                error: BootstrapError::TransportFailure,
            },
            FetchOutcome::Success(body) => match parse_client_registration(body.as_slice()) {
                Err(error) => BootstrapState::Failed { error },
                Ok(registration) => {
                    let auth = client_auth(registration);
                    if auth.is_id_only() {
                        actions.push(BootstrapAction::WarnMissingSecret);
                    }
                    let token = credential_token(&auth);
                    let authorization = basic_authorization(token.as_str());
                    actions.push(
                        BootstrapAction::RequestToken {
                            url: token_endpoint,
                            authorization,
                            request: token_request(),
                        },
                    );
                    BootstrapState::AwaitingToken { params, lock }
                },
            },
        },
        BootstrapState::AwaitingToken { params, lock } => match event {
            FetchOutcome::Failure => BootstrapState::Failed {
                error: BootstrapError::TransportFailure,
            },
            FetchOutcome::Success(body) => match parse_access_grant(body.as_slice()) {
                Err(error) => BootstrapState::Failed { error },
                Ok(grant) => {
                    let url = bundle_url(lock.config_uri.as_str(), params.policy_store_id.as_str());
                    let authorization = bearer_authorization(grant.access_token.as_str());
                    actions.push(BootstrapAction::FetchBundle { url, authorization });
                    BootstrapState::AwaitingBundle { params }
                },
            },
        },
        BootstrapState::AwaitingBundle { params } => match event {
            FetchOutcome::Failure => BootstrapState::Failed {
                error: BootstrapError::TransportFailure,
            },
            FetchOutcome::Success(body) => {
                if params.decompress {
                    match inflate_zlib(body.as_slice()) {
                        Some(bundle) => BootstrapState::Complete { bundle },
                        None => BootstrapState::Failed {
                            error: BootstrapError::DecompressionError,
                        },
                    }
                } else {
                    BootstrapState::Complete { bundle: body }
                }
            },
        },
        BootstrapState::Complete { bundle } => BootstrapState::Complete { bundle },
        BootstrapState::Failed { error } => BootstrapState::Failed { error },
    };
    (post, actions)
}

} // verus!
