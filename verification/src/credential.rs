//! Credential handling: issuer extraction from the software statement, and
//! the HTTP Basic credential for the token endpoint.
//!
//! The software statement is a signed token of dot-separated segments whose
//! second segment is a base64url-encoded JSON object; this layer only reads
//! the issuer claim out of it and never validates signature or expiry.

use vstd::prelude::*;
use vstd::slice::slice_subrange;
use vstd::string::StringSliceAdditionalSpecFns;
use crate::codec::{b64url_decode, base64_encode, base64_encode_bytes, base64url_decode_bytes};
use crate::documents::ClientRegistration;
use crate::json::{json_str_member, json_str_member_of};

verus! {

/// The position of the first dot at or after `i`, or the length if none.
pub open spec fn dot_pos_from(s: Seq<u8>, i: int) -> int
    decreases s.len() - i,
{
    if i < 0 || i >= s.len() {
        s.len() as int
    } else if s[i] == 46 {
        i
    } else {
        dot_pos_from(s, i + 1)
    }
}

/// The payload segment of a dot-separated token: the bytes between the first
/// dot and the next dot (or the end).  `None` when the token has no dot at
/// all.
pub open spec fn jwt_payload_of(s: Seq<u8>) -> Option<Seq<u8>> {
    let d1 = dot_pos_from(s, 0);
    if d1 == s.len() {
        None
    } else {
        Some(s.subrange(d1 + 1, dot_pos_from(s, d1 + 1)))
    }
}

/// The issuer claim of a software statement: the `iss` string member of the
/// base64url-decoded payload segment.  `None` when the token has no payload
/// segment, the segment is not valid base64url, or the claim is absent.
pub open spec fn issuer_of(token_bytes: Seq<u8>) -> Option<Seq<char>> {
    match jwt_payload_of(token_bytes) {
        Some(seg) => match b64url_decode(seg) {
            Some(payload) => json_str_member_of(payload, "iss"@),
            None => None,
        },
        None => None,
    }
}

proof fn lemma_dot_pos(s: Seq<u8>, from: int, p: int)
    requires
        0 <= from <= p <= s.len(),
        forall|j: int| from <= j < p ==> s[j] != 46,
        p == s.len() || s[p] == 46,
    ensures
        dot_pos_from(s, from) == p,
    decreases p - from,
{
    if from < p {
        lemma_dot_pos(s, from + 1, p);
    }
}

/// The index of the first dot at or after `from`, or the length if none.
fn find_dot(s: &[u8], from: usize) -> (r: usize)
    requires
        from <= s@.len(),
    ensures
        from <= r <= s@.len(),
        r == dot_pos_from(s@, from as int),
{
    let len = s.len();
    let mut i = from;
    while i < len && s[i] != 46
        invariant
            from <= i <= len,
            s@.len() == len,
            forall|j: int| from <= j < i ==> s@[j] != 46,
        decreases len - i,
    {
        i += 1;
    }
    proof {
        lemma_dot_pos(s@, from as int, i as int);
    }
    i
}

/// Extract the issuer claim from a software statement.  Returns `None`
/// exactly when the statement has no readable `iss` claim.
pub fn software_statement_issuer(token: &str) -> (r: Option<String>)
    ensures
        match r {
            Some(iss) => issuer_of(token.spec_bytes()) == Some(iss@),
            None => issuer_of(token.spec_bytes()) is None,
        },
{
    let bytes = token.as_bytes();
    let d1 = find_dot(bytes, 0);
    if d1 == bytes.len() {
        return None;
    }
    let d2 = find_dot(bytes, d1 + 1);
    let segment = slice_subrange(bytes, d1 + 1, d2);
    let payload = match base64url_decode_bytes(segment) {
        Some(p) => p,
        None => {
            return None;
        },
    };
    json_str_member(payload.as_slice(), "iss")
}

/// How the client authenticates against the token endpoint.  A registration
/// without a secret still authenticates, with the id alone: a deliberate
/// degraded-security path.
pub enum ClientAuth {
    BasicWithSecret { client_id: String, client_secret: String },
    IdOnly { client_id: String },
}

impl ClientAuth {
    /// Whether this credential had to fall back to the id alone, which the
    /// host should surface as a warning.
    pub open spec fn spec_missing_secret(&self) -> bool {
        self is IdOnly
    }

    /// Whether the registration carried no secret.
    pub fn is_id_only(&self) -> (r: bool)
        ensures
            r == self.spec_missing_secret(),
    {
        match self {
            ClientAuth::BasicWithSecret { .. } => false,
            ClientAuth::IdOnly { .. } => true,
        }
    }

    /// The `{client_id}:{client_secret}` token for a full credential, or the
    /// bare client id without a secret.
    pub open spec fn spec_token(&self) -> Seq<char> {
        match self {
            ClientAuth::BasicWithSecret { client_id, client_secret } => client_id@ + ":"@
                + client_secret@,
            ClientAuth::IdOnly { client_id } => client_id@,
        }
    }
}

/// Turn a registration response into the client's token-endpoint credential.
/// Exactly the registrations without a secret yield the id-only fallback.
pub fn client_auth(registration: ClientRegistration) -> (r: ClientAuth)
    ensures
        match registration.client_secret {
            Some(secret) => r matches ClientAuth::BasicWithSecret {
                client_id,
                client_secret,
            } && client_id@ == registration.client_id@ && client_secret@ == secret@,
            None => r matches ClientAuth::IdOnly { client_id } && client_id@
                == registration.client_id@,
        },
{
    match registration.client_secret {
        Some(client_secret) => ClientAuth::BasicWithSecret {
            client_id: registration.client_id,
            client_secret,
        },
        None => ClientAuth::IdOnly { client_id: registration.client_id },
    }
}

/// The bytes of `"Basic "`.
pub open spec fn basic_prefix() -> Seq<u8> {
    seq![66u8, 97u8, 115u8, 105u8, 99u8, 32u8]
}

/// The value of the `Authorization` header for the token request: `"Basic "`
/// followed by the base64 of the credential token's bytes.
pub open spec fn basic_authorization_of(token_bytes: Seq<u8>) -> Seq<u8> {
    basic_prefix() + base64_encode(token_bytes)
}

/// Build the credential token string for a client credential.
pub fn credential_token(auth: &ClientAuth) -> (r: String)
    ensures
        r@ == auth.spec_token(),
{
    match auth {
        ClientAuth::BasicWithSecret { client_id, client_secret } => client_id.clone().concat(
            ":",
        ).concat(client_secret.as_str()),
        ClientAuth::IdOnly { client_id } => client_id.clone(),
    }
}

/// Build the Basic `Authorization` header value for a credential token.
pub fn basic_authorization(token: &str) -> (r: Vec<u8>)
    ensures
        r@ == basic_authorization_of(token.spec_bytes()),
{
    let mut out: Vec<u8> = Vec::new();
    out.push(66);
    out.push(97);
    out.push(115);
    out.push(105);
    out.push(99);
    out.push(32);
    let mut encoded = base64_encode_bytes(token.as_bytes());
    out.append(&mut encoded);
    proof {
        assert(out@ =~= basic_authorization_of(token.spec_bytes()));
    }
    out
}

} // verus!
