//! Authentication of clients of the chat gateway: a shared-secret
//! signature scheme and a plain API-key check.
//!
//! The signature covers a canonical `key=value` text joined by `&` with
//! the keys in fixed alphabetical order, HMAC-SHA256 under the service
//! secret, rendered in Base64.

use vstd::prelude::*;
use vstd::string::StringExecFns;

use crate::config::AuthConfig;
use crate::digest::{base64_standard, hmac_sha256, spec_base64, spec_hmac_sha256};
use crate::models::{AuthData, AuthenticatedClient};
use crate::sign::{new_nonce, now_unix_secs};
use crate::text::str_eq;

verus! {

/// Why an authentication attempt was refused.
#[derive(Debug, Clone, Copy, PartialEq, Eq, Structural)]
pub enum AuthError {
    /// The `auth_type` field names no supported scheme.
    UnsupportedType,
    /// The presented timestamp is too old or too far in the future.
    StaleTimestamp,
    /// The presented API key is not on the accepted list.
    InvalidApiKey,
    /// The presented signature does not match the expected one.
    InvalidSignature,
}

/// Validates clients against a secret key and a list of accepted API keys.
#[derive(Debug, Clone)]
pub struct AuthService {
    pub secret_key: String,
    pub valid_api_keys: Vec<String>,
    pub timestamp_tolerance: i64,
}

/// Whether `key` appears among the accepted keys.
pub open spec fn spec_key_accepted(keys: Seq<String>, key: Seq<char>) -> bool {
    exists|i: int| 0 <= i < keys.len() && #[trigger] keys[i]@ == key
}

/// The canonical text that a client signature covers: the payload fields
/// as `key=value` pairs joined by `&`, keys in alphabetical order, with
/// `user_data` present only when the payload carries it.
pub open spec fn spec_signature_data(d: AuthData) -> Seq<char> {
    "api_key="@ + d.api_key@ + "&nonce="@ + d.nonce@ + "&timestamp="@ + d.timestamp_rfc3339@
        + (match d.user_data {
        Some(u) => "&user_data="@ + u@,
        None => Seq::empty(),
    }) + "&user_id="@ + d.user_id@
}

/// The Base64 HMAC-SHA256 signature of a text under the service secret.
pub open spec fn spec_signature(secret: Seq<char>, data: Seq<char>) -> Seq<char> {
    spec_base64(spec_hmac_sha256(secret, data))
}

fn key_accepted(keys: &Vec<String>, key: &str) -> (r: bool)
    ensures
        r == spec_key_accepted(keys@, key@),
{
    let mut i: usize = 0;
    while i < keys.len()
        invariant
            i <= keys@.len(),
            forall|k: int| 0 <= k < i ==> #[trigger] keys@[k]@ != key@,
        decreases keys@.len() - i,
    {
        if str_eq(keys[i].as_str(), key) {
            return true;
        }
        i = i + 1;
    }
    false
}

impl AuthService {
    /// A service with the given secret, accepted keys and timestamp
    /// tolerance in seconds.
    pub fn new(auth: &AuthConfig) -> (r: Self)
        ensures
            r.secret_key@ == auth.secret_key@,
            r.valid_api_keys@ == auth.valid_api_keys@,
            r.timestamp_tolerance as int == (if auth.timestamp_tolerance as int > i64::MAX as int {
                i64::MAX as int
            } else {
                auth.timestamp_tolerance as int
            }),
    {
        let tolerance: i64 = if auth.timestamp_tolerance > i64::MAX as u64 {
            i64::MAX
        } else {
            auth.timestamp_tolerance as i64
        };
        AuthService {
            secret_key: auth.secret_key.clone(),
            valid_api_keys: auth.valid_api_keys.clone(),
            timestamp_tolerance: tolerance,
        }
    }

    /// Builds the canonical text the signature covers.
    pub fn create_signature_data(&self, auth_data: &AuthData) -> (r: String)
        ensures
            r@ == spec_signature_data(*auth_data),
    {
        let mut out = String::new();
        out.append("api_key=");
        out.append(auth_data.api_key.as_str());
        out.append("&nonce=");
        out.append(auth_data.nonce.as_str());
        out.append("&timestamp=");
        out.append(auth_data.timestamp_rfc3339.as_str());
        match &auth_data.user_data {
            Some(u) => {
                out.append("&user_data=");
                out.append(u.as_str());
            },
            None => {
            },
        }
        out.append("&user_id=");
        out.append(auth_data.user_id.as_str());
        proof {
            assert(out@ =~= spec_signature_data(*auth_data));
        }
        out
    }

    /// Signs a canonical text under the service secret.
    pub fn generate_signature(&self, data: &str) -> (r: String)
        ensures
            r@ == spec_signature(self.secret_key@, data@),
    {
        let tag = hmac_sha256(self.secret_key.as_str(), data);
        base64_standard(tag.as_slice())
    }

    /// Validates a signature payload at clock value `now`: the timestamp
    /// must lie within the tolerance, the API key on the accepted list,
    /// and the signature must equal the expected one. The returned
    /// client record carries the payload's user id.
    pub fn authenticate_signature_at(&self, auth_data: &AuthData, now: i64) -> (r: Result<
        AuthenticatedClient,
        AuthError,
    >)
        ensures
            r is Ok <==> ({
                &&& -self.timestamp_tolerance <= now - auth_data.timestamp_unix
                    <= self.timestamp_tolerance
                &&& spec_key_accepted(self.valid_api_keys@, auth_data.api_key@)
                &&& auth_data.signature@ == spec_signature(
                    self.secret_key@,
                    spec_signature_data(*auth_data),
                )
            }),
            r matches Ok(c) ==> c.user_id@ == auth_data.user_id@ && c.auth_type@ == "signature"@
                && c.authenticated_at == now,
    {
        let diff: i128 = now as i128 - auth_data.timestamp_unix as i128;
        if diff > self.timestamp_tolerance as i128 || diff < -(self.timestamp_tolerance as i128) {
            return Err(AuthError::StaleTimestamp);
        }
        if !key_accepted(&self.valid_api_keys, auth_data.api_key.as_str()) {
            return Err(AuthError::InvalidApiKey);
        }
        let data = self.create_signature_data(auth_data);
        let expected = self.generate_signature(data.as_str());
        if !str_eq(auth_data.signature.as_str(), expected.as_str()) {
            return Err(AuthError::InvalidSignature);
        }
        Ok(
            AuthenticatedClient {
                id: new_nonce(),
                user_id: auth_data.user_id.clone(),
                auth_type: "signature".to_owned(),
                authenticated_at: now,
            },
        )
    }

    /// Validates a plain API-key payload: only membership on the
    /// accepted list is checked.
    pub fn authenticate_api_key_at(&self, auth_data: &AuthData, now: i64) -> (r: Result<
        AuthenticatedClient,
        AuthError,
    >)
        ensures
            r is Ok <==> spec_key_accepted(self.valid_api_keys@, auth_data.api_key@),
            r matches Ok(c) ==> c.user_id@ == auth_data.user_id@ && c.auth_type@ == "api_key"@
                && c.authenticated_at == now,
            r matches Err(e) ==> e == AuthError::InvalidApiKey,
    {
        if !key_accepted(&self.valid_api_keys, auth_data.api_key.as_str()) {
            return Err(AuthError::InvalidApiKey);
        }
        Ok(
            AuthenticatedClient {
                id: new_nonce(),
                user_id: auth_data.user_id.clone(),
                auth_type: "api_key".to_owned(),
                authenticated_at: now,
            },
        )
    }

    /// Dispatches on the payload's `auth_type`; anything but the two
    /// supported schemes is refused.
    pub fn authenticate(&self, auth_data: &AuthData) -> (r: Result<AuthenticatedClient, AuthError>)
        ensures
            auth_data.auth_type@ != "signature"@ && auth_data.auth_type@ != "api_key"@ ==> r
                == Err::<AuthenticatedClient, AuthError>(AuthError::UnsupportedType),
            auth_data.auth_type@ == "api_key"@ ==> (r is Ok <==> spec_key_accepted(
                self.valid_api_keys@,
                auth_data.api_key@,
            )),
            auth_data.auth_type@ == "signature"@ && r is Ok ==> ({
                &&& spec_key_accepted(self.valid_api_keys@, auth_data.api_key@)
                &&& auth_data.signature@ == spec_signature(
                    self.secret_key@,
                    spec_signature_data(*auth_data),
                )
            }),
    {
        proof {
            reveal_strlit("signature");
            reveal_strlit("api_key");
            assert("signature"@.len() != "api_key"@.len());
        }
        if str_eq(auth_data.auth_type.as_str(), "signature") {
            let now = now_unix_secs();
            self.authenticate_signature_at(auth_data, now)
        } else if str_eq(auth_data.auth_type.as_str(), "api_key") {
            let now = now_unix_secs();
            self.authenticate_api_key_at(auth_data, now)
        } else {
            Err(AuthError::UnsupportedType)
        }
    }

    /// Computes the signature a client must present for the given
    /// payload fields.
    pub fn generate_client_signature(
        &self,
        user_id: &str,
        api_key: &str,
        timestamp_rfc3339: &str,
        nonce: &str,
        user_data: Option<&str>,
    ) -> (r: String)
        ensures
            exists|d: AuthData|
                r@ == spec_signature(self.secret_key@, spec_signature_data(d)) && d.user_id@
                    == user_id@ && d.api_key@ == api_key@ && d.timestamp_rfc3339@
                    == timestamp_rfc3339@ && d.nonce@ == nonce@,
    {
        let auth_data = AuthData {
            auth_type: "signature".to_owned(),
            user_id: user_id.to_owned(),
            api_key: api_key.to_owned(),
            timestamp_unix: 0,
            timestamp_rfc3339: timestamp_rfc3339.to_owned(),
            nonce: nonce.to_owned(),
            signature: String::new(),
            user_data: match user_data {
                Some(u) => Some(u.to_owned()),
                None => None,
            },
        };
        let data = self.create_signature_data(&auth_data);
        let r = self.generate_signature(data.as_str());
        proof {
            assert(r@ == spec_signature(self.secret_key@, spec_signature_data(auth_data))
                && auth_data.user_id@ == user_id@ && auth_data.api_key@ == api_key@
                && auth_data.timestamp_rfc3339@ == timestamp_rfc3339@ && auth_data.nonce@
                == nonce@);
        }
        r
    }
}

} // verus!
