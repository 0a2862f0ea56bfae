//! The outward gateway's data types: query-string authentication for the
//! event stream, and the command messages clients send.
//!
//! The servers themselves (HTTP, event stream) live outside the crate;
//! they hand the parsed query fields in as plain values.

use vstd::prelude::*;

use crate::digest::{hmac_sha256, spec_hmac_sha256};
use crate::sign::now_unix_secs;
use crate::text::{dec_i64, parse_hex, spec_dec_chars, spec_hex_parse, str_eq};
use vstd::string::StringExecFns;

verus! {

/// The authentication fields a client passes in its query string.
#[derive(Debug, Clone)]
pub struct AuthParams {
    pub access_key: String,
    pub timestamp: i64,
    pub nonce: String,
    pub signature: String,
}

/// Validates the gateway's query-string signatures: HMAC-SHA256 of
/// `key:timestamp:nonce` under the shared secret, presented in hex.
#[derive(Debug, Clone)]
pub struct SignatureAuth {
    pub access_key: String,
    pub secret_key: String,
    pub max_age_secs: u64,
}

/// The canonical text a gateway signature covers.
pub open spec fn spec_gateway_canonical(key: Seq<char>, ts: int, nonce: Seq<char>) -> Seq<char> {
    key + ":"@ + spec_dec_chars(ts) + ":"@ + nonce
}

/// Whether the presented signature is the expected tag, regardless of
/// any clock: the hex text must parse and equal the HMAC-SHA256 of the
/// canonical text under the secret.
pub open spec fn spec_gateway_signature_good(auth: SignatureAuth, params: AuthParams) -> bool {
    &&& params.access_key@ == auth.access_key@
    &&& spec_hex_parse(params.signature@) == Some(
        spec_hmac_sha256(
            auth.secret_key@,
            spec_gateway_canonical(params.access_key@, params.timestamp as int, params.nonce@),
        ),
    )
}

impl SignatureAuth {
    /// A validator for the given key pair; signatures older than
    /// `max_age_secs` seconds (or as far in the future) are refused.
    pub fn new(access_key: String, secret_key: String, max_age_secs: u64) -> (r: Self)
        ensures
            r.access_key@ == access_key@,
            r.secret_key@ == secret_key@,
            r.max_age_secs == max_age_secs,
    {
        SignatureAuth { access_key, secret_key, max_age_secs }
    }

    /// Full validation at clock value `now`: the key must match, the
    /// timestamp must lie within the age bound, and the signature must
    /// be the expected tag.
    pub fn verify_params_at(&self, params: &AuthParams, now: i64) -> (r: bool)
        ensures
            r <==> ({
                &&& spec_gateway_signature_good(*self, *params)
                &&& -(self.max_age_secs as int) <= now - params.timestamp <= self.max_age_secs
                    as int
            }),
    {
        if !str_eq(params.access_key.as_str(), self.access_key.as_str()) {
            return false;
        }
        let diff: i128 = now as i128 - params.timestamp as i128;
        if diff > self.max_age_secs as i128 || diff < -(self.max_age_secs as i128) {
            return false;
        }
        let presented = match parse_hex(params.signature.as_str()) {
            Some(bytes) => bytes,
            None => {
                return false;
            },
        };
        let mut canonical = String::new();
        canonical.append(params.access_key.as_str());
        canonical.append(":");
        let ts_text = dec_i64(params.timestamp);
        canonical.append(ts_text.as_str());
        canonical.append(":");
        canonical.append(params.nonce.as_str());
        proof {
            assert(canonical@ =~= spec_gateway_canonical(
                params.access_key@,
                params.timestamp as int,
                params.nonce@,
            ));
        }
        let expected = hmac_sha256(self.secret_key.as_str(), canonical.as_str());
        let ok = bytes_eq(presented.as_slice(), expected.as_slice());
        ok
    }

    /// Validation against the current clock. Whatever the clock
    /// answered, acceptance implies the signature itself is the
    /// expected tag for the presented fields.
    pub fn verify_params(&self, params: &AuthParams) -> (r: bool)
        ensures
            r ==> spec_gateway_signature_good(*self, *params),
    {
        let now = now_unix_secs();
        self.verify_params_at(params, now)
    }
}

/// Whether two byte strings hold the same bytes.
pub fn bytes_eq(a: &[u8], b: &[u8]) -> (r: bool)
    ensures
        r == (a@ == b@),
{
    if a.len() != b.len() {
        return false;
    }
    let mut i: usize = 0;
    while i < a.len()
        invariant
            a@.len() == b@.len(),
            i <= a@.len(),
            forall|k: int| 0 <= k < i ==> a@[k] == b@[k],
        decreases a@.len() - i,
    {
        if a[i] != b[i] {
            return false;
        }
        i = i + 1;
    }
    proof {
        assert(a@ =~= b@);
    }
    true
}

/// A message a gateway client sends, already parsed into plain values.
#[derive(Debug)]
pub enum ClientMessage {
    Command { input: String },
    LiveStart,
    LiveStop,
    LiveStatus,
}

/// A command handed to the agent loop.
#[derive(Debug)]
pub enum AgentCommand {
    Command { input: String },
    LiveStart,
    LiveStop,
    LiveStatus,
}

impl ClientMessage {
    /// The agent command a client message maps to, field for field.
    pub fn into_command(self) -> (r: AgentCommand)
        ensures
            (match (self, r) {
                (
                    ClientMessage::Command { input },
                    AgentCommand::Command { input: mapped },
                ) => input == mapped,
                (ClientMessage::LiveStart, AgentCommand::LiveStart) => true,
                (ClientMessage::LiveStop, AgentCommand::LiveStop) => true,
                (ClientMessage::LiveStatus, AgentCommand::LiveStatus) => true,
                _ => false,
            }),
    {
        match self {
            ClientMessage::Command { input } => AgentCommand::Command { input },
            ClientMessage::LiveStart => AgentCommand::LiveStart,
            ClientMessage::LiveStop => AgentCommand::LiveStop,
            ClientMessage::LiveStatus => AgentCommand::LiveStatus,
        }
    }
}

} // verus!
