//! Construction of the five signed headers that every REST call carries.
//!
//! The Authorization value is the hex HMAC-SHA256 tag, under the access
//! secret, of a canonical newline-joined header text whose field order and
//! names must match the upstream contract exactly.

use vstd::prelude::*;
use vstd::string::StringExecFns;

use crate::digest::{hmac_sha256, md5_digest, spec_hmac_sha256, spec_md5};
use crate::text::{dec_i64, hex_chars, spec_dec_chars, spec_hex_chars};

verus! {

/// The canonical header text that is signed: the access key id, the body's
/// MD5 in hex, the fixed signature method, the nonce, the fixed signature
/// version, and the Unix timestamp, joined exactly in this form.
pub open spec fn spec_canonical_header_text(
    key: Seq<char>,
    md5hex: Seq<char>,
    nonce: Seq<char>,
    ts: int,
) -> Seq<char> {
    "x-bili-accesskeyid:"@ + key + "\nx-bili-content-md5:"@ + md5hex
        + "\nx-bili-signature-method:HMAC-SHA256\nx-bili-signature-nonce:"@ + nonce
        + "\nx-bili-signature-version:1.0\nx-bili-timestamp:"@ + spec_dec_chars(ts)
}

/// The Authorization header value for the given request inputs.
pub open spec fn spec_authorization(
    key: Seq<char>,
    secret: Seq<char>,
    body: Seq<char>,
    nonce: Seq<char>,
    ts: int,
) -> Seq<char> {
    spec_hex_chars(
        spec_hmac_sha256(
            secret,
            spec_canonical_header_text(key, spec_hex_chars(spec_md5(body)), nonce, ts),
        ),
    )
}

/// The five custom header values a signed REST request carries.
#[derive(Debug, Clone)]
pub struct SignedHeaders {
    pub access_key: String,
    pub content_md5: String,
    pub nonce: String,
    pub timestamp: String,
    pub signature: String,
}

/// Computes the signed headers for one request body at a fixed nonce and
/// timestamp. For fixed inputs every field is a fixed function of them,
/// so the result is deterministic and reproducible.
pub fn signed_headers_at(
    access_key: &str,
    access_secret: &str,
    body: &str,
    nonce: &str,
    timestamp: i64,
) -> (r: SignedHeaders)
    ensures
        r.access_key@ == access_key@,
        r.content_md5@ == spec_hex_chars(spec_md5(body@)),
        r.nonce@ == nonce@,
        r.timestamp@ == spec_dec_chars(timestamp as int),
        r.signature@ == spec_authorization(
            access_key@,
            access_secret@,
            body@,
            nonce@,
            timestamp as int,
        ),
{
    let digest = md5_digest(body);
    let md5_hex = hex_chars(digest.as_slice());
    let ts_text = dec_i64(timestamp);

    let mut canonical = String::new();
    canonical.append("x-bili-accesskeyid:");
    canonical.append(access_key);
    canonical.append("\nx-bili-content-md5:");
    canonical.append(md5_hex.as_str());
    canonical.append("\nx-bili-signature-method:HMAC-SHA256\nx-bili-signature-nonce:");
    canonical.append(nonce);
    canonical.append("\nx-bili-signature-version:1.0\nx-bili-timestamp:");
    canonical.append(ts_text.as_str());
    proof {
        assert(canonical@ =~= spec_canonical_header_text(
            access_key@,
            spec_hex_chars(spec_md5(body@)),
            nonce@,
            timestamp as int,
        ));
    }

    let tag = hmac_sha256(access_secret, canonical.as_str());
    let signature = hex_chars(tag.as_slice());
    SignedHeaders {
        access_key: access_key.to_owned(),
        content_md5: md5_hex,
        nonce: nonce.to_owned(),
        timestamp: ts_text,
        signature,
    }
}

/// Determinism of signing: two header sets whose Authorization values were
/// computed from the same access key, secret, body, nonce and timestamp
/// carry the same Authorization value.
pub proof fn lemma_signature_deterministic(
    h1: SignedHeaders,
    h2: SignedHeaders,
    key: Seq<char>,
    secret: Seq<char>,
    body: Seq<char>,
    nonce: Seq<char>,
    ts: int,
)
    requires
        h1.signature@ == spec_authorization(key, secret, body, nonce, ts),
        h2.signature@ == spec_authorization(key, secret, body, nonce, ts),
    ensures
        h1.signature@ == h2.signature@,
{
}

/// Relies on chrono's `Utc::now`: the current Unix timestamp in seconds.
/// Nothing is assumed about the clock's value.
#[verifier::external_body]
pub(crate) fn now_unix_secs() -> i64 {
    chrono::Utc::now().timestamp()
}

/// Relies on uuid's `new_v4` and its hyphenated rendering: a fresh random
/// identifier; the hyphenated form is always 36 characters.
#[verifier::external_body]
pub(crate) fn new_nonce() -> (r: String)
    ensures
        r@.len() == 36,
{
    uuid::Uuid::new_v4().to_string()
}

/// Computes the signed headers for one request body at a fresh random
/// nonce and the current clock. Whatever nonce and timestamp came back,
/// the returned fields are consistent with them: the Authorization value
/// signs exactly the returned nonce and timestamp text.
pub fn signed_headers_now(access_key: &str, access_secret: &str, body: &str) -> (r: SignedHeaders)
    ensures
        r.access_key@ == access_key@,
        r.content_md5@ == spec_hex_chars(spec_md5(body@)),
        exists|nonce: Seq<char>, ts: int|
            r.nonce@ == nonce && r.timestamp@ == spec_dec_chars(ts) && r.signature@
                == spec_authorization(access_key@, access_secret@, body@, nonce, ts),
{
    let nonce = new_nonce();
    let ts = now_unix_secs();
    let r = signed_headers_at(access_key, access_secret, body, nonce.as_str(), ts);
    proof {
        assert(r.nonce@ == nonce@ && r.timestamp@ == spec_dec_chars(ts as int) && r.signature@
            == spec_authorization(access_key@, access_secret@, body@, nonce@, ts as int));
    }
    r
}

} // verus!
