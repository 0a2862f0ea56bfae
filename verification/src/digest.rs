//! Trusted digest primitives: MD5, HMAC-SHA256 and Base64.
//!
//! Each digest's value is named by an uninterpreted function of the input
//! text alone; everything built on top of these names is verified.

use vstd::prelude::*;

verus! {

/// The MD5 digest (16 bytes) of the UTF-8 bytes of a text.
pub uninterp spec fn spec_md5(text: Seq<char>) -> Seq<u8>;

/// Relies on the md5 crate's `Md5` hasher: the digest is a function of the
/// input bytes alone and is always 16 bytes long.
#[verifier::external_body]
pub(crate) fn md5_digest(text: &str) -> (r: Vec<u8>)
    ensures
        r@ == spec_md5(text@),
        r@.len() == 16,
{
    let mut hasher = <md5::Md5 as md5::Digest>::new();
    md5::Digest::update(&mut hasher, text.as_bytes());
    md5::Digest::finalize(hasher).to_vec()
}

/// The HMAC-SHA256 tag (32 bytes) of a message under a key, both given as
/// text whose UTF-8 bytes are fed to the MAC.
pub uninterp spec fn spec_hmac_sha256(key: Seq<char>, message: Seq<char>) -> Seq<u8>;

/// Relies on the hmac crate with SHA-256: `new_from_slice` accepts a key of
/// any length (its source only hashes long keys down), and the finalized
/// tag is a function of key and message alone, 32 bytes long.
#[verifier::external_body]
pub(crate) fn hmac_sha256(key: &str, message: &str) -> (r: Vec<u8>)
    ensures
        r@ == spec_hmac_sha256(key@, message@),
        r@.len() == 32,
{
    let mut mac = <hmac::Hmac<sha2::Sha256> as hmac::Mac>::new_from_slice(key.as_bytes())
        .expect("HMAC accepts keys of any length");
    hmac::Mac::update(&mut mac, message.as_bytes());
    hmac::Mac::finalize(mac).into_bytes().to_vec()
}

/// The standard padded Base64 rendering of a byte string.
pub uninterp spec fn spec_base64(bytes: Seq<u8>) -> Seq<char>;

/// Relies on base64's `STANDARD` engine: a deterministic padded encoding;
/// an empty input encodes to an empty text.
#[verifier::external_body]
pub(crate) fn base64_standard(bytes: &[u8]) -> (r: String)
    ensures
        r@ == spec_base64(bytes@),
        bytes@.len() == 0 ==> r@.len() == 0,
{
    base64::Engine::encode(&base64::engine::general_purpose::STANDARD, bytes)
}

} // verus!
