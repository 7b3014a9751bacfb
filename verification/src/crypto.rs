//! Hashes and message authentication codes.

use vstd::prelude::*;

verus! {

/// The SHA-256 hash of some bytes.
pub uninterp spec fn sha256(bytes: Seq<u8>) -> Seq<u8>;

/// `sha2::Digest::digest` of `sha2::Sha256`: the hash is 32 bytes long.
#[verifier::external_body]
pub(crate) fn hash_sha256(bytes: &[u8]) -> (r: Vec<u8>)
    ensures
        r@ == sha256(bytes@),
        r@.len() == 32,
{
    <sha2::Sha256 as sha2::Digest>::digest(bytes).to_vec()
}

/// The SHA-384 hash of some bytes.
pub uninterp spec fn sha384(bytes: Seq<u8>) -> Seq<u8>;

/// `sha2::Digest::digest` of `sha2::Sha384`: the hash is 48 bytes long.
#[verifier::external_body]
pub(crate) fn hash_sha384(bytes: &[u8]) -> (r: Vec<u8>)
    ensures
        r@ == sha384(bytes@),
        r@.len() == 48,
{
    <sha2::Sha384 as sha2::Digest>::digest(bytes).to_vec()
}

/// The SHA-512 hash of some bytes.
pub uninterp spec fn sha512(bytes: Seq<u8>) -> Seq<u8>;

/// `sha2::Digest::digest` of `sha2::Sha512`: the hash is 64 bytes long.
#[verifier::external_body]
pub(crate) fn hash_sha512(bytes: &[u8]) -> (r: Vec<u8>)
    ensures
        r@ == sha512(bytes@),
        r@.len() == 64,
{
    <sha2::Sha512 as sha2::Digest>::digest(bytes).to_vec()
}

/// The HMAC of a message under a key, with SHA-256.
pub uninterp spec fn hmac_sha256(key: Seq<u8>, message: Seq<u8>) -> Seq<u8>;

/// `hmac::Mac::chain_update` and `finalize` of `hmac::Hmac<sha2::Sha256>`, which takes a key of any
/// length: the code is 32 bytes long.
#[verifier::external_body]
pub(crate) fn authenticate_sha256(key: &[u8], message: &[u8]) -> (r: Vec<u8>)
    ensures
        r@ == hmac_sha256(key@, message@),
        r@.len() == 32,
{
    let mac = <hmac::Hmac<sha2::Sha256> as hmac::Mac>::new_from_slice(key);
    let mac = mac.expect("a key of any length will do");
    hmac::Mac::finalize(hmac::Mac::chain_update(mac, message)).into_bytes().to_vec()
}

} // verus!
