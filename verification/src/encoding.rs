//! Base64 and form encodings.

use vstd::prelude::*;

use crate::error;
use crate::error::Error;
use crate::http_common;

verus! {

/// The base64 encoding of some bytes in the URL-safe alphabet, without padding.
pub uninterp spec fn base64url(bytes: Seq<u8>) -> Seq<char>;

/// Whether `c` is one of the characters of the URL-safe base64 alphabet.
pub open spec fn is_base64url(c: char) -> bool {
    'A' <= c <= 'Z' || 'a' <= c <= 'z' || '0' <= c <= '9' || c == '-' || c == '_'
}

/// `base64::Engine::encode` of the engine `URL_SAFE_NO_PAD`: the encoding is made of characters of
/// the URL-safe alphabet alone, one for each six bits, and one more for what is left of them. How the
/// bits are spread over the characters is left to `base64`.
#[verifier::external_body]
pub(crate) fn base64url_encode(bytes: &[u8]) -> (r: String)
    ensures
        r@ == base64url(bytes@),
        r@.len() == (8 * bytes@.len() + 5) / 6,
        forall|i: int| 0 <= i < r@.len() ==> is_base64url(#[trigger] r@[i]),
{
    base64::Engine::encode(&base64::engine::general_purpose::URL_SAFE_NO_PAD, bytes)
}

/// Whether a text may be the URL-safe base64 encoding of a SHA-256 hash: it is as long, and made of
/// characters of the alphabet alone.
pub open spec fn encodes_hash(s: Seq<char>) -> bool {
    s.len() == 43 && forall|i: int| 0 <= i < s.len() ==> is_base64url(#[trigger] s[i])
}

/// The base64 encoding of some bytes in the standard alphabet, with padding.
pub uninterp spec fn base64_standard(bytes: Seq<u8>) -> Seq<char>;

/// Whether `c` is one of the characters of the standard base64 alphabet, or the one that fills up.
pub open spec fn is_base64_standard(c: char) -> bool {
    'A' <= c <= 'Z' || 'a' <= c <= 'z' || '0' <= c <= '9' || c == '+' || c == '/' || c == '='
}

/// `base64::Engine::encode` of the engine `STANDARD`: the encoding is made of characters of the
/// standard alphabet and of `=` alone, four for each three bytes, and four more for what is left of
/// them. How the bits are spread over the characters is left to `base64`.
#[verifier::external_body]
pub(crate) fn base64_standard_encode(bytes: &[u8]) -> (r: String)
    ensures
        r@ == base64_standard(bytes@),
        r@.len() == (bytes@.len() + 2) / 3 * 4,
        forall|i: int| 0 <= i < r@.len() ==> is_base64_standard(#[trigger] r@[i]),
{
    base64::Engine::encode(&base64::engine::general_purpose::STANDARD, bytes)
}

/// The bytes that a text encodes in base64, in the standard alphabet and with padding, or what is
/// wrong with the text.
pub uninterp spec fn base64_standard_decoded(s: Seq<char>) -> Result<Seq<u8>, Seq<char>>;

/// `base64::Engine::decode` of the engine `STANDARD`, with its error as a text.
#[verifier::external_body]
fn base64_standard_decode(s: &str) -> (r: Result<Vec<u8>, String>)
    ensures
        match r {
            Ok(bytes) => base64_standard_decoded(s@) == Ok::<Seq<u8>, Seq<char>>(bytes@),
            Err(err) => base64_standard_decoded(s@) == Err::<Seq<u8>, Seq<char>>(err@),
        },
{
    base64::Engine::decode(&base64::engine::general_purpose::STANDARD, s).map_err(
        |err| err.to_string(),
    )
}

/// The bytes that a text encodes in base64, in the standard alphabet and with padding.
pub fn decode_base64(s: &str) -> (r: Result<Vec<u8>, Error>)
    ensures
        error::result_view(r) == http_common::outside(base64_standard_decoded(s@)),
{
    match base64_standard_decode(s) {
        Ok(bytes) => Ok(bytes),
        Err(err) => Err(Error::new(err.as_str())),
    }
}

/// Some pairs of names and values in the form of `application/x-www-form-urlencoded`.
pub uninterp spec fn form_urlencoded_pairs(pairs: Seq<(Seq<char>, Seq<char>)>) -> Seq<char>;

/// The views of some pairs of texts.
pub open spec fn text_pairs(pairs: Seq<(String, String)>) -> Seq<(Seq<char>, Seq<char>)> {
    pairs.map_values(|p: (String, String)| (p.0@, p.1@))
}

/// `form_urlencoded::Serializer::extend_pairs`, on an empty target: encodes the pairs in their
/// order.
#[verifier::external_body]
pub(crate) fn form_urlencode(pairs: &Vec<(String, String)>) -> (r: String)
    ensures
        r@ == form_urlencoded_pairs(text_pairs(pairs@)),
{
    form_urlencoded::Serializer::new(String::new()).extend_pairs(pairs).finish()
}

/// The views of some pairs of texts are the views of each of them, at its place.
pub proof fn each_pair_has_its_view(pairs: Seq<(String, String)>)
    ensures
        text_pairs(pairs).len() == pairs.len(),
        forall|i: int| 0 <= i < pairs.len() ==> #[trigger] text_pairs(pairs)[i] == (pairs[i].0@, pairs[i].1@),
{
}

} // verus!
