//! The ACME v2 protocol: accounts, and orders for certificates.

use vstd::prelude::*;
use vstd::utf8;

use crate::crypto;
use crate::encoding;
use crate::json;

pub mod account;
pub mod completion;
pub mod order;
pub mod progress;
pub mod proto;

pub use account::{
    Account, AccountStatus, Client, DirectoryResponse, NewAccountResponse, NewNonceResponse, PendingPost, Post,
    PostStep, RenewalInfo, ResponseWithNewNonce, SuggestedRenewal, UnsignedPost,
};
pub use order::{Order, OrderPending, OrderPendingAuthorization, OrderReady, OrderValid};

verus! {

/// The curve of an elliptic key.
#[derive(Clone, Copy, Debug, PartialEq, Eq, Structural)]
pub enum EcCurve {
    P256,
    P384,
    P521,
}

/// The algorithm that signs with a key on a curve.
pub open spec fn sign_alg(crv: EcCurve) -> Seq<char> {
    match crv {
        EcCurve::P256 => "ES256"@,
        EcCurve::P384 => "ES384"@,
        EcCurve::P521 => "ES512"@,
    }
}

/// The name of a curve in a key.
pub open spec fn curve_name(crv: EcCurve) -> Seq<char> {
    match crv {
        EcCurve::P256 => "P-256"@,
        EcCurve::P384 => "P-384"@,
        EcCurve::P521 => "P-521"@,
    }
}

/// The `Debug` form of a curve.
pub open spec fn curve_shown(crv: EcCurve) -> Seq<char> {
    match crv {
        EcCurve::P256 => "P256"@,
        EcCurve::P384 => "P384"@,
        EcCurve::P521 => "P521"@,
    }
}

/// The hash of a message that a key on a curve signs.
pub open spec fn signed_hash(crv: EcCurve, message: Seq<u8>) -> Seq<u8> {
    match crv {
        EcCurve::P256 => crypto::sha256(message),
        EcCurve::P384 => crypto::sha384(message),
        EcCurve::P521 => crypto::sha512(message),
    }
}

impl EcCurve {
    /// The algorithm that signs with a key on the curve.
    pub fn jws_sign_alg(self) -> (r: &'static str)
        ensures
            r@ == sign_alg(self),
    {
        match self {
            EcCurve::P256 => "ES256",
            EcCurve::P384 => "ES384",
            EcCurve::P521 => "ES512",
        }
    }

    /// The name of the curve in a key.
    pub fn name(self) -> (r: &'static str)
        ensures
            r@ == curve_name(self),
    {
        match self {
            EcCurve::P256 => "P-256",
            EcCurve::P384 => "P-384",
            EcCurve::P521 => "P-521",
        }
    }

    /// The `Debug` form of the curve.
    pub fn debug_text(self) -> (r: &'static str)
        ensures
            r@ == curve_shown(self),
    {
        match self {
            EcCurve::P256 => "P256",
            EcCurve::P384 => "P384",
            EcCurve::P521 => "P521",
        }
    }

    /// The hash of a message that a key on the curve signs, in base64.
    pub fn digest(self, message: &[u8]) -> (r: String)
        ensures
            r@ == encoding::base64url(signed_hash(self, message@)),
    {
        let hash = match self {
            EcCurve::P256 => crypto::hash_sha256(message),
            EcCurve::P384 => crypto::hash_sha384(message),
            EcCurve::P521 => crypto::hash_sha512(message),
        };
        encoding::base64url_encode(hash.as_slice())
    }
}

/// A public key.
#[derive(Clone, Copy, Debug)]
pub struct Jwk<'a> {
    pub crv: EcCurve,
    pub kty: &'a str,
    pub x: &'a str,
    pub y: &'a str,
}

/// What a public key is made of.
#[verifier::ext_equal]
pub struct JwkView {
    pub crv: EcCurve,
    pub kty: Seq<char>,
    pub x: Seq<char>,
    pub y: Seq<char>,
}

impl<'a> View for Jwk<'a> {
    type V = JwkView;

    open spec fn view(&self) -> JwkView {
        JwkView { crv: self.crv, kty: self.kty@, x: self.x@, y: self.y@ }
    }
}

/// The JSON form of a public key. Its members are in lexicographic order, and there is no space
/// between them, so that the hash of this form is the thumbprint of the key.
pub open spec fn jwk_json(jwk: JwkView) -> Seq<char> {
    json::json_object(
        seq![
            ("crv"@, json::json_string(curve_name(jwk.crv))),
            ("kty"@, json::json_string(jwk.kty)),
            ("x"@, json::json_string(jwk.x)),
            ("y"@, json::json_string(jwk.y)),
        ],
    )
}

/// The thumbprint of a public key, in base64.
pub open spec fn thumbprint(jwk: JwkView) -> Seq<char> {
    encoding::base64url(crypto::sha256(utf8::encode_utf8(jwk_json(jwk))))
}

impl<'a> Jwk<'a> {
    /// The JSON form of the key.
    pub fn to_json(&self) -> (r: String)
        ensures
            r@ == jwk_json(self@),
    {
        let fields = vec![
            ("crv", json::string(self.crv.name())),
            ("kty", json::string(self.kty)),
            ("x", json::string(self.x)),
            ("y", json::string(self.y)),
        ];
        assert(json::members(fields@) =~= seq![
            ("crv"@, json::json_string(curve_name(self.crv))),
            ("kty"@, json::json_string(self.kty@)),
            ("x"@, json::json_string(self.x@)),
            ("y"@, json::json_string(self.y@)),
        ]);
        json::object(&fields)
    }

    /// The thumbprint of the key, in base64.
    pub fn thumbprint(&self) -> (r: String)
        ensures
            r@ == thumbprint(self@),
            encoding::encodes_hash(r@),
    {
        let key = self.to_json();
        encoding::base64url_encode(crypto::hash_sha256(key.as_str().as_bytes()).as_slice())
    }
}

/// The key of an ACME account. The private key may be out of reach: a signature is then asked for.
pub trait AccountKey {
    /// What asks for a signature.
    type Signing;

    /// The public key.
    spec fn jwk(&self) -> JwkView;

    /// Whether `signing` asks for the signature of `message`.
    spec fn is_signing(&self, message: Seq<u8>, signing: Self::Signing) -> bool;

    /// The public key.
    fn as_jwk(&self) -> (r: Jwk<'_>)
        ensures
            r@ == self.jwk(),
    ;

    /// Asks for the signature of a message.
    fn sign(&self, message: &[u8]) -> (r: Self::Signing)
        ensures
            self.is_signing(message@, r),
    ;
}

/// What the TXT record has to hold that answers a DNS challenge.
pub open spec fn challenge_answer(token: Seq<char>, jwk: JwkView) -> Seq<char> {
    encoding::base64url(
        crypto::sha256(utf8::encode_utf8(token + "."@ + thumbprint(jwk))),
    )
}

/// What the TXT record has to hold that answers a DNS challenge.
pub fn dns_txt_record_content(token: &str, jwk: &Jwk<'_>) -> (r: String)
    ensures
        r@ == challenge_answer(token@, jwk@),
        encoding::encodes_hash(r@),
{
    let mut key_authorization = token.to_owned();
    key_authorization.append(".");
    key_authorization.append(jwk.thumbprint().as_str());
    let hash = crypto::hash_sha256(key_authorization.as_str().as_bytes());
    encoding::base64url_encode(hash.as_slice())
}

/// Each curve has an algorithm, a name and a hash of its own, and they belong together: a key on P-256
/// signs a SHA-256 hash with ES256, one on P-384 a SHA-384 hash with ES384, and one on P-521 a SHA-512
/// hash with ES512.
pub proof fn a_curve_has_its_algorithm_and_its_hash(crv: EcCurve, message: Seq<u8>)
    ensures
        match crv {
            EcCurve::P256 => sign_alg(crv) == "ES256"@ && curve_name(crv) == "P-256"@ && curve_shown(crv)
                == "P256"@ && signed_hash(crv, message) == crypto::sha256(message),
            EcCurve::P384 => sign_alg(crv) == "ES384"@ && curve_name(crv) == "P-384"@ && curve_shown(crv)
                == "P384"@ && signed_hash(crv, message) == crypto::sha384(message),
            EcCurve::P521 => sign_alg(crv) == "ES512"@ && curve_name(crv) == "P-521"@ && curve_shown(crv)
                == "P521"@ && signed_hash(crv, message) == crypto::sha512(message),
        },
{
}

/// Two curves share neither an algorithm nor a name.
pub proof fn curves_are_told_apart(one: EcCurve, other: EcCurve)
    requires
        one != other,
    ensures
        sign_alg(one) != sign_alg(other),
        curve_name(one) != curve_name(other),
        curve_shown(one) != curve_shown(other),
{
    reveal_strlit("ES256");
    reveal_strlit("ES384");
    reveal_strlit("ES512");
    reveal_strlit("P-256");
    reveal_strlit("P-384");
    reveal_strlit("P-521");
    reveal_strlit("P256");
    reveal_strlit("P384");
    reveal_strlit("P521");
    assert(sign_alg(one)[2] != sign_alg(other)[2]);
    assert(curve_name(one)[2] != curve_name(other)[2]);
    assert(curve_shown(one)[1] != curve_shown(other)[1]);
}

/// The thumbprint of a key is the hash of its required members alone, in lexicographic order and without
/// a space between them, and the answer to a challenge is the hash of the token, a dot and the thumbprint.
pub proof fn an_answer_binds_the_token_to_the_key(token: Seq<char>, jwk: JwkView)
    ensures
        ({
            let crv = match jwk.crv {
                EcCurve::P256 => "P-256"@,
                EcCurve::P384 => "P-384"@,
                EcCurve::P521 => "P-521"@,
            };
            let key = seq!['{'] + json::json_string("crv"@) + seq![':'] + json::json_string(crv) + seq![
                ',',
            ] + json::json_string("kty"@) + seq![':'] + json::json_string(jwk.kty) + seq![',']
                + json::json_string("x"@) + seq![':'] + json::json_string(jwk.x) + seq![',']
                + json::json_string("y"@) + seq![':'] + json::json_string(jwk.y) + seq!['}'];
            let print = encoding::base64url(crypto::sha256(utf8::encode_utf8(key)));
            &&& jwk_json(jwk) == key
            &&& thumbprint(jwk) == print
            &&& challenge_answer(token, jwk) == encoding::base64url(
                crypto::sha256(
                    utf8::encode_utf8(token) + utf8::encode_utf8(seq!['.']) + utf8::encode_utf8(print),
                ),
            )
        }),
{
    let crv = json::json_string(curve_name(jwk.crv));
    let kty = json::json_string(jwk.kty);
    let x = json::json_string(jwk.x);
    let y = json::json_string(jwk.y);
    json::lemma_object_of_four("crv"@, crv, "kty"@, kty, "x"@, x, "y"@, y);
    reveal_strlit(".");
    assert("."@ =~= seq!['.']);
    crate::text::lemma_encode_concat(token, "."@);
    crate::text::lemma_encode_concat(token + "."@, thumbprint(jwk));
}

} // verus!
