//! Keys in a KeyVault. The private keys do not leave it: the KeyVault signs.

use vstd::prelude::*;
use vstd::utf8;

use crate::acme;
use crate::acme::{AccountKey, EcCurve, Jwk, JwkView};
use crate::azure::key_vault::Client;
use crate::azure::{Call, CallView, Url, UrlView};
use crate::encoding;
use crate::error;
use crate::error::Error;
use crate::http_common;
use crate::http_common::{
    FromResponse, HeaderValue, Method, ResponseBody, ResponseHeaders, StatusCode, Uri,
};
use crate::json;
use crate::log2;
use crate::log2::object_id;
use crate::log2::{ObjectId, Scope, ScopeView, ScopedObjectOperation, Shown};
use crate::text;

verus! {

/// The kind of an elliptic key: kept in software, or in hardware.
#[derive(Clone, Copy, Debug, PartialEq, Eq, Structural)]
pub enum EcKty {
    Ec,
    EcHsm,
}

/// The name of a kind of key.
pub open spec fn kty_name(kty: EcKty) -> Seq<char> {
    match kty {
        EcKty::Ec => "EC"@,
        EcKty::EcHsm => "EC-HSM"@,
    }
}

/// The `Debug` form of a kind of key.
pub open spec fn kty_shown(kty: EcKty) -> Seq<char> {
    match kty {
        EcKty::Ec => "Ec"@,
        EcKty::EcHsm => "EcHsm"@,
    }
}

impl EcKty {
    /// The name of the kind of key.
    pub fn name(self) -> (r: &'static str)
        ensures
            r@ == kty_name(self),
    {
        match self {
            EcKty::Ec => "EC",
            EcKty::EcHsm => "EC-HSM",
        }
    }

    /// The `Debug` form of the kind of key.
    pub fn debug_text(self) -> (r: &'static str)
        ensures
            r@ == kty_shown(self),
    {
        match self {
            EcKty::Ec => "Ec",
            EcKty::EcHsm => "EcHsm",
        }
    }
}

/// What creates a key.
pub open spec fn create_key_json(kty: EcKty, crv: EcCurve) -> Seq<char> {
    json::json_object(
        seq![
            ("crv"@, json::json_string(acme::curve_name(crv))),
            ("kty"@, json::json_string(kty_name(kty))),
            ("key_ops"@, json::json_array(json::json_strings(seq!["sign"@, "verify"@]))),
        ],
    )
}

/// The creation of a key.
pub open spec fn key_create_call(
    key_vault_name: Seq<char>,
    key_name: Seq<char>,
    kty: EcKty,
    crv: EcCurve,
) -> CallView {
    CallView {
        scope: ScopeView {
            object_type: "azure/key_vault/key"@,
            object_id: object_id::path2(key_vault_name, key_name),
            operation: ScopedObjectOperation::Create {
                value: "("@ + kty_shown(kty) + ", "@ + acme::curve_shown(crv) + ")"@,
            },
        },
        method: Method::Post,
        url: UrlView::PathAndQuery("/keys/"@ + key_name + "/create?api-version=7.4"@),
        body: Some(create_key_json(kty, crv)),
    }
}

/// A look at a key.
pub open spec fn key_get_call(key_vault_name: Seq<char>, key_name: Seq<char>) -> CallView {
    CallView {
        scope: ScopeView {
            object_type: "azure/key_vault/key"@,
            object_id: object_id::path2(key_vault_name, key_name),
            operation: ScopedObjectOperation::Get,
        },
        method: Method::Get,
        url: UrlView::PathAndQuery("/keys/"@ + key_name + "?api-version=7.4"@),
        body: None,
    }
}

impl<'a> Client<'a> {
    /// Creates a key.
    pub fn key_create(&self, key_name: &str, kty: EcKty, crv: EcCurve) -> (r: Call)
        ensures
            r@ == key_create_call(self@.key_vault_name, key_name@, kty, crv),
    {
        let mut value = "(".to_owned();
        value.append(kty.debug_text());
        value.append(", ");
        value.append(crv.debug_text());
        value.append(")");
        let mut url = "/keys/".to_owned();
        url.append(key_name);
        url.append("/create?api-version=7.4");
        let key_ops = vec!["sign".to_owned(), "verify".to_owned()];
        assert(text::texts(key_ops@) =~= seq!["sign"@, "verify"@]);
        let fields = vec![
            ("crv", json::string(crv.name())),
            ("kty", json::string(kty.name())),
            ("key_ops", json::string_array(&key_ops)),
        ];
        assert(json::members(fields@) =~= seq![
            ("crv"@, json::json_string(acme::curve_name(crv))),
            ("kty"@, json::json_string(kty_name(kty))),
            ("key_ops"@, json::json_array(json::json_strings(seq!["sign"@, "verify"@]))),
        ]);
        Call {
            scope: Scope::create(
                "azure/key_vault/key",
                ObjectId((self.key_vault_name(), key_name)).text(),
                value,
            ),
            method: Method::Post,
            url: Url::PathAndQuery(url),
            body: Some(json::object(&fields)),
        }
    }

    /// Looks at a key.
    pub fn key_get(&self, key_name: &str) -> (r: Call)
        ensures
            r@ == key_get_call(self@.key_vault_name, key_name@),
    {
        let mut url = "/keys/".to_owned();
        url.append(key_name);
        url.append("?api-version=7.4");
        Call {
            scope: Scope::get(
                "azure/key_vault/key",
                ObjectId((self.key_vault_name(), key_name)).text(),
            ),
            method: Method::Get,
            url: Url::PathAndQuery(url),
            body: None,
        }
    }
}

/// A key, as the KeyVault describes it. Its kind has to be one of the elliptic ones.
#[derive(Debug)]
pub struct KeyResponse {
    pub crv: EcCurve,
    pub kid: String,
    pub kty: EcKty,
    pub x: String,
    pub y: String,
}

/// A key, as the KeyVault describes it.
#[verifier::ext_equal]
pub struct KeyResponseView {
    pub crv: EcCurve,
    pub kid: Seq<char>,
    pub kty: EcKty,
    pub x: Seq<char>,
    pub y: Seq<char>,
}

impl View for KeyResponse {
    type V = KeyResponseView;

    open spec fn view(&self) -> KeyResponseView {
        KeyResponseView {
            crv: self.crv,
            kid: self.kid@,
            kty: self.kty,
            x: self.x@,
            y: self.y@,
        }
    }
}

impl Shown for KeyResponse {
    open spec fn shown(value: KeyResponseView) -> Seq<char> {
        "KeyResponse { crv: "@ + acme::curve_shown(value.crv) + ", kid: "@ + text::quoted(value.kid)
            + ", kty: "@ + kty_shown(value.kty) + ", x: "@ + text::quoted(value.x) + ", y: "@
            + text::quoted(value.y) + " }"@
    }

    fn show(&self) -> (r: String) {
        let mut r = "KeyResponse { crv: ".to_owned();
        r.append(self.crv.debug_text());
        r.append(", kid: ");
        r.append(text::quote(self.kid.as_str()).as_str());
        r.append(", kty: ");
        r.append(self.kty.debug_text());
        r.append(", x: ");
        r.append(text::quote(self.x.as_str()).as_str());
        r.append(", y: ");
        r.append(text::quote(self.y.as_str()).as_str());
        r.append(" }");
        r
    }
}

/// A key that has been created.
#[derive(Debug)]
pub struct CreateOrGetKeyResponse {
    pub key: KeyResponse,
}

impl View for CreateOrGetKeyResponse {
    type V = KeyResponseView;

    open spec fn view(&self) -> KeyResponseView {
        self.key@
    }
}

impl FromResponse for CreateOrGetKeyResponse {
    type Content = Result<CreateOrGetKeyResponse, String>;

    open spec fn interpreted(
        status: u16,
        body: Option<ResponseBody<Result<CreateOrGetKeyResponse, String>>>,
        headers: ResponseHeaders,
        now: int,
    ) -> Result<Option<KeyResponseView>, Seq<Seq<char>>> {
        http_common::viewed(http_common::json_if(status == 200, body))
    }

    fn from_response(
        status: StatusCode,
        body: Option<ResponseBody<Result<CreateOrGetKeyResponse, String>>>,
        headers: &ResponseHeaders,
        now: i128,
    ) -> (r: Result<Option<CreateOrGetKeyResponse>, Error>) {
        http_common::expect_json(status.as_u16() == 200, body)
    }

    open spec fn reads(status: u16, content_type: Seq<u8>, headers: ResponseHeaders) -> bool {
        status == 200 && http_common::is_json(content_type)
    }

    fn reads_body(
        status: StatusCode,
        content_type: &HeaderValue,
        headers: &ResponseHeaders,
    ) -> (r: bool) {
        status.as_u16() == 200 && http_common::has_json_type(content_type)
    }

    proof fn unread_does_not_matter(
        status: u16,
        content_type: HeaderValue,
        in_one_piece: bool,
        one: Result<CreateOrGetKeyResponse, String>,
        other: Result<CreateOrGetKeyResponse, String>,
        headers: ResponseHeaders,
        now: int,
    ) {
    }
}

impl Shown for CreateOrGetKeyResponse {
    /// Nothing: the end of a creation shows no value.
    open spec fn shown(value: Self::V) -> Seq<char> {
        ""@
    }

    fn show(&self) -> (r: String) {
        "".to_owned()
    }
}

/// A key that has been looked for.
#[derive(Debug)]
pub struct KeyGetResponse {
    pub key: Option<KeyResponse>,
}

impl View for KeyGetResponse {
    type V = Option<KeyResponseView>;

    open spec fn view(&self) -> Option<KeyResponseView> {
        match self.key {
            Some(key) => Some(key@),
            None => None,
        }
    }
}

impl FromResponse for KeyGetResponse {
    type Content = Result<CreateOrGetKeyResponse, String>;

    open spec fn interpreted(
        status: u16,
        body: Option<ResponseBody<Result<CreateOrGetKeyResponse, String>>>,
        headers: ResponseHeaders,
        now: int,
    ) -> Result<Option<Option<KeyResponseView>>, Seq<Seq<char>>> {
        if status == 404 {
            Ok(Some(None))
        } else {
            match http_common::json_if(status == 200, body) {
                Ok(Some(response)) => Ok(Some(Some(response@))),
                Ok(None) => Ok(None),
                Err(err) => Err(err),
            }
        }
    }

    fn from_response(
        status: StatusCode,
        body: Option<ResponseBody<Result<CreateOrGetKeyResponse, String>>>,
        headers: &ResponseHeaders,
        now: i128,
    ) -> (r: Result<Option<KeyGetResponse>, Error>) {
        if status.as_u16() == 404 {
            return Ok(Some(KeyGetResponse { key: None }));
        }
        match http_common::expect_json(status.as_u16() == 200, body) {
            Ok(Some(response)) => Ok(Some(KeyGetResponse { key: Some(response.key) })),
            Ok(None) => Ok(None),
            Err(err) => Err(err),
        }
    }

    open spec fn reads(status: u16, content_type: Seq<u8>, headers: ResponseHeaders) -> bool {
        status == 200 && http_common::is_json(content_type)
    }

    fn reads_body(
        status: StatusCode,
        content_type: &HeaderValue,
        headers: &ResponseHeaders,
    ) -> (r: bool) {
        status.as_u16() == 200 && http_common::has_json_type(content_type)
    }

    proof fn unread_does_not_matter(
        status: u16,
        content_type: HeaderValue,
        in_one_piece: bool,
        one: Result<CreateOrGetKeyResponse, String>,
        other: Result<CreateOrGetKeyResponse, String>,
        headers: ResponseHeaders,
        now: int,
    ) {
    }
}

impl Shown for KeyGetResponse {
    open spec fn shown(value: Option<KeyResponseView>) -> Seq<char> {
        log2::optional_shown(
            match value {
                Some(key) => Some(<KeyResponse as Shown>::shown(key)),
                None => None,
            },
        )
    }

    fn show(&self) -> (r: String) {
        let key = match &self.key {
            Some(key) => Some(key.show()),
            None => None,
        };
        log2::show_optional(key)
    }
}

/// A key in a KeyVault.
#[verifier::ext_equal]
pub struct KeyView {
    pub crv: EcCurve,
    pub kid: Seq<char>,
    pub x: Seq<char>,
    pub y: Seq<char>,
}

/// The key that a KeyVault describes.
pub open spec fn key_described(key: KeyResponseView) -> KeyView {
    KeyView { crv: key.crv, kid: key.kid, x: key.x, y: key.y }
}

/// A key in a KeyVault.
#[derive(Debug)]
pub struct Key {
    crv: EcCurve,
    kid: String,
    x: String,
    y: String,
    sign_url: Uri,
}

impl View for Key {
    type V = (KeyView, Seq<char>);

    closed spec fn view(&self) -> (KeyView, Seq<char>) {
        (
            KeyView { crv: self.crv, kid: self.kid@, x: self.x@, y: self.y@ },
            self.sign_url@,
        )
    }
}

/// Where a KeyVault signs with a key.
pub open spec fn sign_url(kid: Seq<char>) -> Seq<char> {
    kid + "/sign?api-version=7.4"@
}

/// What asks for the signature of a message with a key.
pub open spec fn signing_call(key: KeyView, sign_url: Seq<char>, message: Seq<u8>) -> CallView {
    CallView {
        scope: ScopeView {
            object_type: "azure/key_vault/key/signature"@,
            object_id: key.kid,
            operation: ScopedObjectOperation::Create { value: ""@ },
        },
        method: Method::Post,
        url: UrlView::Uri(sign_url),
        body: Some(
            json::json_object(
                seq![
                    ("alg"@, json::json_string(acme::sign_alg(key.crv))),
                    (
                        "value"@,
                        json::json_string(encoding::base64url(acme::signed_hash(key.crv, message))),
                    ),
                ],
            ),
        ),
    }
}

impl Key {
    /// The key that a KeyVault has described.
    pub fn new(key: KeyResponse) -> (r: Result<Key, Error>)
        ensures
            match http_common::uri_text(utf8::encode_utf8(sign_url(key.kid@))) {
                Ok(url) => r matches Ok(k) && k@ == (key_described(key@), url),
                Err(err) => r matches Err(e) && e@ == error::in_context(
                    "could not construct sign URL"@,
                    error::message(err),
                ),
            },
    {
        let mut url = key.kid.clone();
        url.append("/sign?api-version=7.4");
        match Uri::from_text(url.as_str()) {
            Ok(sign_url) => Ok(
                Key { crv: key.crv, kid: key.kid, x: key.x, y: key.y, sign_url },
            ),
            Err(err) => Err(err.context("could not construct sign URL")),
        }
    }
}

impl AccountKey for Key {
    type Signing = Call;

    open spec fn jwk(&self) -> JwkView {
        JwkView { crv: self@.0.crv, kty: "EC"@, x: self@.0.x, y: self@.0.y }
    }

    open spec fn is_signing(&self, message: Seq<u8>, signing: Call) -> bool {
        signing@ == signing_call(self@.0, self@.1, message)
    }

    fn as_jwk(&self) -> (r: Jwk<'_>) {
        Jwk { crv: self.crv, kty: "EC", x: self.x.as_str(), y: self.y.as_str() }
    }

    fn sign(&self, message: &[u8]) -> (r: Call) {
        let digest = self.crv.digest(message);
        let fields = vec![
            ("alg", json::string(self.crv.jws_sign_alg())),
            ("value", json::string(digest.as_str())),
        ];
        assert(json::members(fields@) =~= seq![
            ("alg"@, json::json_string(acme::sign_alg(self.crv))),
            ("value"@, json::json_string(digest@)),
        ]);
        Call {
            scope: Scope::create(
                "azure/key_vault/key/signature",
                self.kid.clone(),
                "".to_owned(),
            ),
            method: Method::Post,
            url: Url::Uri(self.sign_url.clone()),
            body: Some(json::object(&fields)),
        }
    }
}

/// A signature.
#[derive(Debug)]
pub struct KeyVaultSignResponse {
    pub value: String,
}

impl View for KeyVaultSignResponse {
    type V = Seq<char>;

    open spec fn view(&self) -> Seq<char> {
        self.value@
    }
}

impl FromResponse for KeyVaultSignResponse {
    type Content = Result<KeyVaultSignResponse, String>;

    open spec fn interpreted(
        status: u16,
        body: Option<ResponseBody<Result<KeyVaultSignResponse, String>>>,
        headers: ResponseHeaders,
        now: int,
    ) -> Result<Option<Seq<char>>, Seq<Seq<char>>> {
        http_common::viewed(http_common::json_if(status == 200, body))
    }

    fn from_response(
        status: StatusCode,
        body: Option<ResponseBody<Result<KeyVaultSignResponse, String>>>,
        headers: &ResponseHeaders,
        now: i128,
    ) -> (r: Result<Option<KeyVaultSignResponse>, Error>) {
        http_common::expect_json(status.as_u16() == 200, body)
    }

    open spec fn reads(status: u16, content_type: Seq<u8>, headers: ResponseHeaders) -> bool {
        status == 200 && http_common::is_json(content_type)
    }

    fn reads_body(
        status: StatusCode,
        content_type: &HeaderValue,
        headers: &ResponseHeaders,
    ) -> (r: bool) {
        status.as_u16() == 200 && http_common::has_json_type(content_type)
    }

    proof fn unread_does_not_matter(
        status: u16,
        content_type: HeaderValue,
        in_one_piece: bool,
        one: Result<KeyVaultSignResponse, String>,
        other: Result<KeyVaultSignResponse, String>,
        headers: ResponseHeaders,
        now: int,
    ) {
    }
}

impl Shown for KeyVaultSignResponse {
    /// Nothing: the end of a creation shows no value.
    open spec fn shown(value: Self::V) -> Seq<char> {
        ""@
    }

    fn show(&self) -> (r: String) {
        "".to_owned()
    }
}

/// A post is signed with the algorithm that its protection names: the one that belongs to the curve of the
/// key. What is signed is the hash of the message that belongs to it too.
pub proof fn a_post_is_signed_with_the_algorithm_that_it_names(
    key: Key,
    account_url: Option<Seq<char>>,
    nonce: Seq<char>,
    url: Seq<char>,
    unsigned: crate::acme::account::UnsignedView,
    signing: Call,
)
    requires
        key.is_signing(crate::acme::account::signing_input(unsigned), signing),
    ensures
        ({
            let message = crate::acme::account::signing_input(unsigned);
            let (alg, hash) = match key@.0.crv {
                EcCurve::P256 => ("ES256"@, crate::crypto::sha256(message)),
                EcCurve::P384 => ("ES384"@, crate::crypto::sha384(message)),
                EcCurve::P521 => ("ES512"@, crate::crypto::sha512(message)),
            };
            let named = seq!['{'] + json::json_string("alg"@) + seq![':'] + json::json_string(alg) + seq![
                ',',
            ];
            &&& text::has_prefix(crate::acme::account::protected_json(key.jwk(), account_url, nonce, url), named)
            &&& signing@.body == Some(
                named + json::json_string("value"@) + seq![':'] + json::json_string(
                    encoding::base64url(hash),
                ) + seq!['}'],
            )
        }),
{
    let message = crate::acme::account::signing_input(unsigned);
    let alg = json::json_string(acme::sign_alg(key@.0.crv));
    let (name, value) = crate::acme::account::signer(key.jwk(), account_url);
    json::lemma_object_of_four(
        "alg"@,
        alg,
        name,
        value,
        "nonce"@,
        json::json_string(nonce),
        "url"@,
        json::json_string(url),
    );
    json::lemma_object_of_two(
        "alg"@,
        alg,
        "value"@,
        json::json_string(encoding::base64url(acme::signed_hash(key@.0.crv, message))),
    );
    let named = seq!['{'] + json::json_string("alg"@) + seq![':'] + alg + seq![','];
    let rest = json::json_string(name) + seq![':'] + value + seq![','] + json::json_string("nonce"@) + seq![
        ':',
    ] + json::json_string(nonce) + seq![','] + json::json_string("url"@) + seq![':']
        + json::json_string(url) + seq!['}'];
    let protected = crate::acme::account::protected_json(key.jwk(), account_url, nonce, url);
    assert(protected =~= named + rest);
    text::a_prefix_stands_first(protected, named, rest);
}

/// A key is created under its name with its own kind and curve, to sign and to verify with, and is looked
/// for under the same name.
pub proof fn a_key_is_created_as_it_is_asked_for(
    key_vault_name: Seq<char>,
    key_name: Seq<char>,
    kty: EcKty,
    crv: EcCurve,
)
    ensures
        ({
            let create = key_create_call(key_vault_name, key_name, kty, crv);
            let look = key_get_call(key_vault_name, key_name);
            let kind = match kty {
                EcKty::Ec => "EC"@,
                EcKty::EcHsm => "EC-HSM"@,
            };
            let curve = match crv {
                EcCurve::P256 => "P-256"@,
                EcCurve::P384 => "P-384"@,
                EcCurve::P521 => "P-521"@,
            };
            &&& create.method == Method::Post
            &&& create.url == UrlView::PathAndQuery("/keys/"@ + key_name + "/create?api-version=7.4"@)
            &&& create.body == Some(
                json::json_object(
                    seq![
                        ("crv"@, json::json_string(curve)),
                        ("kty"@, json::json_string(kind)),
                        (
                            "key_ops"@,
                            json::json_array(
                                seq![json::json_string("sign"@), json::json_string("verify"@)],
                            ),
                        ),
                    ],
                ),
            )
            &&& create.scope.object_type == "azure/key_vault/key"@
            &&& create.scope.object_id == key_vault_name + seq!['/'] + key_name
            &&& look.method == Method::Get
            &&& look.url == UrlView::PathAndQuery("/keys/"@ + key_name + "?api-version=7.4"@)
            &&& look.body is None
            &&& look.scope.object_type == "azure/key_vault/key"@
            &&& look.scope.object_id == create.scope.object_id
            &&& look.scope.operation is Get
        }),
{
    object_id::parts_are_separated_by_slashes(key_vault_name, key_name, seq![]);
    assert(json::json_strings(seq!["sign"@, "verify"@]) =~= seq![
        json::json_string("sign"@),
        json::json_string("verify"@),
    ]);
}

/// A key is what the KeyVault says of it, is shown to the ACME server as an elliptic one wherever it is
/// kept, and signs at its own URL.
pub proof fn a_key_is_what_the_key_vault_describes(
    described: KeyResponseView,
    key: Key,
    url: Seq<char>,
    message: Seq<u8>,
)
    requires
        key@ == (key_described(described), url),
    ensures
        key.jwk() == (JwkView {
            crv: described.crv,
            kty: "EC"@,
            x: described.x,
            y: described.y,
        }),
        sign_url(described.kid) == described.kid + "/sign?api-version=7.4"@,
        signing_call(key@.0, key@.1, message).method == Method::Post,
        signing_call(key@.0, key@.1, message).url == UrlView::Uri(url),
        signing_call(key@.0, key@.1, message).scope.object_type == "azure/key_vault/key/signature"@,
        signing_call(key@.0, key@.1, message).scope.object_id == described.kid,
{
}

/// A key that does not exist is none, and one that does, or that has been created, is described by a
/// response with the status 200, as is a signature. Anything else is no answer.
pub proof fn the_status_tells_what_became_of_a_key(
    status: u16,
    found: Option<ResponseBody<Result<CreateOrGetKeyResponse, String>>>,
    signature: Option<ResponseBody<Result<KeyVaultSignResponse, String>>>,
    headers: ResponseHeaders,
    now: int,
)
    ensures
        CreateOrGetKeyResponse::interpreted(status, found, headers, now) == if status == 200 {
            http_common::viewed(http_common::json_if(true, found))
        } else {
            Ok(None)
        },
        KeyVaultSignResponse::interpreted(status, signature, headers, now) == if status == 200 {
            http_common::viewed(http_common::json_if(true, signature))
        } else {
            Ok(None)
        },
        KeyGetResponse::interpreted(status, found, headers, now) == if status == 404 {
            Ok::<Option<Option<KeyResponseView>>, Seq<Seq<char>>>(Some(None))
        } else if status == 200 {
            match http_common::json_if(true, found) {
                Ok(Some(response)) => Ok(Some(Some(response.key@))),
                Ok(None) => Ok(None),
                Err(err) => Err(err),
            }
        } else {
            Ok(None)
        },
{
}

/// A key is shown with all that is known of it, which is nothing secret, and its creation with its kind and
/// its curve. The end of a creation or of a signing shows nothing.
pub proof fn a_key_is_shown_whole(
    key: KeyResponseView,
    key_vault_name: Seq<char>,
    key_name: Seq<char>,
    kty: EcKty,
    crv: EcCurve,
)
    ensures
        ({
            let shown = "KeyResponse { crv: "@ + acme::curve_shown(key.crv) + ", kid: "@ + text::quoted(
                key.kid,
            ) + ", kty: "@ + match key.kty {
                EcKty::Ec => "Ec"@,
                EcKty::EcHsm => "EcHsm"@,
            } + ", x: "@ + text::quoted(key.x) + ", y: "@ + text::quoted(key.y) + " }"@;
            &&& <KeyResponse as Shown>::shown(key) == shown
            &&& <KeyGetResponse as Shown>::shown(Some(key)) == "Some("@ + shown + ")"@
            &&& <KeyGetResponse as Shown>::shown(None) == "None"@
            &&& <CreateOrGetKeyResponse as Shown>::shown(key) == ""@
            &&& <KeyVaultSignResponse as Shown>::shown(key.x) == ""@
        }),
        key_create_call(key_vault_name, key_name, kty, crv).scope.operation == (ScopedObjectOperation::<
            Seq<char>,
        >::Create {
            value: "("@ + match kty {
                EcKty::Ec => "Ec"@,
                EcKty::EcHsm => "EcHsm"@,
            } + ", "@ + acme::curve_shown(crv) + ")"@,
        }),
{
}

/// The body of a response counts where its status and its media type are the expected ones.
pub proof fn bodies_count_where_they_are_expected(status: u16, content_type: Seq<u8>, headers: ResponseHeaders)
    ensures
        <CreateOrGetKeyResponse as FromResponse>::reads(status, content_type, headers)
            <==> status == 200 && http_common::is_json(content_type),
        <KeyGetResponse as FromResponse>::reads(status, content_type, headers)
            <==> status == 200 && http_common::is_json(content_type),
        <KeyVaultSignResponse as FromResponse>::reads(status, content_type, headers)
            <==> status == 200 && http_common::is_json(content_type),
{
}

} // verus!
