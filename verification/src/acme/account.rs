//! The directory of an ACME server, accounts, and the signed requests that an account makes.

use vstd::prelude::*;
use vstd::utf8;

use crate::acme;
use crate::acme::{AccountKey, Jwk, JwkView};
use crate::encoding;
use crate::error;
use crate::error::Error;
use crate::http_common;
use crate::http_common::{
    FromResponse, HeaderValue, Method, Request, RequestBody, RequestView, ResponseBody,
    ResponseHeaders, ResponseWithLocation, StatusCode, Uri,
};
use crate::json;
use crate::log2;
use crate::log2::{Report, Scope, ScopeView, ScopedObjectOperation, Secret, Shown};
use crate::text;
use crate::time2;

verus! {

/// The directory of an ACME server.
#[derive(Debug)]
pub struct DirectoryResponse {
    pub new_account_url: Uri,
    pub new_nonce_url: Uri,
    pub new_order_url: Uri,
    pub renewal_info_url: Option<Uri>,
}

/// The URLs of an ACME server.
#[verifier::ext_equal]
pub struct DirectoryView {
    pub new_account_url: Seq<char>,
    pub new_nonce_url: Seq<char>,
    pub new_order_url: Seq<char>,
    pub renewal_info_url: Option<Seq<char>>,
}

/// The view of an optional URI.
pub open spec fn optional_uri(uri: Option<Uri>) -> Option<Seq<char>> {
    match uri {
        Some(uri) => Some(uri@),
        None => None,
    }
}

impl View for DirectoryResponse {
    type V = DirectoryView;

    open spec fn view(&self) -> DirectoryView {
        DirectoryView {
            new_account_url: self.new_account_url@,
            new_nonce_url: self.new_nonce_url@,
            new_order_url: self.new_order_url@,
            renewal_info_url: optional_uri(self.renewal_info_url),
        }
    }
}

impl FromResponse for DirectoryResponse {
    type Content = Result<DirectoryResponse, String>;

    open spec fn interpreted(
        status: u16,
        body: Option<ResponseBody<Result<DirectoryResponse, String>>>,
        headers: ResponseHeaders,
        now: int,
    ) -> Result<Option<DirectoryView>, Seq<Seq<char>>> {
        http_common::viewed(http_common::json_if(status == 200, body))
    }

    fn from_response(
        status: StatusCode,
        body: Option<ResponseBody<Result<DirectoryResponse, String>>>,
        headers: &ResponseHeaders,
        now: i128,
    ) -> (r: Result<Option<DirectoryResponse>, Error>) {
        http_common::expect_json(status.as_u16() == 200, body)
    }

    open spec fn reads(status: u16, content_type: Seq<u8>, headers: ResponseHeaders) -> bool {
        status == 200 && http_common::is_json(content_type)
    }

    fn reads_body(
        status: StatusCode,
        content_type: &HeaderValue,
        headers: &ResponseHeaders,
    ) -> (r: bool) {
        status.as_u16() == 200 && http_common::has_json_type(content_type)
    }

    proof fn unread_does_not_matter(
        status: u16,
        content_type: HeaderValue,
        in_one_piece: bool,
        one: Result<DirectoryResponse, String>,
        other: Result<DirectoryResponse, String>,
        headers: ResponseHeaders,
        now: int,
    ) {
    }
}

impl Shown for DirectoryResponse {
    open spec fn shown(value: DirectoryView) -> Seq<char> {
        "DirectoryResponse { new_account_url: "@ + value.new_account_url + ", new_nonce_url: "@
            + value.new_nonce_url + ", new_order_url: "@ + value.new_order_url
            + ", renewal_info_url: "@ + log2::optional_shown(value.renewal_info_url) + " }"@
    }

    fn show(&self) -> (r: String) {
        let mut r = "DirectoryResponse { new_account_url: ".to_owned();
        r.append(self.new_account_url.as_str());
        r.append(", new_nonce_url: ");
        r.append(self.new_nonce_url.as_str());
        r.append(", new_order_url: ");
        r.append(self.new_order_url.as_str());
        r.append(", renewal_info_url: ");
        let renewal_info_url = match &self.renewal_info_url {
            Some(url) => Some(url.as_str().to_owned()),
            None => None,
        };
        r.append(log2::show_optional(renewal_info_url).as_str());
        r.append(" }");
        r
    }
}

/// When the server suggests to renew a certificate.
#[derive(Debug)]
pub struct RenewalInfo {
    /// The start of the suggested window.
    pub start: i128,
    /// The seconds that the zone is ahead of UTC in which the start was given.
    pub offset: i32,
}

impl View for RenewalInfo {
    type V = (i128, i32);

    open spec fn view(&self) -> (i128, i32) {
        (self.start, self.offset)
    }
}

impl RenewalInfo {
    /// The window with a start in the form of RFC 3339.
    pub fn from_text(start: &str) -> (r: Result<RenewalInfo, Error>)
        ensures
            error::result_view(r) == http_common::outside(time2::rfc3339_time(start@)),
    {
        match time2::parse_rfc3339(start) {
            Ok((start, offset)) => Ok(RenewalInfo { start, offset }),
            Err(err) => Err(Error::new(err.as_str())),
        }
    }
}

/// What a server has to say about a renewal, if it has something to say.
#[derive(Debug)]
pub struct SuggestedRenewal {
    pub info: Option<RenewalInfo>,
}

impl View for SuggestedRenewal {
    type V = Option<(i128, i32)>;

    open spec fn view(&self) -> Option<(i128, i32)> {
        match self.info {
            Some(info) => Some(info@),
            None => None,
        }
    }
}

impl Shown for SuggestedRenewal {
    open spec fn shown(value: Option<(i128, i32)>) -> Seq<char> {
        log2::optional_shown(
            match value {
                Some((start, offset)) => Some(
                    "Response { suggested_window: SuggestedWindow { start: "@ + time2::time_shown(
                        start,
                        offset,
                    ) + " } }"@,
                ),
                None => None,
            },
        )
    }

    fn show(&self) -> (r: String) {
        let info = match &self.info {
            Some(info) => {
                let mut r = "Response { suggested_window: SuggestedWindow { start: ".to_owned();
                r.append(time2::show_time(info.start, info.offset).as_str());
                r.append(" } }");
                Some(r)
            },
            None => None,
        };
        log2::show_optional(info)
    }
}

impl FromResponse for RenewalInfo {
    type Content = Result<RenewalInfo, String>;

    open spec fn interpreted(
        status: u16,
        body: Option<ResponseBody<Result<RenewalInfo, String>>>,
        headers: ResponseHeaders,
        now: int,
    ) -> Result<Option<(i128, i32)>, Seq<Seq<char>>> {
        http_common::viewed(http_common::json_if(status == 200, body))
    }

    fn from_response(
        status: StatusCode,
        body: Option<ResponseBody<Result<RenewalInfo, String>>>,
        headers: &ResponseHeaders,
        now: i128,
    ) -> (r: Result<Option<RenewalInfo>, Error>) {
        http_common::expect_json(status.as_u16() == 200, body)
    }

    open spec fn reads(status: u16, content_type: Seq<u8>, headers: ResponseHeaders) -> bool {
        status == 200 && http_common::is_json(content_type)
    }

    fn reads_body(
        status: StatusCode,
        content_type: &HeaderValue,
        headers: &ResponseHeaders,
    ) -> (r: bool) {
        status.as_u16() == 200 && http_common::has_json_type(content_type)
    }

    proof fn unread_does_not_matter(
        status: u16,
        content_type: HeaderValue,
        in_one_piece: bool,
        one: Result<RenewalInfo, String>,
        other: Result<RenewalInfo, String>,
        headers: ResponseHeaders,
        now: int,
    ) {
    }
}

/// The status of an account.
#[derive(Clone, Copy, Debug, PartialEq, Eq, Structural)]
pub enum AccountStatus {
    Deactivated,
    Revoked,
    Valid,
}

/// The `Debug` form of the status of an account.
pub open spec fn status_shown(status: AccountStatus) -> Seq<char> {
    match status {
        AccountStatus::Deactivated => "Deactivated"@,
        AccountStatus::Revoked => "Revoked"@,
        AccountStatus::Valid => "Valid"@,
    }
}

impl AccountStatus {
    /// The `Debug` form of the status.
    pub fn debug_text(self) -> (r: &'static str)
        ensures
            r@ == status_shown(self),
    {
        match self {
            AccountStatus::Deactivated => "Deactivated",
            AccountStatus::Revoked => "Revoked",
            AccountStatus::Valid => "Valid",
        }
    }
}

/// An account, as the server describes it.
#[derive(Debug)]
pub struct NewAccountResponse {
    pub status: AccountStatus,
}

impl View for NewAccountResponse {
    type V = AccountStatus;

    open spec fn view(&self) -> AccountStatus {
        self.status
    }
}

impl FromResponse for NewAccountResponse {
    type Content = Result<NewAccountResponse, String>;

    open spec fn interpreted(
        status: u16,
        body: Option<ResponseBody<Result<NewAccountResponse, String>>>,
        headers: ResponseHeaders,
        now: int,
    ) -> Result<Option<AccountStatus>, Seq<Seq<char>>> {
        http_common::viewed(http_common::json_if(status == 201 || status == 200, body))
    }

    fn from_response(
        status: StatusCode,
        body: Option<ResponseBody<Result<NewAccountResponse, String>>>,
        headers: &ResponseHeaders,
        now: i128,
    ) -> (r: Result<Option<NewAccountResponse>, Error>) {
        http_common::expect_json(status.as_u16() == 201 || status.as_u16() == 200, body)
    }

    open spec fn reads(status: u16, content_type: Seq<u8>, headers: ResponseHeaders) -> bool {
        (status == 201 || status == 200) && http_common::is_json(content_type)
    }

    fn reads_body(
        status: StatusCode,
        content_type: &HeaderValue,
        headers: &ResponseHeaders,
    ) -> (r: bool) {
        (status.as_u16() == 201 || status.as_u16() == 200) && http_common::has_json_type(content_type)
    }

    proof fn unread_does_not_matter(
        status: u16,
        content_type: HeaderValue,
        in_one_piece: bool,
        one: Result<NewAccountResponse, String>,
        other: Result<NewAccountResponse, String>,
        headers: ResponseHeaders,
        now: int,
    ) {
    }
}

impl Shown for ResponseWithLocation<NewAccountResponse> {
    /// The URL of the account, as a text, and its status.
    open spec fn shown(value: (AccountStatus, Seq<char>)) -> Seq<char> {
        "("@ + text::quoted(value.1) + ", "@ + status_shown(value.0) + ")"@
    }

    fn show(&self) -> (r: String) {
        let mut r = "(".to_owned();
        r.append(text::quote(self.location.as_str()).as_str());
        r.append(", ");
        r.append(self.body.status.debug_text());
        r.append(")");
        r
    }
}

/// A response that carries a nonce for the next request.
#[derive(Debug)]
pub struct ResponseWithNewNonce<T> {
    pub body: T,
    pub new_nonce: Option<HeaderValue>,
}

impl<T: View> View for ResponseWithNewNonce<T> {
    type V = (T::V, Option<Seq<u8>>);

    open spec fn view(&self) -> (T::V, Option<Seq<u8>>) {
        (self.body@, http_common::header_view(self.new_nonce))
    }
}

impl<T: FromResponse> FromResponse for ResponseWithNewNonce<T> {
    type Content = T::Content;

    open spec fn interpreted(
        status: u16,
        body: Option<ResponseBody<T::Content>>,
        headers: ResponseHeaders,
        now: int,
    ) -> Result<Option<(T::V, Option<Seq<u8>>)>, Seq<Seq<char>>> {
        match T::interpreted(status, body, headers, now) {
            Ok(Some(value)) => Ok(Some((value, http_common::header_view(headers.replay_nonce)))),
            Ok(None) => Ok(None),
            Err(err) => Err(err),
        }
    }

    fn from_response(
        status: StatusCode,
        body: Option<ResponseBody<T::Content>>,
        headers: &ResponseHeaders,
        now: i128,
    ) -> (r: Result<Option<ResponseWithNewNonce<T>>, Error>) {
        match T::from_response(status, body, headers, now) {
            Ok(Some(body)) => {
                let new_nonce = match &headers.replay_nonce {
                    Some(nonce) => Some(nonce.clone()),
                    None => None,
                };
                Ok(Some(ResponseWithNewNonce { body, new_nonce }))
            },
            Ok(None) => Ok(None),
            Err(err) => Err(err),
        }
    }

    open spec fn reads(status: u16, content_type: Seq<u8>, headers: ResponseHeaders) -> bool {
        T::reads(status, content_type, headers)
    }

    fn reads_body(
        status: StatusCode,
        content_type: &HeaderValue,
        headers: &ResponseHeaders,
    ) -> (r: bool) {
        T::reads_body(status, content_type, headers)
    }

    proof fn unread_does_not_matter(
        status: u16,
        content_type: HeaderValue,
        in_one_piece: bool,
        one: T::Content,
        other: T::Content,
        headers: ResponseHeaders,
        now: int,
    ) {
        T::unread_does_not_matter(status, content_type, in_one_piece, one, other, headers, now);
    }
}

/// A response that is good for nothing but its nonce.
#[derive(Debug)]
pub struct NewNonceResponse;

impl View for NewNonceResponse {
    type V = ();

    open spec fn view(&self) -> () {
        ()
    }
}

impl FromResponse for NewNonceResponse {
    type Content = ();

    open spec fn interpreted(
        status: u16,
        body: Option<ResponseBody<()>>,
        headers: ResponseHeaders,
        now: int,
    ) -> Result<Option<()>, Seq<Seq<char>>> {
        if status == 200 {
            Ok(Some(()))
        } else {
            Ok(None)
        }
    }

    fn from_response(
        status: StatusCode,
        body: Option<ResponseBody<()>>,
        headers: &ResponseHeaders,
        now: i128,
    ) -> (r: Result<Option<NewNonceResponse>, Error>) {
        if status.as_u16() == 200 {
            Ok(Some(NewNonceResponse))
        } else {
            Ok(None)
        }
    }

    open spec fn reads(status: u16, content_type: Seq<u8>, headers: ResponseHeaders) -> bool {
        false
    }

    fn reads_body(
        status: StatusCode,
        content_type: &HeaderValue,
        headers: &ResponseHeaders,
    ) -> (r: bool) {
        false
    }

    proof fn unread_does_not_matter(
        status: u16,
        content_type: HeaderValue,
        in_one_piece: bool,
        one: (),
        other: (),
        headers: ResponseHeaders,
        now: int,
    ) {
    }
}

/// A client of an ACME server.
#[derive(Debug)]
pub struct Client {
    directory: DirectoryResponse,
}

impl View for Client {
    type V = DirectoryView;

    closed spec fn view(&self) -> DirectoryView {
        self.directory@
    }
}

/// The URL of what the server has to say about the renewal of a certificate.
pub open spec fn renewal_info_url(base: Seq<char>, ari_id: Seq<char>) -> Seq<char> {
    if base.len() > 0 && base.last() == '/' {
        base + ari_id
    } else {
        base + "/"@ + ari_id
    }
}

/// Whether a text ends with a slash.
fn ends_with_slash(s: &str) -> (r: bool)
    ensures
        r == (s@.len() > 0 && s@.last() == '/'),
{
    let chars = text::chars_of(s);
    chars.len() > 0 && chars[chars.len() - 1] == '/'
}

impl Client {
    /// Asks for the directory of an ACME server.
    pub fn directory_request(acme_directory_url: Uri) -> (r: (Scope, Request))
        ensures
            r.0@ == (ScopeView {
                object_type: "acme/directory"@,
                object_id: acme_directory_url@,
                operation: ScopedObjectOperation::Get,
            }),
            r.1@ == http_common::bare_request(Method::Get, acme_directory_url@),
    {
        let scope = Scope::get("acme/directory", acme_directory_url.as_str().to_owned());
        (scope, Request::new(Method::Get, acme_directory_url, RequestBody::default()))
    }

    /// A client of the server whose directory is `response`.
    pub fn new(response: Result<DirectoryResponse, Error>) -> (r: Result<Client, Error>)
        ensures
            match response {
                Ok(directory) => error::result_view(r) == Ok::<DirectoryView, Seq<Seq<char>>>(
                    directory@,
                ),
                Err(err) => error::result_view(r) == Err::<DirectoryView, Seq<Seq<char>>>(
                    seq!["could not query ACME directory"@, "could not execute HTTP request"@]
                        + err@,
                ),
            },
    {
        match response {
            Ok(directory) => Ok(Client { directory }),
            Err(err) => {
                let ghost before = err@;
                let err = err.context("could not execute HTTP request").context(
                    "could not query ACME directory",
                );
                assert(err@ =~= seq![
                    "could not query ACME directory"@,
                    "could not execute HTTP request"@,
                ] + before);
                Err(err)
            },
        }
    }

    /// Asks when the server suggests to renew a certificate, where the server has such suggestions.
    pub fn renewal_suggested_window_start(&self, ari_id: &str) -> (r: Result<
        Option<(Scope, Request)>,
        Error,
    >)
        ensures
            match (
                self@.renewal_info_url,
                http_common::uri_text(
                    utf8::encode_utf8(renewal_info_url(self@.renewal_info_url->0, ari_id@)),
                ),
            ) {
                (None, _) => r matches Ok(None),
                (Some(base), Ok(url)) => r matches Ok(Some((scope, request))) && scope@ == (
                ScopeView {
                    object_type: "acme/renewalInfo"@,
                    object_id: url,
                    operation: ScopedObjectOperation::Get,
                }) && request@ == http_common::bare_request(Method::Get, url),
                (Some(base), Err(err)) => r matches Err(e) && e@ == error::in_context(
                    "could not construct renewal info URL"@,
                    error::message(err),
                ),
            },
    {
        let base = match &self.directory.renewal_info_url {
            None => {
                return Ok(None);
            },
            Some(base) => base,
        };
        let mut url = base.as_str().to_owned();
        if !ends_with_slash(url.as_str()) {
            url.append("/");
        }
        url.append(ari_id);
        match Uri::from_text(url.as_str()) {
            Ok(url) => {
                let scope = Scope::get("acme/renewalInfo", url.as_str().to_owned());
                Ok(Some((scope, Request::new(Method::Get, url, RequestBody::default()))))
            },
            Err(err) => Err(err.context("could not construct renewal info URL")),
        }
    }

    /// What the server has to say about a renewal. An error counts as having nothing to say.
    pub fn renewal_info_received(response: Result<RenewalInfo, Error>) -> (r: SuggestedRenewal)
        ensures
            r@ == (match response {
                Ok(info) => Some(info@),
                Err(_) => None,
            }),
    {
        match response {
            Ok(info) => SuggestedRenewal { info: Some(info) },
            Err(_) => SuggestedRenewal { info: None },
        }
    }

    /// Opens the account of a key, or finds it where it is open already. The account can make
    /// requests once [`Account::account_received`] has taken the response.
    pub fn new_account<'a, K: AccountKey>(
        self,
        acme_contact_url: &str,
        account_key: &'a K,
    ) -> (r: (Account<'a, K>, Scope, Post))
        ensures
            r.0.key() == *account_key,
            r.0@ == (AccountView {
                jwk: account_key.jwk(),
                account_url: None,
                nonce: None,
                new_nonce_url: self@.new_nonce_url,
                new_order_url: self@.new_order_url,
            }),
            r.1@ == (ScopeView {
                object_type: "acme/account"@,
                object_id: ""@,
                operation: ScopedObjectOperation::Get,
            }),
            r.2@ == (PostView {
                url: self@.new_account_url,
                body: Some(new_account_json(acme_contact_url@)),
            }),
    {
        let account = Account {
            account_key,
            account_url: None,
            nonce: None,
            new_nonce_url: self.directory.new_nonce_url,
            new_order_url: self.directory.new_order_url,
        };
        let contacts = vec![acme_contact_url.to_owned()];
        assert(text::texts(contacts@) =~= seq![acme_contact_url@]);
        let fields = vec![
            ("contact", json::string_array(&contacts)),
            ("termsOfServiceAgreed", json::boolean(true)),
        ];
        assert(json::members(fields@) =~= seq![
            ("contact"@, json::json_array(json::json_strings(seq![acme_contact_url@]))),
            ("termsOfServiceAgreed"@, json::json_bool(true)),
        ]);
        let post = Post {
            url: self.directory.new_account_url,
            body: Some(json::object(&fields)),
        };
        (account, Scope::get("acme/account", "".to_owned()), post)
    }
}

/// What opens an account.
pub open spec fn new_account_json(acme_contact_url: Seq<char>) -> Seq<char> {
    json::json_object(
        seq![
            ("contact"@, json::json_array(json::json_strings(seq![acme_contact_url]))),
            ("termsOfServiceAgreed"@, json::json_bool(true)),
        ],
    )
}

/// An ACME account.
#[derive(Debug)]
pub struct Account<'a, K> {
    account_key: &'a K,
    account_url: Option<String>,
    nonce: Option<HeaderValue>,
    new_nonce_url: Uri,
    new_order_url: Uri,
}

/// What an account is made of.
#[verifier::ext_equal]
pub struct AccountView {
    /// The key of the account.
    pub jwk: JwkView,
    /// The URL of the account, once it is known.
    pub account_url: Option<Seq<char>>,
    /// The nonce for the next request, where the server has given one.
    pub nonce: Option<Seq<u8>>,
    pub new_nonce_url: Seq<char>,
    pub new_order_url: Seq<char>,
}

impl<'a, K> Account<'a, K> {
    /// The key of the account.
    pub closed spec fn key(&self) -> K {
        *self.account_key
    }
}

impl<'a, K: AccountKey> View for Account<'a, K> {
    type V = AccountView;

    closed spec fn view(&self) -> AccountView {
        AccountView {
            jwk: self.account_key.jwk(),
            account_url: text::optional(self.account_url),
            nonce: http_common::header_view(self.nonce),
            new_nonce_url: self.new_nonce_url@,
            new_order_url: self.new_order_url@,
        }
    }
}

/// Something that an account posts: to a URL, a JSON text or nothing.
#[derive(Debug)]
pub struct Post {
    pub url: Uri,
    pub body: Option<String>,
}

/// What is posted where.
#[verifier::ext_equal]
pub struct PostView {
    pub url: Seq<char>,
    pub body: Option<Seq<char>>,
}

impl View for Post {
    type V = PostView;

    open spec fn view(&self) -> PostView {
        PostView { url: self.url@, body: text::optional(self.body) }
    }
}

/// A post that waits for a nonce.
#[derive(Debug)]
pub struct PendingPost {
    url: Uri,
    payload: String,
}

/// A post that waits for its signature.
#[derive(Debug)]
pub struct UnsignedPost {
    url: Uri,
    payload: String,
    protected: String,
}

/// What a post needs next.
#[derive(Debug)]
pub enum PostStep {
    /// A nonce.
    FetchNonce(PendingPost),
    /// A signature.
    Sign(UnsignedPost),
}

/// A post that waits for its signature: its URL, its payload, and what protects it.
#[verifier::ext_equal]
pub struct UnsignedView {
    pub url: Seq<char>,
    pub payload: Seq<char>,
    pub protected: Seq<char>,
}

/// What a post needs next.
pub enum PostStepView {
    FetchNonce { url: Seq<char>, payload: Seq<char> },
    Sign(UnsignedView),
}

/// Whether a text is made of characters of the URL-safe base64 alphabet.
pub open spec fn is_encoded(s: Seq<char>) -> bool {
    forall|i: int| 0 <= i < s.len() ==> encoding::is_base64url(#[trigger] s[i])
}

impl PendingPost {
    #[verifier::type_invariant]
    spec fn encoded(self) -> bool {
        is_encoded(self.payload@)
    }
}

impl UnsignedPost {
    #[verifier::type_invariant]
    spec fn encoded(self) -> bool {
        is_encoded(self.payload@) && is_encoded(self.protected@)
    }
}

impl View for PendingPost {
    type V = (Seq<char>, Seq<char>);

    closed spec fn view(&self) -> (Seq<char>, Seq<char>) {
        (self.url@, self.payload@)
    }
}

impl View for UnsignedPost {
    type V = UnsignedView;

    closed spec fn view(&self) -> UnsignedView {
        UnsignedView { url: self.url@, payload: self.payload@, protected: self.protected@ }
    }
}

impl View for PostStep {
    type V = PostStepView;

    open spec fn view(&self) -> PostStepView {
        match self {
            PostStep::FetchNonce(pending) => PostStepView::FetchNonce {
                url: pending@.0,
                payload: pending@.1,
            },
            PostStep::Sign(unsigned) => PostStepView::Sign(unsigned@),
        }
    }
}

/// The payload of a post: its JSON text in base64, or nothing.
pub open spec fn payload(body: Option<Seq<char>>) -> Seq<char> {
    match body {
        Some(body) => encoding::base64url(utf8::encode_utf8(body)),
        None => Seq::empty(),
    }
}

/// Who makes a post: the account is named by its URL, or by its key as long as its URL is not known.
pub open spec fn signer(jwk: JwkView, account_url: Option<Seq<char>>) -> (Seq<char>, Seq<char>) {
    match account_url {
        Some(account_url) => ("kid"@, json::json_string(account_url)),
        None => ("jwk"@, acme::jwk_json(jwk)),
    }
}

/// The JSON text that says who makes a post, and that it is made once and for one URL.
pub open spec fn protected_json(
    jwk: JwkView,
    account_url: Option<Seq<char>>,
    nonce: Seq<char>,
    url: Seq<char>,
) -> Seq<char> {
    json::json_object(
        seq![
            ("alg"@, json::json_string(acme::sign_alg(jwk.crv))),
            signer(jwk, account_url),
            ("nonce"@, json::json_string(nonce)),
            ("url"@, json::json_string(url)),
        ],
    )
}

/// What protects a post: the JSON text, in base64.
pub open spec fn protection(
    jwk: JwkView,
    account_url: Option<Seq<char>>,
    nonce: Seq<u8>,
    url: Seq<char>,
) -> Result<Seq<char>, Seq<Seq<char>>> {
    match http_common::header_text(nonce) {
        Ok(nonce) => Ok(
            encoding::base64url(utf8::encode_utf8(protected_json(jwk, account_url, nonce, url))),
        ),
        Err(err) => Err(error::in_context("could not serialize `protected`"@, err)),
    }
}

/// Writes what protects a post.
pub fn protect(
    jwk: &Jwk<'_>,
    account_url: &Option<String>,
    nonce: &HeaderValue,
    url: &str,
) -> (r: Result<String, Error>)
    ensures
        error::result_view(r) == protection(jwk@, text::optional(*account_url), nonce@, url@),
        r matches Ok(protected) ==> is_encoded(protected@),
{
    let nonce = match nonce.to_str() {
        Ok(nonce) => nonce,
        Err(err) => {
            return Err(err.context("could not serialize `protected`"));
        },
    };
    let jwk_or_kid = match account_url {
        Some(account_url) => ("kid", json::string(account_url.as_str())),
        None => ("jwk", jwk.to_json()),
    };
    let fields = vec![
        ("alg", json::string(jwk.crv.jws_sign_alg())),
        jwk_or_kid,
        ("nonce", json::string(nonce.as_str())),
        ("url", json::string(url)),
    ];
    assert(json::members(fields@) =~= seq![
        ("alg"@, json::json_string(acme::sign_alg(jwk.crv))),
        signer(jwk@, text::optional(*account_url)),
        ("nonce"@, json::json_string(nonce@)),
        ("url"@, json::json_string(url@)),
    ]);
    let protected = json::object(&fields);
    Ok(encoding::base64url_encode(protected.as_str().as_bytes()))
}

/// Writes the payload of a post.
pub fn write_payload(body: &Option<String>) -> (r: String)
    ensures
        r@ == payload(text::optional(*body)),
        is_encoded(r@),
{
    match body {
        Some(body) => encoding::base64url_encode(body.as_str().as_bytes()),
        None => String::new(),
    }
}

/// A post that has its nonce.
pub open spec fn protected_post(
    account: AccountView,
    nonce: Seq<u8>,
    url: Seq<char>,
    payload: Seq<char>,
) -> Result<UnsignedView, Seq<Seq<char>>> {
    match protection(account.jwk, account.account_url, nonce, url) {
        Ok(protected) => Ok(UnsignedView { url, payload, protected }),
        Err(err) => Err(err),
    }
}

/// What a post needs first.
pub open spec fn post_started(account: AccountView, post: PostView) -> Result<
    PostStepView,
    Seq<Seq<char>>,
> {
    match account.nonce {
        None => Ok(PostStepView::FetchNonce { url: post.url, payload: payload(post.body) }),
        Some(nonce) => match protected_post(account, nonce, post.url, payload(post.body)) {
            Ok(unsigned) => Ok(PostStepView::Sign(unsigned)),
            Err(err) => Err(err),
        },
    }
}

/// The nonce that a response to the request for one carries.
pub open spec fn new_nonce(response: Result<Option<Seq<u8>>, Seq<Seq<char>>>) -> Result<
    Seq<u8>,
    Seq<Seq<char>>,
> {
    match response {
        Ok(Some(nonce)) => Ok(nonce),
        Ok(None) => Err(error::message("newNonce URL did not return new nonce"@)),
        Err(err) => Err(
            seq!["newNonce URL did not return new nonce"@, "could not execute HTTP request"@] + err,
        ),
    }
}

/// Takes the nonce out of the response to the request for one. The nonce is a secret.
pub fn take_new_nonce(response: Result<ResponseWithNewNonce<NewNonceResponse>, Error>) -> (r: Result<
    Secret<HeaderValue>,
    Error,
>)
    ensures
        error::result_view(r) == new_nonce(
            match error::result_view(response) {
                Ok((_, new_nonce)) => Ok(new_nonce),
                Err(err) => Err(err),
            },
        ),
{
    match response {
        Ok(response) => match response.new_nonce {
            Some(nonce) => Ok(Secret(nonce)),
            None => Err(Error::new("newNonce URL did not return new nonce")),
        },
        Err(err) => {
            let ghost before = err@;
            let err = err.context("could not execute HTTP request").context(
                "newNonce URL did not return new nonce",
            );
            assert(err@ =~= seq![
                "newNonce URL did not return new nonce"@,
                "could not execute HTTP request"@,
            ] + before);
            Err(err)
        },
    }
}

/// What becomes of a post that was waiting for a nonce.
pub open spec fn nonce_fetched(
    account: AccountView,
    url: Seq<char>,
    payload: Seq<char>,
    nonce: Result<Seq<u8>, Seq<Seq<char>>>,
) -> Result<UnsignedView, Seq<Seq<char>>> {
    match nonce {
        Ok(nonce) => protected_post(account, nonce, url, payload),
        Err(err) => Err(err),
    }
}

/// What is signed of a post.
pub open spec fn signing_input(unsigned: UnsignedView) -> Seq<u8> {
    utf8::encode_utf8(unsigned.protected + "."@ + unsigned.payload)
}

/// The body of a signed post.
pub open spec fn signed_body(unsigned: UnsignedView, signature: Seq<char>) -> Seq<char> {
    "{\"payload\":\""@ + unsigned.payload + "\",\"protected\":\""@ + unsigned.protected
        + "\",\"signature\":\""@ + signature + "\"}"@
}

/// The request that sends a signed post.
pub open spec fn signed_request(unsigned: UnsignedView, signature: Seq<char>) -> RequestView {
    RequestView {
        method: Method::Post,
        uri: unsigned.url,
        headers: seq![("content-type"@, utf8::encode_utf8("application/jose+json"@))],
        streamed: true,
        body: utf8::encode_utf8(signed_body(unsigned, signature)),
    }
}

impl UnsignedPost {
    /// What has to be signed.
    pub fn message(&self) -> (r: Vec<u8>)
        ensures
            r@ == signing_input(self@),
    {
        write_signing_input(self.protected.as_str(), self.payload.as_str())
    }

    /// The request that sends the post, with its signature. What stands in the body as it is needs no
    /// escaping there.
    pub fn signed(self, signature: &str) -> (r: Request)
        ensures
            r@ == signed_request(self@, signature@),
            is_encoded(self@.payload),
            is_encoded(self@.protected),
    {
        proof {
            use_type_invariant(&self);
        }
        write_signed_request(
            self.url,
            self.payload.as_str(),
            self.protected.as_str(),
            signature,
        )
    }
}

/// Writes what is signed of a post.
pub fn write_signing_input(protected: &str, payload: &str) -> (r: Vec<u8>)
    ensures
        r@ == utf8::encode_utf8(protected@ + "."@ + payload@),
{
    let mut message = protected.to_owned();
    message.append(".");
    message.append(payload);
    text::bytes_of(message.as_str())
}

/// Makes the request that sends a signed post.
pub fn write_signed_request(url: Uri, payload: &str, protected: &str, signature: &str) -> (r:
    Request)
    ensures
        r@ == signed_request(
            UnsignedView { url: url@, payload: payload@, protected: protected@ },
            signature@,
        ),
{
    let ghost unsigned = UnsignedView { url: url@, payload: payload@, protected: protected@ };
    let parts = vec![
        text::bytes_of("{\"payload\":\""),
        text::bytes_of(payload),
        text::bytes_of("\",\"protected\":\""),
        text::bytes_of(protected),
        text::bytes_of("\",\"signature\":\""),
        text::bytes_of(signature),
        text::bytes_of("\"}"),
    ];
    proof {
        lemma_signed_body(parts@, unsigned, signature@);
        reveal_strlit("application/jose+json");
    }
    let mut request = Request::new(Method::Post, url, RequestBody::from_iter(parts));
    request.push_header("content-type", HeaderValue::from_static("application/jose+json"));
    assert(request@.headers =~= signed_request(unsigned, signature@).headers);
    request
}

/// The parts of the body of a signed post are the body.
proof fn lemma_signed_body(parts: Seq<Vec<u8>>, unsigned: UnsignedView, signature: Seq<char>)
    requires
        parts.len() == 7,
        parts[0]@ == utf8::encode_utf8("{\"payload\":\""@),
        parts[1]@ == utf8::encode_utf8(unsigned.payload),
        parts[2]@ == utf8::encode_utf8("\",\"protected\":\""@),
        parts[3]@ == utf8::encode_utf8(unsigned.protected),
        parts[4]@ == utf8::encode_utf8("\",\"signature\":\""@),
        parts[5]@ == utf8::encode_utf8(signature),
        parts[6]@ == utf8::encode_utf8("\"}"@),
    ensures
        http_common::concatenated(parts) == utf8::encode_utf8(signed_body(unsigned, signature)),
{
    reveal_with_fuel(http_common::concatenated, 8);
    let s0 = "{\"payload\":\""@;
    let s1 = s0 + unsigned.payload;
    let s2 = s1 + "\",\"protected\":\""@;
    let s3 = s2 + unsigned.protected;
    let s4 = s3 + "\",\"signature\":\""@;
    let s5 = s4 + signature;
    text::lemma_encode_concat(s0, unsigned.payload);
    text::lemma_encode_concat(s1, "\",\"protected\":\""@);
    text::lemma_encode_concat(s2, unsigned.protected);
    text::lemma_encode_concat(s3, "\",\"signature\":\""@);
    text::lemma_encode_concat(s4, signature);
    text::lemma_encode_concat(s5, "\"}"@);
    let p6 = parts.drop_last();
    let p5 = p6.drop_last();
    let p4 = p5.drop_last();
    let p3 = p4.drop_last();
    let p2 = p3.drop_last();
    let p1 = p2.drop_last();
    let p0 = p1.drop_last();
    assert(http_common::concatenated(p0) =~= Seq::<u8>::empty());
    assert(http_common::concatenated(p1) =~= utf8::encode_utf8(s0));
    assert(http_common::concatenated(p2) == utf8::encode_utf8(s1));
    assert(http_common::concatenated(p3) == utf8::encode_utf8(s2));
    assert(http_common::concatenated(p4) == utf8::encode_utf8(s3));
    assert(http_common::concatenated(p5) == utf8::encode_utf8(s4));
    assert(http_common::concatenated(p6) == utf8::encode_utf8(s5));
}

/// What the response to the opening of an account comes to: the state of the account that is
/// reported, where there is one, and the URL of the account.
pub open spec fn account_opened(
    response: Result<(AccountStatus, Seq<char>), Seq<Seq<char>>>,
) -> (Seq<Report<Seq<char>>>, Result<Seq<char>, Seq<Seq<char>>>) {
    match response {
        Ok((status, account_url)) => (
            seq![
                Report::ObjectState {
                    object_type: "acme/account"@,
                    object_id: account_url,
                    state: status_shown(status),
                },
            ],
            if status == AccountStatus::Valid {
                Ok(account_url)
            } else {
                Err(error::message("Account has "@ + status_shown(status) + " status"@))
            },
        ),
        Err(err) => (seq![], Err(error::in_context("could not create / get account"@, err))),
    }
}

/// An account after a response to a post, with the nonce of the response.
pub open spec fn nonce_kept(account: AccountView, nonce: Option<Seq<u8>>) -> AccountView {
    AccountView { nonce, ..account }
}

impl<'a, K: AccountKey> Account<'a, K> {
    /// Takes the response to the opening of the account. The result is what has to be reported, and
    /// whether the account is open.
    pub fn account_received(
        &mut self,
        response: Result<ResponseWithLocation<NewAccountResponse>, Error>,
    ) -> (r: (Vec<Report<String>>, Result<(), Error>))
        ensures
            final(self).key() == old(self).key(),
            ({
                let (reports, outcome) = account_opened(error::result_view(response));
                &&& log2::reports_view(r.0@) == reports
                &&& match outcome {
                    Ok(account_url) => r.1 is Ok && final(self)@ == (AccountView {
                        account_url: Some(account_url),
                        ..old(self)@
                    }),
                    Err(err) => r.1 matches Err(e) && e@ == err && final(self)@ == old(self)@,
                }
            }),
    {
        match response {
            Ok(ResponseWithLocation { body, location }) => {
                let status = body.status;
                let reports = vec![
                    log2::state_report(
                        "acme/account",
                        location.as_str(),
                        status.debug_text().to_owned(),
                    ),
                ];
                assert(log2::reports_view(reports@) =~= seq![
                    Report::ObjectState {
                        object_type: "acme/account"@,
                        object_id: location@,
                        state: status_shown(status),
                    },
                ]);
                match status {
                    AccountStatus::Valid => {
                        self.account_url = Some(location.as_str().to_owned());
                        (reports, Ok(()))
                    },
                    _ => {
                        let mut err = "Account has ".to_owned();
                        err.append(status.debug_text());
                        err.append(" status");
                        (reports, Err(Error::new(err.as_str())))
                    },
                }
            },
            Err(err) => {
                let reports: Vec<Report<String>> = Vec::new();
                assert(log2::reports_view(reports@) =~= seq![]);
                (reports, Err(err.context("could not create / get account")))
            },
        }
    }

    /// Asks for the signature of a post with the key of the account.
    pub fn signing(&self, unsigned: &UnsignedPost) -> (r: K::Signing)
        ensures
            self@.jwk == self.key().jwk(),
            self.key().is_signing(signing_input(unsigned@), r),
    {
        let message = unsigned.message();
        self.account_key.sign(message.as_slice())
    }

    /// Puts the protection on a post.
    fn protect(&self, nonce: &HeaderValue, url: Uri, payload: String) -> (r: Result<
        UnsignedPost,
        Error,
    >)
        requires
            is_encoded(payload@),
        ensures
            error::result_view(r) == protected_post(self@, nonce@, url@, payload@),
    {
        match protect(&self.account_key.as_jwk(), &self.account_url, nonce, url.as_str()) {
            Ok(protected) => Ok(UnsignedPost { url, payload, protected }),
            Err(err) => Err(err),
        }
    }

    /// Starts a post. The account gives its nonce away.
    pub fn post(&mut self, post: Post) -> (r: Result<PostStep, Error>)
        ensures
            final(self).key() == old(self).key(),
            error::result_view(r) == post_started(old(self)@, post@),
            final(self)@ == (AccountView { nonce: None, ..old(self)@ }),
    {
        let payload = write_payload(&post.body);
        match self.nonce.take() {
            None => Ok(PostStep::FetchNonce(PendingPost { url: post.url, payload })),
            Some(nonce) => match self.protect(&nonce, post.url, payload) {
                Ok(unsigned) => Ok(PostStep::Sign(unsigned)),
                Err(err) => Err(err),
            },
        }
    }

    /// Asks for a nonce. The response goes to [`take_new_nonce`], within the operation.
    pub fn nonce_request(&self) -> (r: (Scope, Request))
        ensures
            r.0@ == (ScopeView {
                object_type: "acme/nonce"@,
                object_id: ""@,
                operation: ScopedObjectOperation::Get,
            }),
            r.1@ == http_common::bare_request(Method::Head, self@.new_nonce_url),
    {
        let request = Request::new(
            Method::Head,
            self.new_nonce_url.clone(),
            RequestBody::default(),
        );
        (Scope::get("acme/nonce", "".to_owned()), request)
    }

    /// Goes on with a post that was waiting for a nonce.
    pub fn nonce_received(&self, pending: PendingPost, nonce: Result<Secret<HeaderValue>, Error>) -> (r:
        Result<UnsignedPost, Error>)
        ensures
            error::result_view(r) == nonce_fetched(
                self@,
                pending@.0,
                pending@.1,
                error::result_view(nonce),
            ),
    {
        proof {
            use_type_invariant(&pending);
        }
        match nonce {
            Ok(Secret(nonce)) => self.protect(&nonce, pending.url, pending.payload),
            Err(err) => Err(err),
        }
    }

    /// Takes the response to a post. The account keeps the nonce of the response, where it has one,
    /// for the next request.
    pub fn response_received<T: View>(
        &mut self,
        response: Result<ResponseWithNewNonce<T>, Error>,
    ) -> (r: Result<T, Error>)
        ensures
            final(self).key() == old(self).key(),
            match response {
                Ok(response) => r == Ok::<T, Error>(response.body) && final(self)@ == (AccountView {
                    nonce: http_common::header_view(response.new_nonce),
                    ..old(self)@
                }) && final(self)@ == nonce_kept(
                    old(self)@,
                    http_common::header_view(response.new_nonce),
                ),
                Err(err) => r matches Err(e) && e@ == error::in_context(
                    "could not execute HTTP request"@,
                    err@,
                ) && final(self)@ == old(self)@,
            },
    {
        match response {
            Ok(response) => {
                self.nonce = response.new_nonce;
                Ok(response.body)
            },
            Err(err) => Err(err.context("could not execute HTTP request")),
        }
    }

    /// The URL that takes new orders.
    pub fn new_order_url(&self) -> (r: Uri)
        ensures
            r@ == self@.new_order_url,
    {
        self.new_order_url.clone()
    }

    /// What the TXT record has to hold that answers a DNS challenge to the account.
    pub fn answer(&self, token: &str) -> (r: String)
        ensures
            r@ == acme::challenge_answer(token@, self@.jwk),
            encoding::encodes_hash(r@),
    {
        acme::dns_txt_record_content(token, &self.account_key.as_jwk())
    }
}

/// A text in base64 stands in a JSON string as it is.
pub proof fn encoded_text_needs_no_escaping(s: Seq<char>)
    requires
        is_encoded(s),
    ensures
        forall|i: int| 0 <= i < s.len() ==> json::is_plain(#[trigger] s[i]),
{
    assert forall|i: int| 0 <= i < s.len() implies json::is_plain(#[trigger] s[i]) by {
        assert(encoding::is_base64url(s[i]));
    }
}

/// No nonce serves for two posts: once a post has started, another one has to fetch a nonce, unless a
/// response has brought one in between.
pub proof fn a_nonce_serves_once(account: AccountView, post: PostView)
    ensures
        post_started(AccountView { nonce: None, ..account }, post) == Ok::<
            PostStepView,
            Seq<Seq<char>>,
        >(PostStepView::FetchNonce { url: post.url, payload: payload(post.body) }),
{
}

/// What is signed of a post is what is sent of it: the same payload, and the same protection.
pub proof fn what_is_sent_was_signed(unsigned: UnsignedView, signature: Seq<char>)
    ensures
        signing_input(unsigned) == utf8::encode_utf8(unsigned.protected) + utf8::encode_utf8("."@)
            + utf8::encode_utf8(unsigned.payload),
        signed_request(unsigned, signature).body == utf8::encode_utf8("{\"payload\":\""@)
            + utf8::encode_utf8(unsigned.payload) + utf8::encode_utf8("\",\"protected\":\""@)
            + utf8::encode_utf8(unsigned.protected) + utf8::encode_utf8("\",\"signature\":\""@)
            + utf8::encode_utf8(signature) + utf8::encode_utf8("\"}"@),
{
    text::lemma_encode_concat(unsigned.protected, "."@);
    text::lemma_encode_concat(unsigned.protected + "."@, unsigned.payload);
    let s0 = "{\"payload\":\""@;
    let s1 = s0 + unsigned.payload;
    let s2 = s1 + "\",\"protected\":\""@;
    let s3 = s2 + unsigned.protected;
    let s4 = s3 + "\",\"signature\":\""@;
    let s5 = s4 + signature;
    text::lemma_encode_concat(s0, unsigned.payload);
    text::lemma_encode_concat(s1, "\",\"protected\":\""@);
    text::lemma_encode_concat(s2, unsigned.protected);
    text::lemma_encode_concat(s3, "\",\"signature\":\""@);
    text::lemma_encode_concat(s4, signature);
    text::lemma_encode_concat(s5, "\"}"@);
}

/// The protection of a post names the algorithm of the key's curve, names the account by its URL or, as
/// long as that is not known, by its key, and binds the post to its nonce and to its URL. A nonce that
/// cannot be shown protects nothing.
pub proof fn a_post_is_bound_to_its_key_its_nonce_and_its_url(
    jwk: JwkView,
    account_url: Option<Seq<char>>,
    nonce: Seq<u8>,
    url: Seq<char>,
)
    ensures
        match http_common::header_text(nonce) {
            Ok(text) => ({
                let alg = match jwk.crv {
                    acme::EcCurve::P256 => "ES256"@,
                    acme::EcCurve::P384 => "ES384"@,
                    acme::EcCurve::P521 => "ES512"@,
                };
                let signer = match account_url {
                    Some(account_url) => json::json_string("kid"@) + seq![':'] + json::json_string(
                        account_url,
                    ),
                    None => json::json_string("jwk"@) + seq![':'] + acme::jwk_json(jwk),
                };
                protection(jwk, account_url, nonce, url) == Ok::<Seq<char>, Seq<Seq<char>>>(
                    encoding::base64url(
                        utf8::encode_utf8(
                            seq!['{'] + json::json_string("alg"@) + seq![':'] + json::json_string(alg)
                                + seq![','] + signer + seq![','] + json::json_string("nonce"@) + seq![':']
                                + json::json_string(text) + seq![','] + json::json_string("url"@) + seq![
                                ':',
                            ] + json::json_string(url) + seq!['}'],
                        ),
                    ),
                )
            }),
            Err(err) => protection(jwk, account_url, nonce, url) == Err::<Seq<char>, Seq<Seq<char>>>(
                seq!["could not serialize `protected`"@] + err,
            ),
        },
{
    if let Ok(text) = http_common::header_text(nonce) {
        let (name, value) = signer(jwk, account_url);
        let alg = json::json_string(acme::sign_alg(jwk.crv));
        json::lemma_object_of_four(
            "alg"@,
            alg,
            name,
            value,
            "nonce"@,
            json::json_string(text),
            "url"@,
            json::json_string(url),
        );
        assert(protected_json(jwk, account_url, text, url) =~= seq!['{'] + json::json_string("alg"@) + seq![
            ':',
        ] + alg + seq![','] + (name_and_value(name, value)) + seq![','] + json::json_string("nonce"@) + seq![
            ':',
        ] + json::json_string(text) + seq![','] + json::json_string("url"@) + seq![':'] + json::json_string(
            url,
        ) + seq!['}']);
    }
}

/// A member of an object.
spec fn name_and_value(name: Seq<char>, value: Seq<char>) -> Seq<char> {
    json::json_string(name) + seq![':'] + value
}

/// What a post says goes out as it is, in base64, or as nothing at all where it says nothing, and to the
/// URL that its protection names. The nonce of the account is used before another one is fetched.
pub proof fn a_post_carries_its_body_to_its_url(account: AccountView, post: PostView, nonce: Seq<u8>)
    ensures
        ({
            let payload = match post.body {
                Some(body) => encoding::base64url(utf8::encode_utf8(body)),
                None => seq![],
            };
            let fetched = nonce_fetched(account, post.url, payload, Ok(nonce));
            &&& account.nonce is None ==> post_started(account, post) == Ok::<
                PostStepView,
                Seq<Seq<char>>,
            >(PostStepView::FetchNonce { url: post.url, payload })
            &&& match protection(account.jwk, account.account_url, nonce, post.url) {
                Ok(protected) => fetched matches Ok(unsigned) && unsigned.url == post.url
                    && unsigned.payload == payload && unsigned.protected == protected && (account.nonce
                    == Some(nonce) ==> post_started(account, post) == Ok::<PostStepView, Seq<Seq<char>>>(
                    PostStepView::Sign(unsigned),
                )),
                Err(err) => fetched == Err::<UnsignedView, Seq<Seq<char>>>(err) && (account.nonce == Some(
                    nonce,
                ) ==> post_started(account, post) == Err::<PostStepView, Seq<Seq<char>>>(err)),
            }
        }),
{
}

/// A post that could not get its nonce fails with the reason, and a response without a nonce is one.
pub proof fn a_post_needs_a_nonce(
    account: AccountView,
    url: Seq<char>,
    payload: Seq<char>,
    nonce: Seq<u8>,
    err: Seq<Seq<char>>,
)
    ensures
        nonce_fetched(account, url, payload, Err(err)) == Err::<UnsignedView, Seq<Seq<char>>>(err),
        new_nonce(Ok(Some(nonce))) == Ok::<Seq<u8>, Seq<Seq<char>>>(nonce),
        new_nonce(Ok(None)) == Err::<Seq<u8>, Seq<Seq<char>>>(
            seq!["newNonce URL did not return new nonce"@],
        ),
        new_nonce(Err(err)) == Err::<Seq<u8>, Seq<Seq<char>>>(
            seq!["newNonce URL did not return new nonce"@, "could not execute HTTP request"@] + err,
        ),
{
}

/// A signed post goes to its URL, by POST and as `application/jose+json`, once and in one go.
pub proof fn a_signed_post_goes_to_its_url(unsigned: UnsignedView, signature: Seq<char>)
    ensures
        ({
            let request = signed_request(unsigned, signature);
            &&& request.method == Method::Post
            &&& request.uri == unsigned.url
            &&& request.streamed
            &&& request.headers == seq![
                ("content-type"@, utf8::encode_utf8("application/jose+json"@)),
            ]
        }),
{
}

/// An account is open if and only if the server calls it valid, and then its URL is where the server has
/// put it. Whatever its status is, it is reported.
pub proof fn only_a_valid_account_is_open(
    response: Result<(AccountStatus, Seq<char>), Seq<Seq<char>>>,
)
    ensures
        account_opened(response).1 is Ok <==> response is Ok && response->Ok_0.0 is Valid,
        account_opened(response).1 matches Ok(url) ==> url == response->Ok_0.1,
        match response {
            Ok((status, url)) => ({
                let word = match status {
                    AccountStatus::Deactivated => "Deactivated"@,
                    AccountStatus::Revoked => "Revoked"@,
                    AccountStatus::Valid => "Valid"@,
                };
                &&& account_opened(response).0 == seq![
                    Report::<Seq<char>>::ObjectState {
                        object_type: "acme/account"@,
                        object_id: url,
                        state: word,
                    },
                ]
                &&& account_opened(response).1 matches Err(err) ==> err == seq![
                    "Account has "@ + word + " status"@,
                ]
            }),
            Err(err) => account_opened(response).0.len() == 0 && account_opened(response).1 == Err::<
                Seq<char>,
                Seq<Seq<char>>,
            >(seq!["could not create / get account"@] + err),
        },
{
}

/// One slash stands between the base of the renewal information and the identifier of a certificate,
/// whether the base ends with it or not.
pub proof fn one_slash_stands_before_the_identifier(base: Seq<char>, ari_id: Seq<char>)
    ensures
        renewal_info_url(base + seq!['/'], ari_id) == base + seq!['/'] + ari_id,
        base.len() == 0 || base.last() != '/' ==> renewal_info_url(base, ari_id) == base + seq!['/']
            + ari_id,
{
    reveal_strlit("/");
    assert("/"@ =~= seq!['/']);
    assert((base + seq!['/']).last() == '/');
}

/// An account is opened with its one contact, and with the terms of service agreed to.
pub proof fn an_account_is_opened_with_its_contact(contact: Seq<char>)
    ensures
        new_account_json(contact) == seq!['{'] + json::json_string("contact"@) + seq![':'] + (seq!['[']
            + json::json_string(contact) + seq![']']) + seq![','] + json::json_string(
            "termsOfServiceAgreed"@,
        ) + seq![':'] + seq!['t', 'r', 'u', 'e'] + seq!['}'],
{
    let items = json::json_strings(seq![contact]);
    assert(items =~= seq![json::json_string(contact)]);
    json::an_array_grows_by_its_items(seq![], json::json_string(contact));
    json::a_truth_value_is_a_word(true);
    json::lemma_object_of_two(
        "contact"@,
        json::json_array(items),
        "termsOfServiceAgreed"@,
        json::json_bool(true),
    );
}

/// A directory, a suggestion for a renewal or a nonce is taken from a response with the status 200 alone,
/// and an account from one with the status 200 or 201. What a response carries comes out as it is, and its
/// nonce beside it.
pub proof fn answers_are_taken_from_successes(
    status: u16,
    directory: Option<ResponseBody<Result<DirectoryResponse, String>>>,
    info: Option<ResponseBody<Result<RenewalInfo, String>>>,
    account: Option<ResponseBody<Result<NewAccountResponse, String>>>,
    headers: ResponseHeaders,
    now: int,
)
    ensures
        status != 200 ==> DirectoryResponse::interpreted(status, directory, headers, now) == Ok::<
            Option<DirectoryView>,
            Seq<Seq<char>>,
        >(None),
        status != 200 ==> RenewalInfo::interpreted(status, info, headers, now) == Ok::<
            Option<(i128, i32)>,
            Seq<Seq<char>>,
        >(None),
        status != 200 && status != 201 ==> NewAccountResponse::interpreted(status, account, headers, now)
            == Ok::<Option<AccountStatus>, Seq<Seq<char>>>(None),
        status == 200 ==> DirectoryResponse::interpreted(status, directory, headers, now)
            == http_common::viewed(http_common::json_if(true, directory)),
        status == 200 ==> RenewalInfo::interpreted(status, info, headers, now) == http_common::viewed(
            http_common::json_if(true, info),
        ),
        status == 200 || status == 201 ==> NewAccountResponse::interpreted(status, account, headers, now)
            == http_common::viewed(http_common::json_if(true, account)),
        ResponseWithNewNonce::<NewNonceResponse>::interpreted(status, None, headers, now) == if status
            == 200 {
            Ok::<Option<((), Option<Seq<u8>>)>, Seq<Seq<char>>>(
                Some(((), http_common::header_view(headers.replay_nonce))),
            )
        } else {
            Ok(None)
        },
{
}

/// A directory, a suggestion for a renewal and an account are shown with all that they say.
pub proof fn what_the_server_says_is_shown(
    directory: DirectoryView,
    start: i128,
    offset: i32,
    status: AccountStatus,
    account_url: Seq<char>,
)
    ensures
        <DirectoryResponse as Shown>::shown(directory) == "DirectoryResponse { new_account_url: "@
            + directory.new_account_url + ", new_nonce_url: "@ + directory.new_nonce_url
            + ", new_order_url: "@ + directory.new_order_url + ", renewal_info_url: "@
            + match directory.renewal_info_url {
            Some(url) => "Some("@ + url + ")"@,
            None => "None"@,
        } + " }"@,
        <SuggestedRenewal as Shown>::shown(Some((start, offset))) == "Some("@ + (
        "Response { suggested_window: SuggestedWindow { start: "@ + time2::time_shown(start, offset)
            + " } }"@) + ")"@,
        <SuggestedRenewal as Shown>::shown(None) == "None"@,
        <ResponseWithLocation<NewAccountResponse> as Shown>::shown((status, account_url)) == "("@
            + text::quoted(account_url) + ", "@ + match status {
            AccountStatus::Deactivated => "Deactivated"@,
            AccountStatus::Revoked => "Revoked"@,
            AccountStatus::Valid => "Valid"@,
        } + ")"@,
{
}

/// What an account is made of is what it was opened with.
pub proof fn an_account_is_what_it_is_made_of(directory: DirectoryResponse, post: Post)
    ensures
        directory@.new_account_url == directory.new_account_url@,
        directory@.new_nonce_url == directory.new_nonce_url@,
        directory@.new_order_url == directory.new_order_url@,
        match directory.renewal_info_url {
            Some(url) => directory@.renewal_info_url == Some(url@),
            None => directory@.renewal_info_url is None,
        },
        post@.url == post.url@,
        match post.body {
            Some(body) => post@.body == Some(body@),
            None => post@.body is None,
        },
{
}

/// The nonce of a response is the one that the next post carries, and a response without one makes the next
/// post fetch one. Nothing else of the account changes.
pub proof fn the_nonce_of_a_response_goes_into_the_next_post(
    account: AccountView,
    nonce: Seq<u8>,
    post: PostView,
)
    ensures
        ({
            let with = nonce_kept(account, Some(nonce));
            let without = nonce_kept(account, None);
            &&& match protection(account.jwk, account.account_url, nonce, post.url) {
                Ok(protected) => post_started(with, post) matches Ok(PostStepView::Sign(unsigned))
                    && unsigned.protected == protected && unsigned.url == post.url,
                Err(err) => post_started(with, post) == Err::<PostStepView, Seq<Seq<char>>>(err),
            }
            &&& post_started(without, post) matches Ok(PostStepView::FetchNonce { url, .. }) && url
                == post.url
            &&& with.jwk == account.jwk && with.account_url == account.account_url
            &&& with.new_nonce_url == account.new_nonce_url && with.new_order_url
                == account.new_order_url
        }),
{
}

/// The body of a response counts where its status and its media type are the expected ones.
pub proof fn bodies_count_where_they_are_expected(status: u16, content_type: Seq<u8>, headers: ResponseHeaders)
    ensures
        <DirectoryResponse as FromResponse>::reads(status, content_type, headers)
            <==> status == 200 && http_common::is_json(content_type),
        <RenewalInfo as FromResponse>::reads(status, content_type, headers)
            <==> status == 200 && http_common::is_json(content_type),
        <NewAccountResponse as FromResponse>::reads(status, content_type, headers)
            <==> (status == 200 || status == 201) && http_common::is_json(content_type),
        <ResponseWithNewNonce<NewAccountResponse> as FromResponse>::reads(status, content_type, headers)
            <==> (status == 200 || status == 201) && http_common::is_json(content_type),
        <NewNonceResponse as FromResponse>::reads(status, content_type, headers) <==> false,
{
}

/// A response that may carry a nonce is worth what it is worth without, together with its nonce where it has
/// one.
pub proof fn a_nonce_comes_beside<T: FromResponse>(
    status: u16,
    body: Option<ResponseBody<T::Content>>,
    headers: ResponseHeaders,
    now: int,
)
    ensures
        ({
            let read = ResponseWithNewNonce::<T>::interpreted(status, body, headers, now);
            match T::interpreted(status, body, headers, now) {
                Ok(Some(value)) => read matches Ok(Some((v, nonce))) && v == value
                    && match headers.replay_nonce {
                    Some(header) => nonce == Some(header@),
                    None => nonce is None,
                },
                Ok(None) => read == Ok::<Option<(T::V, Option<Seq<u8>>)>, Seq<Seq<char>>>(None),
                Err(err) => read == Err::<Option<(T::V, Option<Seq<u8>>)>, Seq<Seq<char>>>(err),
            }
        }),
{
}

} // verus!
