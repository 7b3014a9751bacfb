//! An ACME account that always has a nonce, for orders with a single authorization.
//!
//! The states that the server calls invalid are known here, and are told apart from responses that
//! make no sense.

use vstd::prelude::*;
use vstd::utf8;

use crate::acme;
use crate::acme::account;
use crate::acme::account::{ResponseWithNewNonce, UnsignedView};
use crate::acme::completion;
use crate::acme::order;
use crate::acme::progress;
use crate::acme::{AccountKey, JwkView};
use crate::encoding;
use crate::error;
use crate::error::Error;
use crate::http_common;
use crate::http_common::{
    FromResponse, HeaderValue, Method, Request, RequestBody, RequestView, ResponseBody,
    ResponseHeaders, ResponseWithLocation, StatusCode, Uri,
};
use crate::json;
use crate::text;
use crate::time2::Duration;

verus! {

/// The directory of an ACME server.
#[derive(Debug)]
pub struct DirectoryResponse {
    pub new_account_url: String,
    pub new_nonce_url: String,
    pub new_order_url: String,
}

/// The URLs of an ACME server.
#[verifier::ext_equal]
pub struct DirectoryView {
    pub new_account_url: Seq<char>,
    pub new_nonce_url: Seq<char>,
    pub new_order_url: Seq<char>,
}

impl View for DirectoryResponse {
    type V = DirectoryView;

    open spec fn view(&self) -> DirectoryView {
        DirectoryView {
            new_account_url: self.new_account_url@,
            new_nonce_url: self.new_nonce_url@,
            new_order_url: self.new_order_url@,
        }
    }
}

impl FromResponse for DirectoryResponse {
    type Content = Result<DirectoryResponse, String>;

    open spec fn interpreted(
        status: u16,
        body: Option<ResponseBody<Result<DirectoryResponse, String>>>,
        headers: ResponseHeaders,
        now: int,
    ) -> Result<Option<DirectoryView>, Seq<Seq<char>>> {
        http_common::viewed(http_common::guarded_json_if(status == 200, body))
    }

    fn from_response(
        status: StatusCode,
        body: Option<ResponseBody<Result<DirectoryResponse, String>>>,
        headers: &ResponseHeaders,
        now: i128,
    ) -> (r: Result<Option<DirectoryResponse>, Error>) {
        http_common::expect_guarded_json(status.as_u16() == 200, body)
    }

    open spec fn reads(status: u16, content_type: Seq<u8>, headers: ResponseHeaders) -> bool {
        status == 200 && http_common::is_json(content_type)
    }

    fn reads_body(
        status: StatusCode,
        content_type: &HeaderValue,
        headers: &ResponseHeaders,
    ) -> (r: bool) {
        status.as_u16() == 200 && http_common::has_json_type(content_type)
    }

    proof fn unread_does_not_matter(
        status: u16,
        content_type: HeaderValue,
        in_one_piece: bool,
        one: Result<DirectoryResponse, String>,
        other: Result<DirectoryResponse, String>,
        headers: ResponseHeaders,
        now: int,
    ) {
    }
}

/// A response that is good for nothing but its nonce.
#[derive(Debug)]
pub struct NewNonceResponse;

impl View for NewNonceResponse {
    type V = ();

    open spec fn view(&self) -> () {
        ()
    }
}

impl FromResponse for NewNonceResponse {
    type Content = ();

    open spec fn interpreted(
        status: u16,
        body: Option<ResponseBody<()>>,
        headers: ResponseHeaders,
        now: int,
    ) -> Result<Option<()>, Seq<Seq<char>>> {
        Ok(
            if status == 204 {
                Some(())
            } else {
                None
            },
        )
    }

    fn from_response(
        status: StatusCode,
        body: Option<ResponseBody<()>>,
        headers: &ResponseHeaders,
        now: i128,
    ) -> (r: Result<Option<NewNonceResponse>, Error>) {
        if status.as_u16() == 204 {
            Ok(Some(NewNonceResponse))
        } else {
            Ok(None)
        }
    }

    open spec fn reads(status: u16, content_type: Seq<u8>, headers: ResponseHeaders) -> bool {
        false
    }

    fn reads_body(
        status: StatusCode,
        content_type: &HeaderValue,
        headers: &ResponseHeaders,
    ) -> (r: bool) {
        false
    }

    proof fn unread_does_not_matter(
        status: u16,
        content_type: HeaderValue,
        in_one_piece: bool,
        one: (),
        other: (),
        headers: ResponseHeaders,
        now: int,
    ) {
    }
}

/// An account, as the server describes it.
#[derive(Debug)]
pub struct NewAccountResponse {
    pub status: String,
}

impl View for NewAccountResponse {
    type V = Seq<char>;

    open spec fn view(&self) -> Seq<char> {
        self.status@
    }
}

impl FromResponse for NewAccountResponse {
    type Content = Result<NewAccountResponse, String>;

    open spec fn interpreted(
        status: u16,
        body: Option<ResponseBody<Result<NewAccountResponse, String>>>,
        headers: ResponseHeaders,
        now: int,
    ) -> Result<Option<Seq<char>>, Seq<Seq<char>>> {
        http_common::viewed(http_common::guarded_json_if(status == 200 || status == 201, body))
    }

    fn from_response(
        status: StatusCode,
        body: Option<ResponseBody<Result<NewAccountResponse, String>>>,
        headers: &ResponseHeaders,
        now: i128,
    ) -> (r: Result<Option<NewAccountResponse>, Error>) {
        let code: u16 = status.as_u16();
        http_common::expect_guarded_json(code == 200 || code == 201, body)
    }

    open spec fn reads(status: u16, content_type: Seq<u8>, headers: ResponseHeaders) -> bool {
        (status == 200 || status == 201) && http_common::is_json(content_type)
    }

    fn reads_body(
        status: StatusCode,
        content_type: &HeaderValue,
        headers: &ResponseHeaders,
    ) -> (r: bool) {
        let code: u16 = status.as_u16();
        (code == 200 || code == 201) && http_common::has_json_type(content_type)
    }

    proof fn unread_does_not_matter(
        status: u16,
        content_type: HeaderValue,
        in_one_piece: bool,
        one: Result<NewAccountResponse, String>,
        other: Result<NewAccountResponse, String>,
        headers: ResponseHeaders,
        now: int,
    ) {
    }
}

/// A response to a request that only asks.
pub open spec fn get_request(url: Seq<char>) -> Result<RequestView, Seq<Seq<char>>> {
    match http_common::uri_text(utf8::encode_utf8(url)) {
        Ok(uri) => Ok(http_common::bare_request(Method::Get, uri)),
        Err(err) => Err(
            error::in_context("could not parse request URI"@, error::message(err)),
        ),
    }
}

/// A request that only asks.
pub fn get(url: &str) -> (r: Result<Request, Error>)
    ensures
        error::result_view(r) == get_request(url@),
{
    match Uri::from_text(url) {
        Ok(uri) => Ok(Request::new(Method::Get, uri, RequestBody::default())),
        Err(err) => Err(err.context("could not parse request URI")),
    }
}

/// Takes the response to a request that only asks. Its nonce, where it has one, takes the place of the
/// one that there was.
pub fn get_received<T: View>(
    nonce: &mut Option<HeaderValue>,
    response: Result<ResponseWithNewNonce<T>, Error>,
) -> (r: Result<T, Error>)
    ensures
        match response {
            Ok(response) => r == Ok::<T, Error>(response.body) && http_common::header_view(
                *final(nonce),
            ) == (match http_common::header_view(response.new_nonce) {
                Some(new_nonce) => Some(new_nonce),
                None => http_common::header_view(*old(nonce)),
            }),
            Err(err) => r matches Err(e) && e@ == error::in_context(
                "could not execute HTTP request"@,
                err@,
            ) && *final(nonce) == *old(nonce),
        },
{
    match response {
        Ok(response) => {
            if let Some(new_nonce) = response.new_nonce {
                *nonce = Some(new_nonce);
            }
            Ok(response.body)
        },
        Err(err) => Err(err.context("could not execute HTTP request")),
    }
}

/// Something that an account posts: to a URL, a JSON text or nothing.
#[derive(Debug)]
pub struct Post {
    pub url: String,
    pub body: Option<String>,
}

/// What is posted where.
#[verifier::ext_equal]
pub struct PostView {
    pub url: Seq<char>,
    pub body: Option<Seq<char>>,
}

impl View for Post {
    type V = PostView;

    open spec fn view(&self) -> PostView {
        PostView { url: self.url@, body: text::optional(self.body) }
    }
}

/// A post of nothing, which only asks.
pub open spec fn question(url: Seq<char>) -> PostView {
    PostView { url, body: None }
}

/// Asks without posting anything.
fn ask(url: &str) -> (r: Post)
    ensures
        r@ == question(url@),
{
    Post { url: url.to_owned(), body: None }
}

/// A post that waits for its signature.
#[derive(Debug)]
pub struct UnsignedPost {
    url: String,
    payload: String,
    protected: String,
}

impl View for UnsignedPost {
    type V = UnsignedView;

    closed spec fn view(&self) -> UnsignedView {
        UnsignedView { url: self.url@, payload: self.payload@, protected: self.protected@ }
    }
}

/// A post with its protection.
pub open spec fn protected_post(
    jwk: JwkView,
    account_url: Option<Seq<char>>,
    nonce: Seq<u8>,
    post: PostView,
) -> Result<UnsignedView, Seq<Seq<char>>> {
    match account::protection(jwk, account_url, nonce, post.url) {
        Ok(protected) => Ok(
            UnsignedView { url: post.url, payload: account::payload(post.body), protected },
        ),
        Err(err) => Err(err),
    }
}

/// The request that sends a signed post.
pub open spec fn signed_request(unsigned: UnsignedView, signature: Seq<char>) -> Result<
    RequestView,
    Seq<Seq<char>>,
> {
    match http_common::uri_text(utf8::encode_utf8(unsigned.url)) {
        Ok(url) => Ok(account::signed_request(UnsignedView { url, ..unsigned }, signature)),
        Err(err) => Err(
            error::in_context("could not parse request URI"@, error::message(err)),
        ),
    }
}

/// Starts a post: the account is named by its URL, or by its key as long as its URL is not known.
pub fn post<K: AccountKey>(
    account_key: &K,
    account_url: &Option<String>,
    nonce: &HeaderValue,
    request: Post,
) -> (r: Result<UnsignedPost, Error>)
    ensures
        error::result_view(r) == protected_post(
            account_key.jwk(),
            text::optional(*account_url),
            nonce@,
            request@,
        ),
{
    let payload = account::write_payload(&request.body);
    match account::protect(&account_key.as_jwk(), account_url, nonce, request.url.as_str()) {
        Ok(protected) => Ok(UnsignedPost { url: request.url, payload, protected }),
        Err(err) => Err(err),
    }
}

impl UnsignedPost {
    /// What has to be signed.
    pub fn message(&self) -> (r: Vec<u8>)
        ensures
            r@ == account::signing_input(self@),
    {
        account::write_signing_input(self.protected.as_str(), self.payload.as_str())
    }

    /// The request that sends the post, with its signature.
    pub fn signed(self, signature: &str) -> (r: Result<Request, Error>)
        ensures
            error::result_view(r) == signed_request(self@, signature@),
    {
        match Uri::from_text(self.url.as_str()) {
            Ok(url) => Ok(
                account::write_signed_request(
                    url,
                    self.payload.as_str(),
                    self.protected.as_str(),
                    signature,
                ),
            ),
            Err(err) => Err(err.context("could not parse request URI")),
        }
    }
}

/// Takes the response to a post, and its nonce. A response without a nonce will not do.
pub fn post_received<T: View>(
    nonce: &mut HeaderValue,
    response: Result<ResponseWithNewNonce<T>, Error>,
) -> (r: Result<T, Error>)
    ensures
        match response {
            Ok(response) => match http_common::header_view(response.new_nonce) {
                Some(new_nonce) => r == Ok::<T, Error>(response.body) && final(nonce)@ == new_nonce,
                None => r matches Err(e) && e@ == error::message(
                    "server did not return new nonce"@,
                ) && *final(nonce) == *old(nonce),
            },
            Err(err) => r matches Err(e) && e@ == error::in_context(
                "could not execute HTTP request"@,
                err@,
            ) && *final(nonce) == *old(nonce),
        },
{
    match response {
        Ok(response) => match response.new_nonce {
            Some(new_nonce) => {
                *nonce = new_nonce;
                Ok(response.body)
            },
            None => Err(Error::new("server did not return new nonce")),
        },
        Err(err) => Err(err.context("could not execute HTTP request")),
    }
}

/// An account that is being opened: the directory of the server is known, and maybe a nonce.
#[derive(Debug)]
pub struct OpeningAccount<'a, K> {
    account_key: &'a K,
    acme_contact_url: String,
    directory: DirectoryResponse,
    nonce: Option<HeaderValue>,
}

/// An account that is being opened.
#[verifier::ext_equal]
pub struct OpeningView {
    pub jwk: JwkView,
    pub acme_contact_url: Seq<char>,
    pub directory: DirectoryView,
    pub nonce: Option<Seq<u8>>,
}

impl<'a, K> OpeningAccount<'a, K> {
    /// The key of the account.
    pub closed spec fn key(&self) -> K {
        *self.account_key
    }
}

impl<'a, K: AccountKey> View for OpeningAccount<'a, K> {
    type V = OpeningView;

    closed spec fn view(&self) -> OpeningView {
        OpeningView {
            jwk: self.account_key.jwk(),
            acme_contact_url: self.acme_contact_url@,
            directory: self.directory@,
            nonce: http_common::header_view(self.nonce),
        }
    }
}

/// What has to be done next to open an account.
#[derive(Debug)]
pub enum OpenStep {
    /// Fetch a nonce.
    FetchNonce(Request),
    /// Sign what opens the account, and send it.
    Post(UnsignedPost),
}

/// What has to be done next to open an account.
pub enum OpenStepView {
    FetchNonce(RequestView),
    Post(UnsignedView),
}

impl View for OpenStep {
    type V = OpenStepView;

    open spec fn view(&self) -> OpenStepView {
        match self {
            OpenStep::FetchNonce(request) => OpenStepView::FetchNonce(request@),
            OpenStep::Post(unsigned) => OpenStepView::Post(unsigned@),
        }
    }
}

/// What has to be done next to open an account.
pub open spec fn open_step(opening: OpeningView) -> Result<OpenStepView, Seq<Seq<char>>> {
    match opening.nonce {
        None => match get_request(opening.directory.new_nonce_url) {
            Ok(request) => Ok(OpenStepView::FetchNonce(request)),
            Err(err) => Err(error::in_context("could not get initial nonce"@, err)),
        },
        Some(nonce) => match protected_post(
            opening.jwk,
            None,
            nonce,
            PostView {
                url: opening.directory.new_account_url,
                body: Some(account::new_account_json(opening.acme_contact_url)),
            },
        ) {
            Ok(unsigned) => Ok(OpenStepView::Post(unsigned)),
            Err(err) => Err(error::in_context("could not create / get account"@, err)),
        },
    }
}

/// What the response to the opening of an account comes to: the URL of the account, and the next nonce.
pub open spec fn account_opened(
    response: Result<((Seq<char>, Seq<char>), Option<Seq<u8>>), Seq<Seq<char>>>,
) -> Result<(Seq<char>, Seq<u8>), Seq<Seq<char>>> {
    match response {
        Err(err) => Err(
            seq!["could not create / get account"@, "could not execute HTTP request"@] + err,
        ),
        Ok((_, None)) => Err(
            seq!["could not create / get account"@, "server did not return new nonce"@],
        ),
        Ok(((status, account_url), Some(nonce))) => if status == "valid"@ {
            Ok((account_url, nonce))
        } else {
            Err(error::message("Account has "@ + status + " status"@))
        },
    }
}

impl<'a, K: AccountKey> OpeningAccount<'a, K> {
    /// Starts to open the account of a key, with the directory of the server.
    pub fn directory_received(
        acme_contact_url: &str,
        account_key: &'a K,
        response: Result<ResponseWithNewNonce<DirectoryResponse>, Error>,
    ) -> (r: Result<OpeningAccount<'a, K>, Error>)
        ensures
            r matches Ok(opening) ==> opening.key() == *account_key,
            match error::result_view(response) {
                Ok((directory, nonce)) => error::result_view(r) == Ok::<
                    OpeningView,
                    Seq<Seq<char>>,
                >(
                    OpeningView {
                        jwk: account_key.jwk(),
                        acme_contact_url: acme_contact_url@,
                        directory,
                        nonce,
                    },
                ),
                Err(err) => error::result_view(r) == Err::<OpeningView, Seq<Seq<char>>>(
                    seq!["could not query ACME directory"@, "could not execute HTTP request"@]
                        + err,
                ),
            },
    {
        let mut nonce: Option<HeaderValue> = None;
        let ghost before = response;
        match get_received(&mut nonce, response) {
            Ok(directory) => Ok(
                OpeningAccount {
                    account_key,
                    acme_contact_url: acme_contact_url.to_owned(),
                    directory,
                    nonce,
                },
            ),
            Err(err) => {
                let err = err.context("could not query ACME directory");
                proof {
                    if let Err(cause) = before {
                        assert(err@ =~= seq![
                            "could not query ACME directory"@,
                            "could not execute HTTP request"@,
                        ] + cause@);
                    }
                }
                Err(err)
            },
        }
    }

    /// What is said about the nonce before the account is opened.
    pub fn announcement(&self) -> (r: &'static str)
        ensures
            r@ == (match self@.nonce {
                Some(_) => "Already have initial nonce"@,
                None => "Getting initial nonce..."@,
            }),
    {
        match &self.nonce {
            Some(_) => "Already have initial nonce",
            None => "Getting initial nonce...",
        }
    }

    /// What has to be done next to open the account.
    pub fn step(&self) -> (r: Result<OpenStep, Error>)
        ensures
            error::result_view(r) == open_step(self@),
    {
        match &self.nonce {
            None => match get(self.directory.new_nonce_url.as_str()) {
                Ok(request) => Ok(OpenStep::FetchNonce(request)),
                Err(err) => Err(err.context("could not get initial nonce")),
            },
            Some(nonce) => {
                let contacts = vec![self.acme_contact_url.clone()];
                assert(text::texts(contacts@) =~= seq![self.acme_contact_url@]);
                let fields = vec![
                    ("contact", json::string_array(&contacts)),
                    ("termsOfServiceAgreed", json::boolean(true)),
                ];
                assert(json::members(fields@) =~= seq![
                    (
                        "contact"@,
                        json::json_array(json::json_strings(seq![self.acme_contact_url@])),
                    ),
                    ("termsOfServiceAgreed"@, json::json_bool(true)),
                ]);
                let request = Post {
                    url: self.directory.new_account_url.clone(),
                    body: Some(json::object(&fields)),
                };
                match post(self.account_key, &None, nonce, request) {
                    Ok(unsigned) => Ok(OpenStep::Post(unsigned)),
                    Err(err) => Err(err.context("could not create / get account")),
                }
            },
        }
    }

    /// Asks for the signature of a post with the key of the account.
    pub fn signing(&self, unsigned: &UnsignedPost) -> (r: K::Signing)
        ensures
            self@.jwk == self.key().jwk(),
            self.key().is_signing(account::signing_input(unsigned@), r),
    {
        let message = unsigned.message();
        self.account_key.sign(message.as_slice())
    }

    /// Takes the nonce that was fetched.
    pub fn nonce_received(
        self,
        response: Result<ResponseWithNewNonce<NewNonceResponse>, Error>,
    ) -> (r: Result<OpeningAccount<'a, K>, Error>)
        ensures
            r matches Ok(opening) ==> opening.key() == self.key(),
            match error::result_view(response) {
                Ok((_, new_nonce)) => match (new_nonce, self@.nonce) {
                    (Some(nonce), _) => error::result_view(r) == Ok::<OpeningView, Seq<Seq<char>>>(
                        OpeningView { nonce: Some(nonce), ..self@ },
                    ),
                    (None, Some(_)) => error::result_view(r) == Ok::<OpeningView, Seq<Seq<char>>>(
                        self@,
                    ),
                    (None, None) => error::result_view(r) == Err::<OpeningView, Seq<Seq<char>>>(
                        error::message("server did not return initial nonce"@),
                    ),
                },
                Err(err) => error::result_view(r) == Err::<OpeningView, Seq<Seq<char>>>(
                    seq!["could not get initial nonce"@, "could not execute HTTP request"@] + err,
                ),
            },
    {
        let mut opening = self;
        let ghost before = response;
        match get_received(&mut opening.nonce, response) {
            Ok(_) => {
                if opening.nonce.is_some() {
                    Ok(opening)
                } else {
                    Err(Error::new("server did not return initial nonce"))
                }
            },
            Err(err) => {
                let err = err.context("could not get initial nonce");
                proof {
                    if let Err(cause) = before {
                        assert(err@ =~= seq![
                            "could not get initial nonce"@,
                            "could not execute HTTP request"@,
                        ] + cause@);
                    }
                }
                Err(err)
            },
        }
    }

    /// Takes the response to what opens the account.
    pub fn account_received(
        self,
        response: Result<
            ResponseWithNewNonce<ResponseWithLocation<NewAccountResponse>>,
            Error,
        >,
    ) -> (r: Result<Account<'a, K>, Error>)
        ensures
            r matches Ok(account) ==> account.key() == self.key(),
            match account_opened(error::result_view(response)) {
                Ok((account_url, nonce)) => r matches Ok(account) && account@ == (AccountView {
                    jwk: self@.jwk,
                    account_url,
                    nonce,
                    new_order_url: self@.directory.new_order_url,
                }),
                Err(err) => r matches Err(e) && e@ == err,
            },
    {
        match response {
            Err(err) => {
                let ghost cause = err@;
                let err = err.context("could not execute HTTP request").context(
                    "could not create / get account",
                );
                assert(err@ =~= seq![
                    "could not create / get account"@,
                    "could not execute HTTP request"@,
                ] + cause);
                Err(err)
            },
            Ok(response) => match response.new_nonce {
                None => {
                    let err = Error::new("server did not return new nonce").context(
                        "could not create / get account",
                    );
                    assert(err@ =~= seq![
                        "could not create / get account"@,
                        "server did not return new nonce"@,
                    ]);
                    Err(err)
                },
                Some(nonce) => {
                    let status = response.body.body.status;
                    if text::str_eq(status.as_str(), "valid") {
                        Ok(
                            Account {
                                account_key: self.account_key,
                                account_url: response.body.location.as_str().to_owned(),
                                nonce,
                                new_order_url: self.directory.new_order_url,
                            },
                        )
                    } else {
                        let mut err = "Account has ".to_owned();
                        err.append(status.as_str());
                        err.append(" status");
                        Err(Error::new(err.as_str()))
                    }
                },
            },
        }
    }
}

/// An ACME account.
#[derive(Debug)]
pub struct Account<'a, K> {
    account_key: &'a K,
    account_url: String,
    nonce: HeaderValue,
    new_order_url: String,
}

/// What an account is made of.
#[verifier::ext_equal]
pub struct AccountView {
    pub jwk: JwkView,
    pub account_url: Seq<char>,
    pub nonce: Seq<u8>,
    pub new_order_url: Seq<char>,
}

impl<'a, K> Account<'a, K> {
    /// The key of the account.
    pub closed spec fn key(&self) -> K {
        *self.account_key
    }
}

impl<'a, K: AccountKey> View for Account<'a, K> {
    type V = AccountView;

    closed spec fn view(&self) -> AccountView {
        AccountView {
            jwk: self.account_key.jwk(),
            account_url: self.account_url@,
            nonce: self.nonce@,
            new_order_url: self.new_order_url@,
        }
    }
}

/// An order, as the server describes it.
#[derive(Debug)]
pub enum OrderObject {
    /// `body` is the form that the rest of the object has when it is shown.
    Invalid { body: String },
    Pending { authorization_urls: Vec<String> },
    Processing,
    Ready { finalize_url: String },
    Valid { certificate_url: String },
}

/// An order, and how long to wait where the server is still busy with it.
#[derive(Debug)]
pub enum OrderResponse {
    Invalid { body: String },
    Pending { authorization_urls: Vec<String> },
    Processing { retry_after: Duration },
    Ready { finalize_url: String },
    Valid { certificate_url: String },
}

/// The state of an order.
pub enum OrderState {
    Invalid { body: Seq<char> },
    Pending { authorization_urls: Seq<Seq<char>> },
    Processing { retry_after: nat },
    Ready { finalize_url: Seq<char> },
    Valid { certificate_url: Seq<char> },
}

impl View for OrderResponse {
    type V = OrderState;

    open spec fn view(&self) -> OrderState {
        match self {
            OrderResponse::Invalid { body } => OrderState::Invalid { body: body@ },
            OrderResponse::Pending { authorization_urls } => OrderState::Pending {
                authorization_urls: text::texts(authorization_urls@),
            },
            OrderResponse::Processing { retry_after } => OrderState::Processing {
                retry_after: retry_after@,
            },
            OrderResponse::Ready { finalize_url } => OrderState::Ready {
                finalize_url: finalize_url@,
            },
            OrderResponse::Valid { certificate_url } => OrderState::Valid {
                certificate_url: certificate_url@,
            },
        }
    }
}

impl FromResponse for OrderResponse {
    type Content = Result<OrderObject, String>;

    open spec fn interpreted(
        status: u16,
        body: Option<ResponseBody<Result<OrderObject, String>>>,
        headers: ResponseHeaders,
        now: int,
    ) -> Result<Option<OrderState>, Seq<Seq<char>>> {
        match http_common::guarded_json_if(status == 201 || status == 200, body) {
            Ok(Some(OrderObject::Invalid { body })) => Ok(
                Some(OrderState::Invalid { body: body@ }),
            ),
            Ok(Some(OrderObject::Pending { authorization_urls })) => Ok(
                Some(OrderState::Pending { authorization_urls: text::texts(authorization_urls@) }),
            ),
            Ok(Some(OrderObject::Processing)) => match order::wait_of(headers, now) {
                Ok(retry_after) => Ok(Some(OrderState::Processing { retry_after })),
                Err(err) => Err(err),
            },
            Ok(Some(OrderObject::Ready { finalize_url })) => Ok(
                Some(OrderState::Ready { finalize_url: finalize_url@ }),
            ),
            Ok(Some(OrderObject::Valid { certificate_url })) => Ok(
                Some(OrderState::Valid { certificate_url: certificate_url@ }),
            ),
            Ok(None) => Ok(None),
            Err(err) => Err(err),
        }
    }

    fn from_response(
        status: StatusCode,
        body: Option<ResponseBody<Result<OrderObject, String>>>,
        headers: &ResponseHeaders,
        now: i128,
    ) -> (r: Result<Option<OrderResponse>, Error>) {
        let code: u16 = status.as_u16();
        match http_common::expect_guarded_json(code == 201 || code == 200, body) {
            Ok(Some(OrderObject::Invalid { body })) => Ok(Some(OrderResponse::Invalid { body })),
            Ok(Some(OrderObject::Pending { authorization_urls })) => Ok(
                Some(OrderResponse::Pending { authorization_urls }),
            ),
            Ok(Some(OrderObject::Processing)) => match order::get_wait(headers, now) {
                Ok(retry_after) => Ok(Some(OrderResponse::Processing { retry_after })),
                Err(err) => Err(err),
            },
            Ok(Some(OrderObject::Ready { finalize_url })) => Ok(
                Some(OrderResponse::Ready { finalize_url }),
            ),
            Ok(Some(OrderObject::Valid { certificate_url })) => Ok(
                Some(OrderResponse::Valid { certificate_url }),
            ),
            Ok(None) => Ok(None),
            Err(err) => Err(err),
        }
    }

    open spec fn reads(status: u16, content_type: Seq<u8>, headers: ResponseHeaders) -> bool {
        (status == 201 || status == 200) && http_common::is_json(content_type)
    }

    fn reads_body(
        status: StatusCode,
        content_type: &HeaderValue,
        headers: &ResponseHeaders,
    ) -> (r: bool) {
        let code: u16 = status.as_u16();
        (code == 201 || code == 200) && http_common::has_json_type(content_type)
    }

    proof fn unread_does_not_matter(
        status: u16,
        content_type: HeaderValue,
        in_one_piece: bool,
        one: Result<OrderObject, String>,
        other: Result<OrderObject, String>,
        headers: ResponseHeaders,
        now: int,
    ) {
    }
}

/// A challenge, as the server describes it.
#[derive(Debug)]
pub enum ChallengeObject {
    /// `body` is the form that the rest of the object has when it is shown.
    Invalid { body: String },
    Pending { token: String, kind: String, url: String },
    Processing,
    Valid,
}

/// A challenge that is being met.
#[derive(Debug)]
pub enum ChallengeResponse {
    Invalid { body: String },
    Pending { token: String, kind: String, url: String },
    Processing { retry_after: Duration },
    Valid,
}

/// The state of a challenge.
pub enum ChallengeState {
    Invalid { body: Seq<char> },
    Pending { token: Seq<char>, kind: Seq<char>, url: Seq<char> },
    Processing { retry_after: nat },
    Valid,
}

/// One of the challenges of an authorization. How long to wait for it is not known.
impl View for ChallengeObject {
    type V = ChallengeState;

    open spec fn view(&self) -> ChallengeState {
        match self {
            ChallengeObject::Invalid { body } => ChallengeState::Invalid { body: body@ },
            ChallengeObject::Pending { token, kind, url } => ChallengeState::Pending {
                token: token@,
                kind: kind@,
                url: url@,
            },
            ChallengeObject::Processing => ChallengeState::Processing { retry_after: 0 },
            ChallengeObject::Valid => ChallengeState::Valid,
        }
    }
}

impl View for ChallengeResponse {
    type V = ChallengeState;

    open spec fn view(&self) -> ChallengeState {
        match self {
            ChallengeResponse::Invalid { body } => ChallengeState::Invalid { body: body@ },
            ChallengeResponse::Pending { token, kind, url } => ChallengeState::Pending {
                token: token@,
                kind: kind@,
                url: url@,
            },
            ChallengeResponse::Processing { retry_after } => ChallengeState::Processing {
                retry_after: retry_after@,
            },
            ChallengeResponse::Valid => ChallengeState::Valid,
        }
    }
}

impl FromResponse for ChallengeResponse {
    type Content = Result<ChallengeObject, String>;

    open spec fn interpreted(
        status: u16,
        body: Option<ResponseBody<Result<ChallengeObject, String>>>,
        headers: ResponseHeaders,
        now: int,
    ) -> Result<Option<ChallengeState>, Seq<Seq<char>>> {
        match http_common::guarded_json_if(status == 200, body) {
            Ok(Some(ChallengeObject::Invalid { body })) => Ok(
                Some(ChallengeState::Invalid { body: body@ }),
            ),
            Ok(Some(ChallengeObject::Pending { token, kind, url })) => Ok(
                Some(ChallengeState::Pending { token: token@, kind: kind@, url: url@ }),
            ),
            Ok(Some(ChallengeObject::Processing)) => match order::wait_of(headers, now) {
                Ok(retry_after) => Ok(Some(ChallengeState::Processing { retry_after })),
                Err(err) => Err(err),
            },
            Ok(Some(ChallengeObject::Valid)) => Ok(Some(ChallengeState::Valid)),
            Ok(None) => Ok(None),
            Err(err) => Err(err),
        }
    }

    fn from_response(
        status: StatusCode,
        body: Option<ResponseBody<Result<ChallengeObject, String>>>,
        headers: &ResponseHeaders,
        now: i128,
    ) -> (r: Result<Option<ChallengeResponse>, Error>) {
        match http_common::expect_guarded_json(status.as_u16() == 200, body) {
            Ok(Some(ChallengeObject::Invalid { body })) => Ok(
                Some(ChallengeResponse::Invalid { body }),
            ),
            Ok(Some(ChallengeObject::Pending { token, kind, url })) => Ok(
                Some(ChallengeResponse::Pending { token, kind, url }),
            ),
            Ok(Some(ChallengeObject::Processing)) => match order::get_wait(headers, now) {
                Ok(retry_after) => Ok(Some(ChallengeResponse::Processing { retry_after })),
                Err(err) => Err(err),
            },
            Ok(Some(ChallengeObject::Valid)) => Ok(Some(ChallengeResponse::Valid)),
            Ok(None) => Ok(None),
            Err(err) => Err(err),
        }
    }

    open spec fn reads(status: u16, content_type: Seq<u8>, headers: ResponseHeaders) -> bool {
        status == 200 && http_common::is_json(content_type)
    }

    fn reads_body(
        status: StatusCode,
        content_type: &HeaderValue,
        headers: &ResponseHeaders,
    ) -> (r: bool) {
        status.as_u16() == 200 && http_common::has_json_type(content_type)
    }

    proof fn unread_does_not_matter(
        status: u16,
        content_type: HeaderValue,
        in_one_piece: bool,
        one: Result<ChallengeObject, String>,
        other: Result<ChallengeObject, String>,
        headers: ResponseHeaders,
        now: int,
    ) {
    }
}

/// An authorization, as the server describes it.
#[derive(Debug)]
pub enum AuthorizationObject {
    Deactivated,
    Expired,
    Invalid,
    Pending { challenges: Vec<ChallengeObject> },
    Revoked,
    Valid,
}

/// An authorization, and how long to wait where it is pending.
#[derive(Debug)]
pub enum AuthorizationResponse {
    Deactivated,
    Expired,
    Invalid,
    Pending { challenges: Vec<ChallengeObject>, retry_after: Duration },
    Revoked,
    Valid,
}

/// The state of an authorization.
pub enum AuthorizationState {
    Deactivated,
    Expired,
    Invalid,
    Pending { challenges: Seq<ChallengeObject>, retry_after: nat },
    Revoked,
    Valid,
}

impl View for AuthorizationResponse {
    type V = AuthorizationState;

    open spec fn view(&self) -> AuthorizationState {
        match self {
            AuthorizationResponse::Pending { challenges, retry_after } =>
                AuthorizationState::Pending { challenges: challenges@, retry_after: retry_after@ },
            AuthorizationResponse::Valid => AuthorizationState::Valid,
            AuthorizationResponse::Deactivated => AuthorizationState::Deactivated,
            AuthorizationResponse::Expired => AuthorizationState::Expired,
            AuthorizationResponse::Invalid => AuthorizationState::Invalid,
            AuthorizationResponse::Revoked => AuthorizationState::Revoked,
        }
    }
}

impl FromResponse for AuthorizationResponse {
    type Content = Result<AuthorizationObject, String>;

    open spec fn interpreted(
        status: u16,
        body: Option<ResponseBody<Result<AuthorizationObject, String>>>,
        headers: ResponseHeaders,
        now: int,
    ) -> Result<Option<AuthorizationState>, Seq<Seq<char>>> {
        match http_common::guarded_json_if(status == 200, body) {
            Ok(Some(AuthorizationObject::Pending { challenges })) => match order::wait_of(
                headers,
                now,
            ) {
                Ok(retry_after) => Ok(
                    Some(AuthorizationState::Pending { challenges: challenges@, retry_after }),
                ),
                Err(err) => Err(err),
            },
            Ok(Some(AuthorizationObject::Valid)) => Ok(Some(AuthorizationState::Valid)),
            Ok(Some(AuthorizationObject::Deactivated)) => Ok(Some(AuthorizationState::Deactivated)),
            Ok(Some(AuthorizationObject::Expired)) => Ok(Some(AuthorizationState::Expired)),
            Ok(Some(AuthorizationObject::Invalid)) => Ok(Some(AuthorizationState::Invalid)),
            Ok(Some(AuthorizationObject::Revoked)) => Ok(Some(AuthorizationState::Revoked)),
            Ok(None) => Ok(None),
            Err(err) => Err(err),
        }
    }

    fn from_response(
        status: StatusCode,
        body: Option<ResponseBody<Result<AuthorizationObject, String>>>,
        headers: &ResponseHeaders,
        now: i128,
    ) -> (r: Result<Option<AuthorizationResponse>, Error>) {
        match http_common::expect_guarded_json(status.as_u16() == 200, body) {
            Ok(Some(AuthorizationObject::Pending { challenges })) => match order::get_wait(
                headers,
                now,
            ) {
                Ok(retry_after) => Ok(
                    Some(AuthorizationResponse::Pending { challenges, retry_after }),
                ),
                Err(err) => Err(err),
            },
            Ok(Some(AuthorizationObject::Valid)) => Ok(Some(AuthorizationResponse::Valid)),
            Ok(Some(AuthorizationObject::Deactivated)) => Ok(Some(AuthorizationResponse::Deactivated)),
            Ok(Some(AuthorizationObject::Expired)) => Ok(Some(AuthorizationResponse::Expired)),
            Ok(Some(AuthorizationObject::Invalid)) => Ok(Some(AuthorizationResponse::Invalid)),
            Ok(Some(AuthorizationObject::Revoked)) => Ok(Some(AuthorizationResponse::Revoked)),
            Ok(None) => Ok(None),
            Err(err) => Err(err),
        }
    }

    open spec fn reads(status: u16, content_type: Seq<u8>, headers: ResponseHeaders) -> bool {
        status == 200 && http_common::is_json(content_type)
    }

    fn reads_body(
        status: StatusCode,
        content_type: &HeaderValue,
        headers: &ResponseHeaders,
    ) -> (r: bool) {
        status.as_u16() == 200 && http_common::has_json_type(content_type)
    }

    proof fn unread_does_not_matter(
        status: u16,
        content_type: HeaderValue,
        in_one_piece: bool,
        one: Result<AuthorizationObject, String>,
        other: Result<AuthorizationObject, String>,
        headers: ResponseHeaders,
        now: int,
    ) {
    }
}

/// The token and the URL of a pending DNS challenge.
pub open spec fn dns_challenge(challenge: ChallengeObject) -> Option<(Seq<char>, Seq<char>)> {
    match challenge {
        ChallengeObject::Pending { token, kind, url } if kind@ == "dns-01"@ => Some((token@, url@)),
        _ => None,
    }
}

/// The token and the URL of the first pending DNS challenge.
pub open spec fn first_dns_challenge(challenges: Seq<ChallengeObject>) -> Option<
    (Seq<char>, Seq<char>),
>
    decreases challenges.len(),
{
    if challenges.len() == 0 {
        None
    } else if dns_challenge(challenges[0]) is Some {
        dns_challenge(challenges[0])
    } else {
        first_dns_challenge(challenges.skip(1))
    }
}

/// Finds the first pending DNS challenge.
fn find_dns_challenge(challenges: &Vec<ChallengeObject>) -> (r: Option<(String, String)>)
    ensures
        match r {
            Some((token, url)) => first_dns_challenge(challenges@) == Some((token@, url@)),
            None => first_dns_challenge(challenges@) is None,
        },
{
    assert(challenges@.skip(0) =~= challenges@);
    for i in 0..challenges.len()
        invariant
            first_dns_challenge(challenges@) == first_dns_challenge(challenges@.skip(i as int)),
    {
        assert(challenges@.skip(i as int)[0] == challenges@[i as int]);
        assert(challenges@.skip(i as int).skip(1) =~= challenges@.skip(i + 1));
        match &challenges[i] {
            ChallengeObject::Pending { token, kind, url } => {
                if text::str_eq(kind.as_str(), "dns-01") {
                    return Some((token.clone(), url.clone()));
                }
            },
            _ => {},
        }
    }
    None
}

/// An order.
#[derive(Debug)]
pub enum Order {
    Pending(OrderPending),
    Ready(OrderReady),
    Valid(OrderValid),
}

/// An order whose authorization is pending.
#[derive(Debug)]
pub struct OrderPending {
    order_url: String,
    authorization_url: String,
    challenge_url: String,
    pub dns_txt_record_content: String,
}

/// An order that can be finalized.
#[derive(Debug)]
pub struct OrderReady {
    order_url: String,
}

/// An order whose certificate has been issued.
#[derive(Debug)]
pub struct OrderValid {
    certificate_url: String,
}

/// An order whose authorization is pending.
#[verifier::ext_equal]
pub struct OrderPendingView {
    pub order_url: Seq<char>,
    pub authorization_url: Seq<char>,
    pub challenge_url: Seq<char>,
    pub dns_txt_record_content: Seq<char>,
}

/// An order.
pub enum OrderView {
    Pending(OrderPendingView),
    Ready { order_url: Seq<char> },
    Valid { certificate_url: Seq<char> },
}

impl View for OrderPending {
    type V = OrderPendingView;

    closed spec fn view(&self) -> OrderPendingView {
        OrderPendingView {
            order_url: self.order_url@,
            authorization_url: self.authorization_url@,
            challenge_url: self.challenge_url@,
            dns_txt_record_content: self.dns_txt_record_content@,
        }
    }
}

impl View for OrderReady {
    type V = Seq<char>;

    closed spec fn view(&self) -> Seq<char> {
        self.order_url@
    }
}

impl View for OrderValid {
    type V = Seq<char>;

    closed spec fn view(&self) -> Seq<char> {
        self.certificate_url@
    }
}

impl View for Order {
    type V = OrderView;

    open spec fn view(&self) -> OrderView {
        match self {
            Order::Pending(pending) => OrderView::Pending(pending@),
            Order::Ready(ready) => OrderView::Ready { order_url: ready@ },
            Order::Valid(valid) => OrderView::Valid { certificate_url: valid@ },
        }
    }
}

impl Clone for OrderPending {
    fn clone(&self) -> (r: OrderPending)
        ensures
            r == *self,
    {
        OrderPending {
            order_url: self.order_url.clone(),
            authorization_url: self.authorization_url.clone(),
            challenge_url: self.challenge_url.clone(),
            dns_txt_record_content: self.dns_txt_record_content.clone(),
        }
    }
}

impl Clone for OrderReady {
    fn clone(&self) -> (r: OrderReady)
        ensures
            r == *self,
    {
        OrderReady { order_url: self.order_url.clone() }
    }
}

impl Clone for OrderValid {
    fn clone(&self) -> (r: OrderValid)
        ensures
            r == *self,
    {
        OrderValid { certificate_url: self.certificate_url.clone() }
    }
}

/// An order that is looked at, after a while if there is one to wait, before it counts as placed.
#[derive(Debug)]
pub struct OrderPoll {
    order_url: String,
    retry_after: Option<Duration>,
}

impl View for OrderPoll {
    type V = (Seq<char>, Option<nat>);

    closed spec fn view(&self) -> (Seq<char>, Option<nat>) {
        (self.order_url@, completion::optional_span(self.retry_after))
    }
}

/// An order whose authorization is looked at before it counts as placed.
#[derive(Debug)]
pub struct Authorizing {
    order_url: String,
    authorization_url: String,
}

impl View for Authorizing {
    type V = (Seq<char>, Seq<char>);

    closed spec fn view(&self) -> (Seq<char>, Seq<char>) {
        (self.order_url@, self.authorization_url@)
    }
}

/// What has to be done next to place an order.
#[derive(Debug)]
pub enum PlaceOrder {
    /// Look at the order.
    Poll(OrderPoll),
    /// Look at the authorization.
    Authorize(Authorizing),
    /// Nothing: the order has been placed.
    Done(Order),
}

/// What has to be done next to place an order.
pub enum PlaceOrderView {
    Poll { order_url: Seq<char>, retry_after: Option<nat> },
    Authorize { order_url: Seq<char>, authorization_url: Seq<char> },
    Done(OrderView),
}

impl View for PlaceOrder {
    type V = PlaceOrderView;

    open spec fn view(&self) -> PlaceOrderView {
        match self {
            PlaceOrder::Poll(poll) => PlaceOrderView::Poll {
                order_url: poll@.0,
                retry_after: poll@.1,
            },
            PlaceOrder::Authorize(authorizing) => PlaceOrderView::Authorize {
                order_url: authorizing@.0,
                authorization_url: authorizing@.1,
            },
            PlaceOrder::Done(order) => PlaceOrderView::Done(order@),
        }
    }
}

/// What a look at an order that is being placed comes to. It must have a single authorization.
pub open spec fn order_received(
    order_url: Seq<char>,
    response: Result<OrderState, Seq<Seq<char>>>,
) -> Result<PlaceOrderView, Seq<Seq<char>>> {
    match response {
        Err(err) => Err(error::in_context("could not get order"@, err)),
        Ok(OrderState::Invalid { .. }) => Err(error::message("order failed"@)),
        Ok(OrderState::Pending { authorization_urls }) => if authorization_urls.len() == 0 {
            Err(error::message("no authorizations"@))
        } else if authorization_urls.len() > 1 {
            Err(error::message("more than one authorization"@))
        } else {
            Ok(
                PlaceOrderView::Authorize {
                    order_url,
                    authorization_url: authorization_urls[0],
                },
            )
        },
        Ok(OrderState::Processing { retry_after }) => Ok(
            PlaceOrderView::Poll { order_url, retry_after: Some(retry_after) },
        ),
        Ok(OrderState::Ready { .. }) => Ok(PlaceOrderView::Done(OrderView::Ready { order_url })),
        Ok(OrderState::Valid { certificate_url }) => Ok(
            PlaceOrderView::Done(OrderView::Valid { certificate_url }),
        ),
    }
}

/// What a look at the authorization of an order that is being placed comes to.
pub open spec fn authorization_received(
    jwk: JwkView,
    order_url: Seq<char>,
    authorization_url: Seq<char>,
    response: Result<AuthorizationState, Seq<Seq<char>>>,
) -> Result<PlaceOrderView, Seq<Seq<char>>> {
    match response {
        Err(err) => Err(error::in_context("could not get authorization"@, err)),
        Ok(AuthorizationState::Pending { challenges, .. }) => match first_dns_challenge(challenges) {
            Some((token, challenge_url)) => Ok(
                PlaceOrderView::Done(
                    OrderView::Pending(
                        OrderPendingView {
                            order_url,
                            authorization_url,
                            challenge_url,
                            dns_txt_record_content: acme::challenge_answer(token, jwk),
                        },
                    ),
                ),
            ),
            None => Err(error::message("did not find any pending dns-01 challenges"@)),
        },
        Ok(_) => Err(error::message("authorization has unexpected status"@)),
    }
}

/// The challenge of an order, which the server is told to be met, and is then asked about, after a while if
/// there is one to wait.
#[derive(Debug)]
pub struct MeetChallenge {
    order: OrderPending,
    answered: bool,
    retry_after: Option<Duration>,
}

impl View for MeetChallenge {
    type V = (OrderPendingView, bool, Option<nat>);

    closed spec fn view(&self) -> (OrderPendingView, bool, Option<nat>) {
        (self.order@, self.answered, completion::optional_span(self.retry_after))
    }
}

/// The authorization of an order whose challenge has been met. The server is asked about it, after a while
/// if there is one to wait.
#[derive(Debug)]
pub struct AwaitAuthorization {
    order: OrderPending,
    retry_after: Option<Duration>,
}

impl View for AwaitAuthorization {
    type V = (OrderPendingView, Option<nat>);

    closed spec fn view(&self) -> (OrderPendingView, Option<nat>) {
        (self.order@, completion::optional_span(self.retry_after))
    }
}

/// What has to be done next to complete the authorization of an order.
#[derive(Debug)]
pub enum CompleteAuthorization {
    /// Post about the challenge.
    Challenge(MeetChallenge),
    /// Look at the authorization.
    Authorization(AwaitAuthorization),
    /// Nothing: the order is ready.
    Done(OrderReady),
}

/// What has to be done next to complete the authorization of an order.
pub enum CompletionState {
    Challenge { order: OrderPendingView, answered: bool, retry_after: Option<nat> },
    Authorization { order: OrderPendingView, retry_after: Option<nat> },
    Done { order_url: Seq<char> },
}

impl View for CompleteAuthorization {
    type V = CompletionState;

    open spec fn view(&self) -> CompletionState {
        match self {
            CompleteAuthorization::Challenge(challenge) => CompletionState::Challenge {
                order: challenge@.0,
                answered: challenge@.1,
                retry_after: challenge@.2,
            },
            CompleteAuthorization::Authorization(authorization) =>
                CompletionState::Authorization {
                order: authorization@.0,
                retry_after: authorization@.1,
            },
            CompleteAuthorization::Done(order) => CompletionState::Done { order_url: order@ },
        }
    }
}

/// What completing the authorization of an order starts with: the server is told that the challenge is
/// met.
pub open spec fn completion_started(order: OrderPendingView) -> CompletionState {
    CompletionState::Challenge { order, answered: false, retry_after: None }
}

/// What the response to a post about a challenge comes to. That to the answer says nothing yet.
pub open spec fn challenge_received(
    order: OrderPendingView,
    answered: bool,
    response: Result<ChallengeState, Seq<Seq<char>>>,
) -> Result<CompletionState, Seq<Seq<char>>> {
    if !answered {
        match response {
            Err(err) => Err(error::in_context("could not complete challenge"@, err)),
            Ok(_) => Ok(
                CompletionState::Challenge { order, answered: true, retry_after: None },
            ),
        }
    } else {
        match response {
            Err(err) => Err(error::in_context("could not get challenge"@, err)),
            Ok(ChallengeState::Pending { .. }) => Ok(
                CompletionState::Challenge {
                    order,
                    answered: true,
                    retry_after: Some(1_000_000_000),
                },
            ),
            Ok(ChallengeState::Processing { retry_after }) => Ok(
                CompletionState::Challenge { order, answered: true, retry_after: Some(retry_after) },
            ),
            Ok(ChallengeState::Valid) => Ok(
                CompletionState::Authorization { order, retry_after: None },
            ),
            Ok(ChallengeState::Invalid { .. }) => Err(
                error::message("challenge has unexpected status"@),
            ),
        }
    }
}

/// What a look at an authorization whose challenge has been met comes to.
pub open spec fn completed_authorization_received(
    order: OrderPendingView,
    response: Result<AuthorizationState, Seq<Seq<char>>>,
) -> Result<CompletionState, Seq<Seq<char>>> {
    match response {
        Err(err) => Err(error::in_context("could not get authorization"@, err)),
        Ok(AuthorizationState::Pending { retry_after, .. }) => Ok(
            CompletionState::Authorization { order, retry_after: Some(retry_after) },
        ),
        Ok(AuthorizationState::Valid) => Ok(CompletionState::Done { order_url: order.order_url }),
        Ok(_) => Err(
            error::message("authorization has unexpected status"@),
        ),
    }
}

/// An order that is being finalized. It is looked at, after a while if there is one to wait.
#[derive(Debug)]
pub struct FinalizePoll {
    order_url: String,
    csr: Vec<u8>,
    retry_after: Option<Duration>,
}

impl View for FinalizePoll {
    type V = (Seq<char>, Seq<u8>, Option<nat>);

    closed spec fn view(&self) -> (Seq<char>, Seq<u8>, Option<nat>) {
        (self.order_url@, self.csr@, completion::optional_span(self.retry_after))
    }
}

/// An order that is being finalized. Its certificate signing request is sent.
#[derive(Debug)]
pub struct SendCsr {
    order_url: String,
    csr: Vec<u8>,
    finalize_url: String,
}

impl View for SendCsr {
    type V = (Seq<char>, Seq<u8>, Seq<char>);

    closed spec fn view(&self) -> (Seq<char>, Seq<u8>, Seq<char>) {
        (self.order_url@, self.csr@, self.finalize_url@)
    }
}

/// What has to be done next to finalize an order.
#[derive(Debug)]
pub enum FinalizeOrder {
    /// Look at the order.
    Poll(FinalizePoll),
    /// Send the certificate signing request.
    Send(SendCsr),
    /// Nothing: the order has been finalized.
    Done(OrderValid),
}

/// What has to be done next to finalize an order.
pub enum FinalizeOrderView {
    Poll { order_url: Seq<char>, csr: Seq<u8>, retry_after: Option<nat> },
    Send { order_url: Seq<char>, csr: Seq<u8>, finalize_url: Seq<char> },
    Done { certificate_url: Seq<char> },
}

impl View for FinalizeOrder {
    type V = FinalizeOrderView;

    open spec fn view(&self) -> FinalizeOrderView {
        match self {
            FinalizeOrder::Poll(poll) => FinalizeOrderView::Poll {
                order_url: poll@.0,
                csr: poll@.1,
                retry_after: poll@.2,
            },
            FinalizeOrder::Send(send) => FinalizeOrderView::Send {
                order_url: send@.0,
                csr: send@.1,
                finalize_url: send@.2,
            },
            FinalizeOrder::Done(order) => FinalizeOrderView::Done { certificate_url: order@ },
        }
    }
}

/// What finalizing an order starts with: the order is looked at.
pub open spec fn finalizing_started(order_url: Seq<char>, csr: Seq<u8>) -> FinalizeOrderView {
    FinalizeOrderView::Poll { order_url, csr, retry_after: None }
}

/// What a look at an order that is being finalized comes to.
pub open spec fn finalizing_order_received(
    order_url: Seq<char>,
    csr: Seq<u8>,
    response: Result<OrderState, Seq<Seq<char>>>,
) -> Result<FinalizeOrderView, Seq<Seq<char>>> {
    match response {
        Err(err) => Err(error::in_context("could not get order"@, err)),
        Ok(OrderState::Invalid { .. }) => Err(error::message("order failed"@)),
        Ok(OrderState::Pending { .. }) => Err(error::message("order is still pending"@)),
        Ok(OrderState::Processing { retry_after }) => Ok(
            FinalizeOrderView::Poll { order_url, csr, retry_after: Some(retry_after) },
        ),
        Ok(OrderState::Ready { finalize_url }) => Ok(
            FinalizeOrderView::Send { order_url, csr, finalize_url },
        ),
        Ok(OrderState::Valid { certificate_url }) => Ok(FinalizeOrderView::Done { certificate_url }),
    }
}

/// What the response to a certificate signing request comes to: the order is looked at again, whatever the
/// response says about it.
pub open spec fn csr_received(
    order_url: Seq<char>,
    csr: Seq<u8>,
    response: Result<OrderState, Seq<Seq<char>>>,
) -> Result<FinalizeOrderView, Seq<Seq<char>>> {
    match response {
        Ok(_) => Ok(FinalizeOrderView::Poll { order_url, csr, retry_after: None }),
        Err(err) => Err(error::in_context("could not finalize order"@, err)),
    }
}

/// What sends a certificate signing request.
pub open spec fn finalize_json(csr: Seq<u8>) -> Seq<char> {
    json::json_object(seq![("csr"@, json::json_string(encoding::base64url(csr)))])
}

/// What is posted next to complete the authorization of an order.
pub open spec fn completion_post(state: CompletionState) -> Option<PostView> {
    match state {
        CompletionState::Challenge { order, answered, .. } => Some(
            PostView {
                url: order.challenge_url,
                body: if answered {
                    None
                } else {
                    Some(completion::challenge_complete_json())
                },
            },
        ),
        CompletionState::Authorization { order, .. } => Some(question(order.authorization_url)),
        CompletionState::Done { .. } => None,
    }
}

/// What is posted next to finalize an order.
pub open spec fn finalizing_post(finalizing: FinalizeOrderView) -> Option<PostView> {
    match finalizing {
        FinalizeOrderView::Poll { order_url, .. } => Some(question(order_url)),
        FinalizeOrderView::Send { csr, finalize_url, .. } => Some(
            PostView { url: finalize_url, body: Some(finalize_json(csr)) },
        ),
        FinalizeOrderView::Done { .. } => None,
    }
}

impl<'a, K: AccountKey> Account<'a, K> {
    /// Asks for the directory of an ACME server. The response goes to
    /// [`OpeningAccount::directory_received`].
    pub fn new(acme_directory_url: &str) -> (r: Result<Request, Error>)
        ensures
            error::result_view(r) == (match get_request(acme_directory_url@) {
                Ok(request) => Ok(request),
                Err(err) => Err(error::in_context("could not query ACME directory"@, err)),
            }),
    {
        match get(acme_directory_url) {
            Ok(request) => Ok(request),
            Err(err) => Err(err.context("could not query ACME directory")),
        }
    }

    /// Starts a post.
    pub fn post(&self, request: Post) -> (r: Result<UnsignedPost, Error>)
        ensures
            error::result_view(r) == protected_post(
                self@.jwk,
                Some(self@.account_url),
                self@.nonce,
                request@,
            ),
    {
        post(self.account_key, &Some(self.account_url.clone()), &self.nonce, request)
    }

    /// Asks for the signature of a post with the key of the account.
    pub fn signing(&self, unsigned: &UnsignedPost) -> (r: K::Signing)
        ensures
            self@.jwk == self.key().jwk(),
            self.key().is_signing(account::signing_input(unsigned@), r),
    {
        let message = unsigned.message();
        self.account_key.sign(message.as_slice())
    }

    /// Takes the response to a post. The account keeps its nonce for the next one.
    pub fn response_received<T: View>(
        &mut self,
        response: Result<ResponseWithNewNonce<T>, Error>,
    ) -> (r: Result<T, Error>)
        ensures
            final(self).key() == old(self).key(),
            match response {
                Ok(response) => match http_common::header_view(response.new_nonce) {
                    Some(new_nonce) => r == Ok::<T, Error>(response.body) && final(self)@ == (
                    AccountView { nonce: new_nonce, ..old(self)@ }),
                    None => r matches Err(e) && e@ == error::message(
                        "server did not return new nonce"@,
                    ) && final(self)@ == old(self)@,
                },
                Err(err) => r matches Err(e) && e@ == error::in_context(
                    "could not execute HTTP request"@,
                    err@,
                ) && final(self)@ == old(self)@,
            },
    {
        post_received(&mut self.nonce, response)
    }

    /// Places an order for a certificate for a domain name.
    pub fn place_order(&self, domain_name: &str) -> (r: Post)
        ensures
            r@ == (PostView {
                url: self@.new_order_url,
                body: Some(order::new_order_json(seq![domain_name@])),
            }),
    {
        let names = vec![domain_name.to_owned()];
        assert(text::texts(names@) =~= seq![domain_name@]);
        Post { url: self.new_order_url.clone(), body: Some(order::write_new_order(&names)) }
    }

    /// Goes on with an order that has just been placed: it is looked at, whatever the response says.
    pub fn order_placed(&self, response: Result<ResponseWithLocation<OrderResponse>, Error>) -> (r:
        Result<PlaceOrder, Error>)
        ensures
            error::result_view(r) == (match error::result_view(response) {
                Ok((_, order_url)) => Ok(PlaceOrderView::Poll { order_url, retry_after: None }),
                Err(err) => Err(error::in_context("could not create / get order"@, err)),
            }),
    {
        match response {
            Ok(response) => Ok(
                PlaceOrder::Poll(
                    OrderPoll {
                        order_url: response.location.as_str().to_owned(),
                        retry_after: None,
                    },
                ),
            ),
            Err(err) => Err(err.context("could not create / get order")),
        }
    }

    /// Completes the authorization of an order.
    pub fn complete_authorization(&self, order: OrderPending) -> (r: CompleteAuthorization)
        ensures
            r@ == completion_started(order@),
    {
        CompleteAuthorization::Challenge(
            MeetChallenge { order, answered: false, retry_after: None },
        )
    }

    /// Finalizes an order with a certificate signing request.
    pub fn finalize_order(&self, order: OrderReady, csr: Vec<u8>) -> (r: FinalizeOrder)
        ensures
            r@ == finalizing_started(order@, csr@),
    {
        FinalizeOrder::Poll(FinalizePoll { order_url: order.order_url, csr, retry_after: None })
    }

    /// Fetches the certificate of an order. The response goes to
    /// [`certificate_received`].
    pub fn download_certificate(&self, order: &OrderValid) -> (r: Post)
        ensures
            r@ == question(order@),
    {
        ask(order.certificate_url.as_str())
    }
}

impl OrderReady {
    /// What is said before the order is finalized.
    pub fn announcement(&self) -> (r: String)
        ensures
            r@ == progress::about("Finalizing order "@, self@, " ..."@),
    {
        progress::say("Finalizing order ", self.order_url.as_str(), " ...")
    }
}

impl OrderValid {
    /// What is said before the certificate is fetched.
    pub fn announcement(&self) -> (r: String)
        ensures
            r@ == progress::about("Downloading certificate "@, self@, " ..."@),
    {
        progress::say("Downloading certificate ", self.certificate_url.as_str(), " ...")
    }

    /// What is said when the certificate has been fetched.
    pub fn conclusion(&self) -> (r: String)
        ensures
            r@ == progress::about("Downloaded certificate "@, self@, ""@),
    {
        progress::say("Downloaded certificate ", self.certificate_url.as_str(), "")
    }
}

impl OrderPending {
    /// What the TXT record has to hold that answers the challenge.
    pub fn content(&self) -> (r: String)
        ensures
            r@ == self@.dns_txt_record_content,
    {
        self.dns_txt_record_content.clone()
    }
}

impl OrderPoll {
    /// How long to wait before the order is looked at.
    pub fn retry_after(&self) -> (r: Option<Duration>)
        ensures
            completion::optional_span(r) == self@.1,
    {
        self.retry_after
    }

    /// What is said about the order when it has been placed.
    pub fn created(&self, domain_name: &str) -> (r: String)
        ensures
            r@ == "Created order for "@ + domain_name@ + " : "@ + self@.0,
    {
        let mut r = progress::say("Created order for ", domain_name, " : ");
        r.append(self.order_url.as_str());
        r
    }

    /// What is said before the order is looked at.
    pub fn announcement(&self) -> (r: Option<String>)
        ensures
            text::optional(r) == progress::waiting(self@.1, " before rechecking order..."@),
    {
        progress::say_waiting(self.retry_after, " before rechecking order...")
    }

    /// What is said about what the order is found to be.
    pub fn found(&self, response: &Result<OrderResponse, Error>) -> (r: Option<String>)
        ensures
            text::optional(r) == progress::response_found("Order "@, self@.0, *response),
    {
        progress::say_response_found("Order ", self.order_url.as_str(), response)
    }

    /// Looks at the order.
    pub fn post(&self) -> (r: Post)
        ensures
            r@ == question(self@.0),
    {
        ask(self.order_url.as_str())
    }

    /// Goes on with the order.
    pub fn received(self, response: Result<OrderResponse, Error>) -> (r: Result<PlaceOrder, Error>)
        ensures
            error::result_view(r) == order_received(self@.0, error::result_view(response)),
    {
        let order_url = self.order_url;
        match response {
            Err(err) => Err(err.context("could not get order")),
            Ok(OrderResponse::Invalid { .. }) => Err(Error::new("order failed")),
            Ok(OrderResponse::Pending { authorization_urls }) => {
                if authorization_urls.len() == 0 {
                    Err(Error::new("no authorizations"))
                } else if authorization_urls.len() > 1 {
                    Err(Error::new("more than one authorization"))
                } else {
                    let authorization_url = authorization_urls[0].clone();
                    Ok(PlaceOrder::Authorize(Authorizing { order_url, authorization_url }))
                }
            },
            Ok(OrderResponse::Processing { retry_after }) => Ok(
                PlaceOrder::Poll(OrderPoll { order_url, retry_after: Some(retry_after) }),
            ),
            Ok(OrderResponse::Ready { .. }) => Ok(
                PlaceOrder::Done(Order::Ready(OrderReady { order_url })),
            ),
            Ok(OrderResponse::Valid { certificate_url }) => Ok(
                PlaceOrder::Done(Order::Valid(OrderValid { certificate_url })),
            ),
        }
    }
}

impl Authorizing {
    /// Looks at the authorization.
    pub fn post(&self) -> (r: Post)
        ensures
            r@ == question(self@.1),
    {
        ask(self.authorization_url.as_str())
    }

    /// What is said about what the authorization is found to be.
    pub fn found(&self, response: &Result<AuthorizationResponse, Error>) -> (r: Option<String>)
        ensures
            text::optional(r) == progress::response_found("Authorization "@, self@.1, *response),
    {
        progress::say_response_found("Authorization ", self.authorization_url.as_str(), response)
    }

    /// Goes on with the order.
    pub fn received<'a, K: AccountKey>(
        self,
        account: &Account<'a, K>,
        response: Result<AuthorizationResponse, Error>,
    ) -> (r: Result<PlaceOrder, Error>)
        ensures
            error::result_view(r) == authorization_received(
                account@.jwk,
                self@.0,
                self@.1,
                error::result_view(response),
            ),
            r matches Ok(PlaceOrder::Done(Order::Pending(order))) ==> encoding::encodes_hash(
                order@.dns_txt_record_content,
            ),
    {
        match response {
            Err(err) => Err(err.context("could not get authorization")),
            Ok(AuthorizationResponse::Pending { challenges, .. }) => match find_dns_challenge(
                &challenges,
            ) {
                Some((token, challenge_url)) => {
                    let dns_txt_record_content = acme::dns_txt_record_content(
                        token.as_str(),
                        &account.account_key.as_jwk(),
                    );
                    Ok(
                        PlaceOrder::Done(
                            Order::Pending(
                                OrderPending {
                                    order_url: self.order_url,
                                    authorization_url: self.authorization_url,
                                    challenge_url,
                                    dns_txt_record_content,
                                },
                            ),
                        ),
                    )
                },
                None => Err(Error::new("did not find any pending dns-01 challenges")),
            },
            Ok(_) => Err(Error::new("authorization has unexpected status")),
        }
    }
}

impl MeetChallenge {
    /// How long to wait before the post.
    pub fn retry_after(&self) -> (r: Option<Duration>)
        ensures
            completion::optional_span(r) == self@.2,
    {
        self.retry_after
    }

    /// What is posted: that the challenge is met, and afterwards the question whether it is.
    pub fn post(&self) -> (r: Post)
        ensures
            r@ == (if self@.1 {
                question(self@.0.challenge_url)
            } else {
                PostView {
                    url: self@.0.challenge_url,
                    body: Some(completion::challenge_complete_json()),
                }
            }),
            completion_post(
                CompletionState::Challenge {
                    order: self@.0,
                    answered: self@.1,
                    retry_after: self@.2,
                },
            ) == Some(r@),
    {
        if self.answered {
            return ask(self.order.challenge_url.as_str());
        }
        let fields: Vec<(&str, String)> = Vec::new();
        assert(json::members(fields@) =~= seq![]);
        Post { url: self.order.challenge_url.clone(), body: Some(json::object(&fields)) }
    }

    /// What is said before the post.
    pub fn announcement(&self) -> (r: Option<String>)
        ensures
            text::optional(r) == (if self@.1 {
                progress::waiting(self@.2, " before rechecking challenge..."@)
            } else {
                Some(progress::about("Completing challenge "@, self@.0.challenge_url, " ..."@))
            }),
    {
        if self.answered {
            progress::say_waiting(self.retry_after, " before rechecking challenge...")
        } else {
            Some(progress::say("Completing challenge ", self.order.challenge_url.as_str(), " ..."))
        }
    }

    /// What is said about what the challenge is found to be. Nothing is said of the response to the answer.
    pub fn found(&self, response: &Result<ChallengeResponse, Error>) -> (r: Option<String>)
        ensures
            text::optional(r) == (if self@.1 {
                progress::response_found("Challenge "@, self@.0.challenge_url, *response)
            } else {
                None
            }),
    {
        if self.answered {
            let url = self.order.challenge_url.as_str();
            progress::say_response_found("Challenge ", url, response)
        } else {
            None
        }
    }

    /// Goes on after the post.
    pub fn received(self, response: Result<ChallengeResponse, Error>) -> (r: Result<
        CompleteAuthorization,
        Error,
    >)
        ensures
            error::result_view(r) == challenge_received(
                self@.0,
                self@.1,
                error::result_view(response),
            ),
    {
        let order = self.order;
        if !self.answered {
            return match response {
                Err(err) => Err(err.context("could not complete challenge")),
                Ok(_) => Ok(
                    CompleteAuthorization::Challenge(
                        MeetChallenge { order, answered: true, retry_after: None },
                    ),
                ),
            };
        }
        match response {
            Err(err) => Err(err.context("could not get challenge")),
            Ok(ChallengeResponse::Pending { .. }) => Ok(
                CompleteAuthorization::Challenge(
                    MeetChallenge {
                        order,
                        answered: true,
                        retry_after: Some(Duration::from_secs(1)),
                    },
                ),
            ),
            Ok(ChallengeResponse::Processing { retry_after }) => Ok(
                CompleteAuthorization::Challenge(
                    MeetChallenge { order, answered: true, retry_after: Some(retry_after) },
                ),
            ),
            Ok(ChallengeResponse::Valid) => Ok(
                CompleteAuthorization::Authorization(
                    AwaitAuthorization { order, retry_after: None },
                ),
            ),
            Ok(ChallengeResponse::Invalid { .. }) => Err(
                Error::new("challenge has unexpected status"),
            ),
        }
    }
}

impl AwaitAuthorization {
    /// How long to wait before the authorization is looked at.
    pub fn retry_after(&self) -> (r: Option<Duration>)
        ensures
            completion::optional_span(r) == self@.1,
    {
        self.retry_after
    }

    /// Looks at the authorization.
    pub fn post(&self) -> (r: Post)
        ensures
            r@ == question(self@.0.authorization_url),
            completion_post(
                CompletionState::Authorization { order: self@.0, retry_after: self@.1 },
            ) == Some(r@),
    {
        ask(self.order.authorization_url.as_str())
    }

    /// What is said before the authorization is looked at.
    pub fn announcement(&self) -> (r: String)
        ensures
            r@ == (match progress::waiting(self@.1, " before rechecking authorization..."@) {
                Some(waiting) => waiting,
                None => progress::about(
                    "Waiting for authorization "@,
                    self@.0.authorization_url,
                    " ..."@,
                ),
            }),
    {
        match progress::say_waiting(self.retry_after, " before rechecking authorization...") {
            Some(waiting) => waiting,
            None => progress::say(
                "Waiting for authorization ",
                self.order.authorization_url.as_str(),
                " ...",
            ),
        }
    }

    /// What is said about what the authorization is found to be.
    pub fn found(&self, response: &Result<AuthorizationResponse, Error>) -> (r: Option<String>)
        ensures
            text::optional(r) == progress::response_found(
                "Authorization "@,
                self@.0.authorization_url,
                *response,
            ),
    {
        let url = self.order.authorization_url.as_str();
        progress::say_response_found("Authorization ", url, response)
    }

    /// Goes on after the authorization has been looked at.
    pub fn received(self, response: Result<AuthorizationResponse, Error>) -> (r: Result<
        CompleteAuthorization,
        Error,
    >)
        ensures
            error::result_view(r) == completed_authorization_received(
                self@.0,
                error::result_view(response),
            ),
    {
        match response {
            Err(err) => Err(err.context("could not get authorization")),
            Ok(AuthorizationResponse::Pending { retry_after, .. }) => Ok(
                CompleteAuthorization::Authorization(
                    AwaitAuthorization { order: self.order, retry_after: Some(retry_after) },
                ),
            ),
            Ok(AuthorizationResponse::Valid) => Ok(
                CompleteAuthorization::Done(OrderReady { order_url: self.order.order_url }),
            ),
            Ok(_) => Err(
                Error::new("authorization has unexpected status"),
            ),
        }
    }
}

impl FinalizePoll {
    /// How long to wait before the order is looked at.
    pub fn retry_after(&self) -> (r: Option<Duration>)
        ensures
            completion::optional_span(r) == self@.2,
    {
        self.retry_after
    }

    /// Looks at the order.
    pub fn post(&self) -> (r: Post)
        ensures
            r@ == question(self@.0),
            finalizing_post(
                FinalizeOrderView::Poll {
                    order_url: self@.0,
                    csr: self@.1,
                    retry_after: self@.2,
                },
            ) == Some(r@),
    {
        ask(self.order_url.as_str())
    }

    /// What is said before the order is looked at.
    pub fn announcement(&self) -> (r: Option<String>)
        ensures
            text::optional(r) == progress::waiting(self@.2, " before rechecking order..."@),
    {
        progress::say_waiting(self.retry_after, " before rechecking order...")
    }

    /// What is said about what the order is found to be.
    pub fn found(&self, response: &Result<OrderResponse, Error>) -> (r: Option<String>)
        ensures
            text::optional(r) == progress::response_found("Order "@, self@.0, *response),
    {
        progress::say_response_found("Order ", self.order_url.as_str(), response)
    }

    /// Goes on after the order has been looked at.
    pub fn received(self, response: Result<OrderResponse, Error>) -> (r: Result<
        FinalizeOrder,
        Error,
    >)
        ensures
            error::result_view(r) == finalizing_order_received(
                self@.0,
                self@.1,
                error::result_view(response),
            ),
    {
        let order_url = self.order_url;
        let csr = self.csr;
        match response {
            Err(err) => Err(err.context("could not get order")),
            Ok(OrderResponse::Invalid { .. }) => Err(Error::new("order failed")),
            Ok(OrderResponse::Pending { .. }) => Err(Error::new("order is still pending")),
            Ok(OrderResponse::Processing { retry_after }) => Ok(
                FinalizeOrder::Poll(
                    FinalizePoll { order_url, csr, retry_after: Some(retry_after) },
                ),
            ),
            Ok(OrderResponse::Ready { finalize_url }) => Ok(
                FinalizeOrder::Send(SendCsr { order_url, csr, finalize_url }),
            ),
            Ok(OrderResponse::Valid { certificate_url }) => Ok(
                FinalizeOrder::Done(OrderValid { certificate_url }),
            ),
        }
    }
}

impl SendCsr {
    /// Sends the certificate signing request.
    pub fn post(&self) -> (r: Post)
        ensures
            r@ == (PostView { url: self@.2, body: Some(finalize_json(self@.1)) }),
            finalizing_post(
                FinalizeOrderView::Send {
                    order_url: self@.0,
                    csr: self@.1,
                    finalize_url: self@.2,
                },
            ) == Some(r@),
    {
        let fields = vec![
            ("csr", json::string(encoding::base64url_encode(self.csr.as_slice()).as_str())),
        ];
        assert(json::members(fields@) =~= seq![
            ("csr"@, json::json_string(encoding::base64url(self.csr@))),
        ]);
        Post { url: self.finalize_url.clone(), body: Some(json::object(&fields)) }
    }

    /// Goes on after the certificate signing request has been sent.
    pub fn received(self, response: Result<OrderResponse, Error>) -> (r: Result<
        FinalizeOrder,
        Error,
    >)
        ensures
            error::result_view(r) == csr_received(self@.0, self@.1, error::result_view(response)),
    {
        match response {
            Ok(_) => Ok(
                FinalizeOrder::Poll(
                    FinalizePoll { order_url: self.order_url, csr: self.csr, retry_after: None },
                ),
            ),
            Err(err) => Err(err.context("could not finalize order")),
        }
    }
}

/// A certificate chain.
#[derive(Debug)]
pub struct CertificateResponse {
    pub certificate: String,
}

impl View for CertificateResponse {
    type V = Seq<char>;

    open spec fn view(&self) -> Seq<char> {
        self.certificate@
    }
}

/// The media type of a certificate chain.
pub open spec fn chain_type() -> Seq<u8> {
    utf8::encode_utf8("application/pem-certificate-chain"@)
}

impl FromResponse for CertificateResponse {
    type Content = Vec<u8>;

    open spec fn interpreted(
        status: u16,
        body: Option<ResponseBody<Vec<u8>>>,
        headers: ResponseHeaders,
        now: int,
    ) -> Result<Option<Seq<char>>, Seq<Seq<char>>> {
        match body {
            Some(body) if status == 200 && body.content_type@ == chain_type() =>
                match text::utf8_text(body.content@) {
                Some(certificate) => Ok(Some(certificate)),
                None => Err(error::message("stream did not contain valid UTF-8"@)),
            },
            _ => Ok(None),
        }
    }

    fn from_response(
        status: StatusCode,
        body: Option<ResponseBody<Vec<u8>>>,
        headers: &ResponseHeaders,
        now: i128,
    ) -> (r: Result<Option<CertificateResponse>, Error>) {
        match body {
            Some(body) => {
                if status.as_u16() == 200 && text::bytes_eq(
                    body.content_type.as_bytes(),
                    "application/pem-certificate-chain".as_bytes(),
                ) {
                    match text::from_utf8(body.content.as_slice()) {
                        Some(certificate) => Ok(Some(CertificateResponse { certificate })),
                        None => Err(Error::new("stream did not contain valid UTF-8")),
                    }
                } else {
                    Ok(None)
                }
            },
            None => Ok(None),
        }
    }

    open spec fn reads(status: u16, content_type: Seq<u8>, headers: ResponseHeaders) -> bool {
        status == 200 && content_type == chain_type()
    }

    fn reads_body(
        status: StatusCode,
        content_type: &HeaderValue,
        headers: &ResponseHeaders,
    ) -> (r: bool) {
        status.as_u16() == 200 && text::bytes_eq(
            content_type.as_bytes(),
            "application/pem-certificate-chain".as_bytes(),
        )
    }

    proof fn unread_does_not_matter(
        status: u16,
        content_type: HeaderValue,
        in_one_piece: bool,
        one: Vec<u8>,
        other: Vec<u8>,
        headers: ResponseHeaders,
        now: int,
    ) {
    }
}

/// The certificate chain of an order.
pub fn certificate_received(response: Result<CertificateResponse, Error>) -> (r: Result<
    String,
    Error,
>)
    ensures
        match response {
            Ok(certificate) => r matches Ok(s) && s@ == certificate@,
            Err(err) => r matches Err(e) && e@ == error::in_context(
                "could not download certificate"@,
                err@,
            ),
        },
{
    match response {
        Ok(response) => Ok(response.certificate),
        Err(err) => Err(err.context("could not download certificate")),
    }
}

/// The nonce of a response is the one that the next post carries.
pub proof fn a_nonce_goes_into_the_next_post(
    account: AccountView,
    new_nonce: Seq<u8>,
    post: PostView,
)
    requires
        http_common::are_visible(new_nonce),
    ensures
        ({
            let after = AccountView { nonce: new_nonce, ..account };
            protected_post(after.jwk, Some(after.account_url), after.nonce, post) == Ok::<
                UnsignedView,
                Seq<Seq<char>>,
            >(
                UnsignedView {
                    url: post.url,
                    payload: account::payload(post.body),
                    protected: encoding::base64url(
                        utf8::encode_utf8(
                            account::protected_json(
                                account.jwk,
                                Some(account.account_url),
                                http_common::ascii_text(new_nonce),
                                post.url,
                            ),
                        ),
                    ),
                },
            )
        }),
{
}

/// What a server says about a challenge or an authorization.
pub enum CompletionEvent {
    Challenge(Result<ChallengeState, Seq<Seq<char>>>),
    Authorization(Result<AuthorizationState, Seq<Seq<char>>>),
}

/// What has to be done after the server has said something. What it was not asked about does not count.
pub open spec fn completion_advanced(state: CompletionState, event: CompletionEvent) -> Result<
    CompletionState,
    Seq<Seq<char>>,
> {
    match (state, event) {
        (
            CompletionState::Challenge { order, answered, .. },
            CompletionEvent::Challenge(response),
        ) => challenge_received(order, answered, response),
        (
            CompletionState::Authorization { order, .. },
            CompletionEvent::Authorization(response),
        ) => completed_authorization_received(order, response),
        _ => Ok(state),
    }
}

/// An order becomes ready when the server calls its authorization valid, and only then; the server is
/// asked about the authorization only after it has called the challenge valid, and about the challenge only
/// after it has been told that the challenge is met.
pub proof fn complete_means_valid(state: CompletionState, event: CompletionEvent)
    ensures
        completion_advanced(state, event) matches Ok(next) ==> {
            &&& next is Done && !(state is Done) ==> state is Authorization && event
                == CompletionEvent::Authorization(Ok(AuthorizationState::Valid)) && next
                == (CompletionState::Done { order_url: state->Authorization_order.order_url })
            &&& next is Authorization && !(state is Authorization) ==> {
                &&& state is Challenge
                &&& state->answered
                &&& event == CompletionEvent::Challenge(Ok(ChallengeState::Valid))
            }
            &&& next is Challenge && !(state is Challenge && state->answered) ==> next->answered
                || next == state
        },
        state is Authorization && event == CompletionEvent::Authorization(
            Ok(AuthorizationState::Valid),
        ) ==> completion_advanced(state, event) matches Ok(CompletionState::Done { .. }),
{
}

/// An order counts as finalized when the server calls it valid, and only then, with the URL of its
/// certificate. Its certificate signing request is sent when the server calls the order ready, and only
/// then.
pub proof fn finalized_means_valid(
    order_url: Seq<char>,
    csr: Seq<u8>,
    response: Result<OrderState, Seq<Seq<char>>>,
    certificate_url: Seq<char>,
    finalize_url: Seq<char>,
)
    ensures
        finalizing_order_received(order_url, csr, response) == Ok::<
            FinalizeOrderView,
            Seq<Seq<char>>,
        >(FinalizeOrderView::Done { certificate_url }) <==> response == Ok::<
            OrderState,
            Seq<Seq<char>>,
        >(OrderState::Valid { certificate_url }),
        finalizing_order_received(order_url, csr, response) == Ok::<
            FinalizeOrderView,
            Seq<Seq<char>>,
        >(FinalizeOrderView::Send { order_url, csr, finalize_url }) <==> response == Ok::<
            OrderState,
            Seq<Seq<char>>,
        >(OrderState::Ready { finalize_url }),
{
}

/// The challenge that is met is the first pending one of the type dns-01: if one is found, its token and
/// its URL are those of one and the same challenge, and no challenge before it is such a one. None is found
/// only if there is none.
pub proof fn the_first_dns_challenge_is_met(challenges: Seq<ChallengeObject>)
    ensures
        first_dns_challenge(challenges) matches Some((found_token, found_url)) ==> exists|i: int|
            0 <= i < challenges.len() && (#[trigger] challenges[i] matches ChallengeObject::Pending {
                token,
                kind,
                url,
            } && kind@ == "dns-01"@ && token@ == found_token && url@ == found_url) && forall|j: int|
                0 <= j < i ==> !(#[trigger] challenges[j] matches ChallengeObject::Pending { kind, .. }
                    && kind@ == "dns-01"@),
        first_dns_challenge(challenges) is None ==> forall|i: int|
            0 <= i < challenges.len() ==> !(#[trigger] challenges[i] matches ChallengeObject::Pending {
                kind,
                ..
            } && kind@ == "dns-01"@),
    decreases challenges.len(),
{
    if challenges.len() > 0 {
        let rest = challenges.skip(1);
        if dns_challenge(challenges[0]) is Some {
            let first = challenges[0];
            assert(first matches ChallengeObject::Pending { kind, .. } && kind@ == "dns-01"@);
        } else {
            the_first_dns_challenge_is_met(rest);
            if let Some((found_token, found_url)) = first_dns_challenge(rest) {
                let i = choose|i: int|
                    0 <= i < rest.len() && (#[trigger] rest[i] matches ChallengeObject::Pending {
                        token,
                        kind,
                        url,
                    } && kind@ == "dns-01"@ && token@ == found_token && url@ == found_url) && forall|j: int|
                        0 <= j < i ==> !(#[trigger] rest[j] matches ChallengeObject::Pending { kind, .. }
                            && kind@ == "dns-01"@);
                assert(challenges[i + 1] == rest[i]);
                assert forall|j: int| 0 <= j < i + 1 implies !(
                #[trigger] challenges[j] matches ChallengeObject::Pending { kind, .. } && kind@
                    == "dns-01"@) by {
                    if j > 0 {
                        assert(challenges[j] == rest[j - 1]);
                    }
                }
            } else {
                assert forall|i: int| 0 <= i < challenges.len() implies !(
                #[trigger] challenges[i] matches ChallengeObject::Pending { kind, .. } && kind@
                    == "dns-01"@) by {
                    if i > 0 {
                        assert(challenges[i] == rest[i - 1]);
                    }
                }
            }
        }
    }
}

/// A pending authorization makes its order a pending one, which asks for the answer of the account's key to
/// the token of the first pending challenge of the type dns-01, and whose challenge is that one. There is an
/// error if there is no such challenge, or if the authorization is not pending.
pub proof fn an_authorization_asks_for_its_dns_challenge(
    jwk: JwkView,
    order_url: Seq<char>,
    authorization_url: Seq<char>,
    state: AuthorizationState,
    i: int,
    err: Seq<Seq<char>>,
)
    requires
        state matches AuthorizationState::Pending { challenges, .. } ==> 0 <= i <= challenges.len()
            && forall|j: int|
            0 <= j < i ==> !(#[trigger] challenges[j] matches ChallengeObject::Pending { kind, .. }
                && kind@ == "dns-01"@),
    ensures
        ({
            let next = authorization_received(jwk, order_url, authorization_url, Ok(state));
            match state {
                AuthorizationState::Pending { challenges, .. } => if i < challenges.len() {
                    challenges[i] matches ChallengeObject::Pending { token, kind, url } ==> kind@
                        == "dns-01"@ ==> next == Ok::<PlaceOrderView, Seq<Seq<char>>>(
                        PlaceOrderView::Done(
                            OrderView::Pending(
                                OrderPendingView {
                                    order_url,
                                    authorization_url,
                                    challenge_url: url@,
                                    dns_txt_record_content: acme::challenge_answer(token@, jwk),
                                },
                            ),
                        ),
                    )
                } else {
                    next == Err::<PlaceOrderView, Seq<Seq<char>>>(
                        seq!["did not find any pending dns-01 challenges"@],
                    )
                },
                _ => next == Err::<PlaceOrderView, Seq<Seq<char>>>(
                    seq!["authorization has unexpected status"@],
                ),
            }
        }),
        authorization_received(jwk, order_url, authorization_url, Err(err)) == Err::<
            PlaceOrderView,
            Seq<Seq<char>>,
        >(seq!["could not get authorization"@] + err),
{
    if let AuthorizationState::Pending { challenges, .. } = state {
        lemma_first_dns_challenge(challenges, i);
    }
}

/// The first pending DNS challenge is not among those that are not, and is the one behind them if that is
/// one.
proof fn lemma_first_dns_challenge(challenges: Seq<ChallengeObject>, i: int)
    requires
        0 <= i <= challenges.len(),
        forall|j: int|
            0 <= j < i ==> !(#[trigger] challenges[j] matches ChallengeObject::Pending { kind, .. }
                && kind@ == "dns-01"@),
    ensures
        i == challenges.len() ==> first_dns_challenge(challenges) is None,
        i < challenges.len() ==> (challenges[i] matches ChallengeObject::Pending { token, kind, url }
            ==> kind@ == "dns-01"@ ==> first_dns_challenge(challenges) == Some((token@, url@))),
    decreases i,
{
    if i > 0 {
        let rest = challenges.skip(1);
        assert(!(challenges[0] matches ChallengeObject::Pending { kind, .. } && kind@ == "dns-01"@));
        assert forall|j: int| 0 <= j < i - 1 implies !(
        #[trigger] rest[j] matches ChallengeObject::Pending { kind, .. } && kind@ == "dns-01"@) by {
            assert(rest[j] == challenges[j + 1]);
        }
        lemma_first_dns_challenge(rest, i - 1);
    }
}

/// An order is placed once the server calls it ready or valid, or its one authorization has been looked at;
/// it is looked at again while it is being processed, after as long as the server asks for. An order that
/// has failed, or that has no authorization or more than one, is an error.
pub proof fn an_order_has_one_authorization(
    order_url: Seq<char>,
    state: OrderState,
    err: Seq<Seq<char>>,
)
    ensures
        order_received(order_url, Ok(state)) == match state {
            OrderState::Invalid { .. } => Err::<PlaceOrderView, Seq<Seq<char>>>(seq!["order failed"@]),
            OrderState::Pending { authorization_urls } => if authorization_urls.len() == 1 {
                Ok(
                    PlaceOrderView::Authorize {
                        order_url,
                        authorization_url: authorization_urls.last(),
                    },
                )
            } else if authorization_urls.len() == 0 {
                Err(seq!["no authorizations"@])
            } else {
                Err(seq!["more than one authorization"@])
            },
            OrderState::Processing { retry_after } => Ok(
                PlaceOrderView::Poll { order_url, retry_after: Some(retry_after) },
            ),
            OrderState::Ready { .. } => Ok(PlaceOrderView::Done(OrderView::Ready { order_url })),
            OrderState::Valid { certificate_url } => Ok(
                PlaceOrderView::Done(OrderView::Valid { certificate_url }),
            ),
        },
        order_received(order_url, Err(err)) == Err::<PlaceOrderView, Seq<Seq<char>>>(
            seq!["could not get order"@] + err,
        ),
{
}

/// A challenge is answered once, and then looked at until it is valid: after a second where the server has
/// not taken it up yet, and after as long as the server asks for where it has. The order stays the same.
pub proof fn a_challenge_is_answered_once(
    order: OrderPendingView,
    state: ChallengeState,
    err: Seq<Seq<char>>,
)
    ensures
        completion_started(order) == (CompletionState::Challenge {
            order,
            answered: false,
            retry_after: None,
        }),
        challenge_received(order, false, Ok(state)) == Ok::<CompletionState, Seq<Seq<char>>>(
            CompletionState::Challenge { order, answered: true, retry_after: None },
        ),
        challenge_received(order, true, Ok(state)) == match state {
            ChallengeState::Invalid { .. } => Err::<CompletionState, Seq<Seq<char>>>(
                seq!["challenge has unexpected status"@],
            ),
            ChallengeState::Pending { .. } => Ok(
                CompletionState::Challenge {
                    order,
                    answered: true,
                    retry_after: Some(1_000_000_000),
                },
            ),
            ChallengeState::Processing { retry_after } => Ok(
                CompletionState::Challenge { order, answered: true, retry_after: Some(retry_after) },
            ),
            ChallengeState::Valid => Ok(CompletionState::Authorization { order, retry_after: None }),
        },
        challenge_received(order, false, Err(err)) == Err::<CompletionState, Seq<Seq<char>>>(
            seq!["could not complete challenge"@] + err,
        ),
        challenge_received(order, true, Err(err)) == Err::<CompletionState, Seq<Seq<char>>>(
            seq!["could not get challenge"@] + err,
        ),
{
}

/// An authorization whose challenge has been met is waited for as long as the server asks for, until it is
/// valid. Then its order is ready. Any other status is an error.
pub proof fn an_authorization_is_waited_for(
    order: OrderPendingView,
    state: AuthorizationState,
    err: Seq<Seq<char>>,
)
    ensures
        completed_authorization_received(order, Ok(state)) == match state {
            AuthorizationState::Pending { retry_after, .. } => Ok::<CompletionState, Seq<Seq<char>>>(
                CompletionState::Authorization { order, retry_after: Some(retry_after) },
            ),
            AuthorizationState::Valid => Ok(CompletionState::Done { order_url: order.order_url }),
            _ => Err(seq!["authorization has unexpected status"@]),
        },
        completed_authorization_received(order, Err(err)) == Err::<CompletionState, Seq<Seq<char>>>(
            seq!["could not get authorization"@] + err,
        ),
{
}

/// An order that is being finalized keeps its signing request until it is valid: it is looked at first and
/// again after the request has been sent, without a wait, and as long as it is being processed, after as
/// long as the server asks for. An order that has failed, or that is still pending, is an error.
pub proof fn an_order_is_looked_at_until_it_is_valid(
    order_url: Seq<char>,
    csr: Seq<u8>,
    state: OrderState,
    err: Seq<Seq<char>>,
)
    ensures
        finalizing_started(order_url, csr) == (FinalizeOrderView::Poll {
            order_url,
            csr,
            retry_after: None,
        }),
        finalizing_order_received(order_url, csr, Ok(state)) == match state {
            OrderState::Invalid { .. } => Err::<FinalizeOrderView, Seq<Seq<char>>>(seq!["order failed"@]),
            OrderState::Pending { .. } => Err(seq!["order is still pending"@]),
            OrderState::Processing { retry_after } => Ok(
                FinalizeOrderView::Poll { order_url, csr, retry_after: Some(retry_after) },
            ),
            OrderState::Ready { finalize_url } => Ok(
                FinalizeOrderView::Send { order_url, csr, finalize_url },
            ),
            OrderState::Valid { certificate_url } => Ok(FinalizeOrderView::Done { certificate_url }),
        },
        finalizing_order_received(order_url, csr, Err(err)) == Err::<FinalizeOrderView, Seq<Seq<char>>>(
            seq!["could not get order"@] + err,
        ),
        csr_received(order_url, csr, Ok(state)) == Ok::<FinalizeOrderView, Seq<Seq<char>>>(
            FinalizeOrderView::Poll { order_url, csr, retry_after: None },
        ),
        csr_received(order_url, csr, Err(err)) == Err::<FinalizeOrderView, Seq<Seq<char>>>(
            seq!["could not finalize order"@] + err,
        ),
{
}

/// A signing request is sent as all of its bytes, in base64, and as nothing else.
pub proof fn the_whole_request_is_sent(csr: Seq<u8>)
    ensures
        finalize_json(csr) == seq!['{'] + json::json_string("csr"@) + seq![':'] + json::json_string(
            encoding::base64url(csr),
        ) + seq!['}'],
{
    json::an_object_grows_by_its_members(
        seq![],
        "csr"@,
        json::json_string(encoding::base64url(csr)),
    );
}

/// An account is opened with its key as the signer, once there is a nonce, which is fetched first where the
/// directory came without one.
pub proof fn an_account_is_opened_with_its_key(opening: OpeningView)
    ensures
        match opening.nonce {
            None => match http_common::uri_text(utf8::encode_utf8(opening.directory.new_nonce_url)) {
                Ok(uri) => open_step(opening) matches Ok(OpenStepView::FetchNonce(request))
                    && request.method == Method::Get && request.uri == uri && request.headers.len() == 0
                    && request.body.len() == 0,
                Err(err) => open_step(opening) == Err::<OpenStepView, Seq<Seq<char>>>(
                    seq!["could not get initial nonce"@, "could not parse request URI"@, err],
                ),
            },
            Some(nonce) => match account::protection(
                opening.jwk,
                None,
                nonce,
                opening.directory.new_account_url,
            ) {
                Ok(protected) => open_step(opening) matches Ok(OpenStepView::Post(unsigned))
                    && unsigned.url == opening.directory.new_account_url && unsigned.payload
                    == encoding::base64url(
                    utf8::encode_utf8(account::new_account_json(opening.acme_contact_url)),
                ) && unsigned.protected == protected,
                Err(err) => open_step(opening) == Err::<OpenStepView, Seq<Seq<char>>>(
                    seq!["could not create / get account"@] + err,
                ),
            },
        },
{
    if opening.nonce is None {
        if let Err(err) = http_common::uri_text(utf8::encode_utf8(opening.directory.new_nonce_url)) {
            assert(open_step(opening)->Err_0 =~= seq![
                "could not get initial nonce"@,
                "could not parse request URI"@,
                err,
            ]);
        }
    }
}

/// An account is open if and only if the server calls it valid and gives a nonce with that; it then has the
/// URL that the server has put it at, and that nonce.
pub proof fn only_a_valid_account_is_open(
    status: Seq<char>,
    account_url: Seq<char>,
    nonce: Option<Seq<u8>>,
    err: Seq<Seq<char>>,
)
    ensures
        account_opened(Ok(((status, account_url), nonce))) == match nonce {
            Some(nonce) => if status == "valid"@ {
                Ok::<(Seq<char>, Seq<u8>), Seq<Seq<char>>>((account_url, nonce))
            } else {
                Err(seq!["Account has "@ + status + " status"@])
            },
            None => Err(seq!["could not create / get account"@, "server did not return new nonce"@]),
        },
        account_opened(Err(err)) == Err::<(Seq<char>, Seq<u8>), Seq<Seq<char>>>(
            seq!["could not create / get account"@, "could not execute HTTP request"@] + err,
        ),
{
}

/// A post goes out with its body in base64, or with nothing where it has none, under the protection of the
/// account's key, its nonce and its URL, and by a request to that URL.
pub proof fn a_post_carries_its_body_to_its_url(
    jwk: JwkView,
    account_url: Option<Seq<char>>,
    nonce: Seq<u8>,
    post: PostView,
    unsigned: UnsignedView,
    signature: Seq<char>,
)
    ensures
        match account::protection(jwk, account_url, nonce, post.url) {
            Ok(protected) => protected_post(jwk, account_url, nonce, post) matches Ok(unsigned)
                && unsigned.url == post.url && unsigned.protected == protected
                && unsigned.payload == match post.body {
                Some(body) => encoding::base64url(utf8::encode_utf8(body)),
                None => seq![],
            },
            Err(err) => protected_post(jwk, account_url, nonce, post) == Err::<
                UnsignedView,
                Seq<Seq<char>>,
            >(err),
        },
        match http_common::uri_text(utf8::encode_utf8(unsigned.url)) {
            Ok(uri) => signed_request(unsigned, signature) matches Ok(request) && request.method
                == Method::Post && request.uri == uri && request.body == utf8::encode_utf8(
                account::signed_body(unsigned, signature),
            ) && request.headers == seq![
                ("content-type"@, utf8::encode_utf8("application/jose+json"@)),
            ],
            Err(err) => signed_request(unsigned, signature) == Err::<RequestView, Seq<Seq<char>>>(
                seq!["could not parse request URI"@, err],
            ),
        },
{
    if let Err(err) = http_common::uri_text(utf8::encode_utf8(unsigned.url)) {
        assert(signed_request(unsigned, signature)->Err_0 =~= seq!["could not parse request URI"@, err]);
    }
}

/// What the server says in JSON comes out as it is, from a response with a status that means success.
pub proof fn states_are_as_the_server_says(
    status: u16,
    order: ResponseBody<Result<OrderObject, String>>,
    challenge: ResponseBody<Result<ChallengeObject, String>>,
    authorization: ResponseBody<Result<AuthorizationObject, String>>,
    headers: ResponseHeaders,
    now: int,
)
    requires
        http_common::is_json(order.content_type@),
        http_common::is_json(challenge.content_type@),
        http_common::is_json(authorization.content_type@),
    ensures
        ({
            let read = OrderResponse::interpreted(status, Some(order), headers, now);
            if status == 200 || status == 201 {
                match order.content {
                    Ok(OrderObject::Invalid { body }) => read == Ok::<Option<OrderState>, Seq<Seq<char>>>(
                        Some(OrderState::Invalid { body: body@ }),
                    ),
                    Ok(OrderObject::Pending { authorization_urls }) => read matches Ok(
                        Some(OrderState::Pending { authorization_urls: urls }),
                    ) && urls.len() == authorization_urls@.len() && forall|i: int|
                        0 <= i < urls.len() ==> #[trigger] urls[i] == authorization_urls@[i]@,
                    Ok(OrderObject::Processing) => match order::wait_of(headers, now) {
                        Ok(retry_after) => read == Ok::<Option<OrderState>, Seq<Seq<char>>>(
                            Some(OrderState::Processing { retry_after }),
                        ),
                        Err(err) => read == Err::<Option<OrderState>, Seq<Seq<char>>>(err),
                    },
                    Ok(OrderObject::Ready { finalize_url }) => read == Ok::<
                        Option<OrderState>,
                        Seq<Seq<char>>,
                    >(Some(OrderState::Ready { finalize_url: finalize_url@ })),
                    Ok(OrderObject::Valid { certificate_url }) => read == Ok::<
                        Option<OrderState>,
                        Seq<Seq<char>>,
                    >(Some(OrderState::Valid { certificate_url: certificate_url@ })),
                    Err(_) => read is Err,
                }
            } else {
                read == Ok::<Option<OrderState>, Seq<Seq<char>>>(None)
            }
        }),
        ({
            let read = ChallengeResponse::interpreted(status, Some(challenge), headers, now);
            if status == 200 {
                match challenge.content {
                    Ok(ChallengeObject::Invalid { body }) => read == Ok::<
                        Option<ChallengeState>,
                        Seq<Seq<char>>,
                    >(Some(ChallengeState::Invalid { body: body@ })),
                    Ok(ChallengeObject::Pending { token, kind, url }) => read == Ok::<
                        Option<ChallengeState>,
                        Seq<Seq<char>>,
                    >(Some(ChallengeState::Pending { token: token@, kind: kind@, url: url@ })),
                    Ok(ChallengeObject::Processing) => match order::wait_of(headers, now) {
                        Ok(retry_after) => read == Ok::<Option<ChallengeState>, Seq<Seq<char>>>(
                            Some(ChallengeState::Processing { retry_after }),
                        ),
                        Err(err) => read == Err::<Option<ChallengeState>, Seq<Seq<char>>>(err),
                    },
                    Ok(ChallengeObject::Valid) => read == Ok::<Option<ChallengeState>, Seq<Seq<char>>>(
                        Some(ChallengeState::Valid),
                    ),
                    Err(_) => read is Err,
                }
            } else {
                read == Ok::<Option<ChallengeState>, Seq<Seq<char>>>(None)
            }
        }),
        ({
            let read = AuthorizationResponse::interpreted(status, Some(authorization), headers, now);
            if status == 200 {
                match authorization.content {
                    Ok(AuthorizationObject::Pending { challenges }) => match order::wait_of(headers, now) {
                        Ok(retry_after) => read == Ok::<Option<AuthorizationState>, Seq<Seq<char>>>(
                            Some(
                                AuthorizationState::Pending { challenges: challenges@, retry_after },
                            ),
                        ),
                        Err(err) => read == Err::<Option<AuthorizationState>, Seq<Seq<char>>>(err),
                    },
                    Ok(AuthorizationObject::Valid) => read matches Ok(Some(AuthorizationState::Valid)),
                    Ok(AuthorizationObject::Deactivated) => read matches Ok(
                        Some(AuthorizationState::Deactivated),
                    ),
                    Ok(AuthorizationObject::Expired) => read matches Ok(Some(AuthorizationState::Expired)),
                    Ok(AuthorizationObject::Invalid) => read matches Ok(Some(AuthorizationState::Invalid)),
                    Ok(AuthorizationObject::Revoked) => read matches Ok(Some(AuthorizationState::Revoked)),
                    Err(_) => read is Err,
                }
            } else {
                read == Ok::<Option<AuthorizationState>, Seq<Seq<char>>>(None)
            }
        }),
{
}

/// A nonce comes with the status 204, a directory with 200, and an account with 200 or 201; a certificate
/// chain comes with 200, as such a chain, and is the text that its bytes are. Anything else is no answer.
pub proof fn answers_are_taken_from_successes(
    status: u16,
    nothing: Option<ResponseBody<()>>,
    directory: Option<ResponseBody<Result<DirectoryResponse, String>>>,
    account: Option<ResponseBody<Result<NewAccountResponse, String>>>,
    chain: ResponseBody<Vec<u8>>,
    headers: ResponseHeaders,
    now: int,
)
    ensures
        NewNonceResponse::interpreted(status, nothing, headers, now) == Ok::<Option<()>, Seq<Seq<char>>>(
            if status == 204 {
                Some(())
            } else {
                None
            },
        ),
        status != 200 ==> DirectoryResponse::interpreted(status, directory, headers, now) == Ok::<
            Option<DirectoryView>,
            Seq<Seq<char>>,
        >(None),
        status == 200 ==> DirectoryResponse::interpreted(status, directory, headers, now)
            == http_common::viewed(http_common::guarded_json_if(true, directory)),
        status != 200 && status != 201 ==> NewAccountResponse::interpreted(status, account, headers, now)
            == Ok::<Option<Seq<char>>, Seq<Seq<char>>>(None),
        status == 200 || status == 201 ==> NewAccountResponse::interpreted(status, account, headers, now)
            == http_common::viewed(http_common::guarded_json_if(true, account)),
        CertificateResponse::interpreted(status, Some(chain), headers, now) == if status == 200
            && chain.content_type@ == utf8::encode_utf8("application/pem-certificate-chain"@) {
            match text::utf8_text(chain.content@) {
                Some(text) => Ok::<Option<Seq<char>>, Seq<Seq<char>>>(Some(text)),
                None => Err(seq!["stream did not contain valid UTF-8"@]),
            }
        } else {
            Ok(None)
        },
{
}

/// A challenge is posted to at its own URL, with an empty object the first time and with nothing from then
/// on, and an authorization is asked at its own URL. Nothing is posted once the order is ready.
pub proof fn each_challenge_is_posted_to_at_its_url(
    order: OrderPendingView,
    order_url: Seq<char>,
    retry_after: Option<nat>,
)
    ensures
        completion_post(CompletionState::Challenge { order, answered: false, retry_after }) == Some(
            PostView { url: order.challenge_url, body: Some(seq!['{', '}']) },
        ),
        completion_post(CompletionState::Challenge { order, answered: true, retry_after }) == Some(
            PostView { url: order.challenge_url, body: None },
        ),
        completion_post(CompletionState::Authorization { order, retry_after }) == Some(
            PostView { url: order.authorization_url, body: None },
        ),
        completion_post(CompletionState::Done { order_url }) is None,
        question(order_url) == (PostView { url: order_url, body: None }),
{
    completion::a_challenge_is_answered_with_nothing();
}

/// An order that is being finalized is asked at its own URL, and its signing request is posted to the URL
/// that the server gave for it, as all of its bytes in base64. Nothing is posted once it has been finalized.
pub proof fn the_request_is_posted_where_the_server_says(
    order_url: Seq<char>,
    csr: Seq<u8>,
    finalize_url: Seq<char>,
    certificate_url: Seq<char>,
    retry_after: Option<nat>,
)
    ensures
        finalizing_post(FinalizeOrderView::Poll { order_url, csr, retry_after }) == Some(
            PostView { url: order_url, body: None },
        ),
        finalizing_post(FinalizeOrderView::Send { order_url, csr, finalize_url }) == Some(
            PostView {
                url: finalize_url,
                body: Some(
                    seq!['{'] + json::json_string("csr"@) + seq![':'] + json::json_string(
                        encoding::base64url(csr),
                    ) + seq!['}'],
                ),
            },
        ),
        finalizing_post(FinalizeOrderView::Done { certificate_url }) is None,
{
    the_whole_request_is_sent(csr);
}

/// A request that only asks goes to its URL, with neither headers nor a body.
pub proof fn a_question_goes_to_its_url(url: Seq<char>)
    ensures
        match http_common::uri_text(utf8::encode_utf8(url)) {
            Ok(uri) => get_request(url) matches Ok(request) && request.method == Method::Get && request.uri
                == uri && request.headers.len() == 0 && request.body.len() == 0 && !request.streamed,
            Err(err) => get_request(url) == Err::<RequestView, Seq<Seq<char>>>(
                seq!["could not parse request URI"@, err],
            ),
        },
{
    if let Err(err) = http_common::uri_text(utf8::encode_utf8(url)) {
        assert(get_request(url)->Err_0 =~= seq!["could not parse request URI"@, err]);
    }
}

/// The body of a response counts where its status and its media type are the expected ones.
pub proof fn bodies_count_where_they_are_expected(status: u16, content_type: Seq<u8>, headers: ResponseHeaders)
    ensures
        <DirectoryResponse as FromResponse>::reads(status, content_type, headers)
            <==> status == 200 && http_common::is_json(content_type),
        <NewNonceResponse as FromResponse>::reads(status, content_type, headers) <==> false,
        <NewAccountResponse as FromResponse>::reads(status, content_type, headers)
            <==> (status == 200 || status == 201) && http_common::is_json(content_type),
        <OrderResponse as FromResponse>::reads(status, content_type, headers)
            <==> (status == 200 || status == 201) && http_common::is_json(content_type),
        <ChallengeResponse as FromResponse>::reads(status, content_type, headers)
            <==> status == 200 && http_common::is_json(content_type),
        <AuthorizationResponse as FromResponse>::reads(status, content_type, headers)
            <==> status == 200 && http_common::is_json(content_type),
        <CertificateResponse as FromResponse>::reads(status, content_type, headers)
            <==> status == 200 && content_type
            == utf8::encode_utf8("application/pem-certificate-chain"@),
{
}

} // verus!
