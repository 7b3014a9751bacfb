//! The Azure APIs: requests that carry an authorization.

use vstd::prelude::*;
use vstd::utf8;

use crate::error;
use crate::error::Error;
use crate::http_common;
use crate::http_common::{
    HeaderValue, Method, Request, RequestBody, RequestView, Uri,
};
use crate::log2::{Scope, ScopeView, Secret};
use crate::text;

pub mod account;
pub mod auth;
pub mod cdn;
pub mod dns;
pub mod key_vault;
pub mod log_analytics;
pub mod management;

pub use account::Account;
pub use auth::Auth;

use auth::AuthView;

verus! {

/// A client of one of the APIs.
pub trait Client: Sized {
    /// What the API calls itself when an authorization is asked for.
    spec fn resource() -> Seq<char>;

    /// The URL of something that the API offers.
    spec fn url_of(&self, path_and_query: Seq<char>) -> Result<Seq<char>, Seq<Seq<char>>>;

    /// Who the client authorizes itself as, and the name of its HTTP client.
    spec fn parameters(&self) -> (AuthView, Seq<u8>);

    /// The authorization that the client has obtained already.
    spec fn cached(&self) -> Option<Seq<u8>>;

    /// Whether the client is `other` but for its authorization.
    spec fn same_but_authorization(&self, other: Self) -> bool;

    /// What the API calls itself when an authorization is asked for.
    fn auth_resource() -> (r: &'static str)
        ensures
            r@ == Self::resource(),
    ;

    /// The URL of something that the API offers.
    fn make_url(&self, path_and_query: &str) -> (r: Result<Uri, Error>)
        ensures
            error::result_view(r) == self.url_of(path_and_query@),
    ;

    /// Who the client authorizes itself as, and its HTTP client.
    fn request_parameters(&self) -> (r: (&Auth, &http_common::Client))
        ensures
            (r.0@, r.1@) == self.parameters(),
    ;

    /// The authorization that the client has obtained already.
    fn cached_authorization(&self) -> (r: Option<HeaderValue>)
        ensures
            http_common::header_view(r) == self.cached(),
    ;

    /// Keeps an authorization for the requests to come, unless the client has one already.
    fn set_authorization(&mut self, authorization: HeaderValue)
        ensures
            final(self).cached() == authorization_kept(old(self).cached(), Ok(authorization@)),
            final(self).same_but_authorization(*old(self)),
    ;
}

/// Where a request goes: to something that the API of the client offers, or to a URI.
#[derive(Debug)]
pub enum Url {
    PathAndQuery(String),
    Uri(Uri),
}

/// Where a request goes.
pub enum UrlView {
    PathAndQuery(Seq<char>),
    Uri(Seq<char>),
}

impl View for Url {
    type V = UrlView;

    open spec fn view(&self) -> UrlView {
        match self {
            Url::PathAndQuery(path_and_query) => UrlView::PathAndQuery(path_and_query@),
            Url::Uri(uri) => UrlView::Uri(uri@),
        }
    }
}

/// Something that is asked of an API: the object and the operation that are reported, and the
/// request.
#[derive(Debug)]
pub struct Call {
    pub scope: Scope,
    pub method: Method,
    pub url: Url,
    /// A JSON text.
    pub body: Option<String>,
}

/// Something that is asked of an API.
#[verifier::ext_equal]
pub struct CallView {
    pub scope: ScopeView,
    pub method: Method,
    pub url: UrlView,
    pub body: Option<Seq<char>>,
}

impl View for Call {
    type V = CallView;

    open spec fn view(&self) -> CallView {
        CallView {
            scope: self.scope@,
            method: self.method,
            url: self.url@,
            body: text::optional(self.body),
        }
    }
}

/// A request that waits for an authorization.
#[derive(Debug)]
pub struct PendingRequest {
    method: Method,
    uri: Uri,
    body: Option<String>,
}

/// A request that waits for an authorization.
#[verifier::ext_equal]
pub struct PendingRequestView {
    pub method: Method,
    pub uri: Seq<char>,
    pub body: Option<Seq<char>>,
}

impl View for PendingRequest {
    type V = PendingRequestView;

    closed spec fn view(&self) -> PendingRequestView {
        PendingRequestView {
            method: self.method,
            uri: self.uri@,
            body: text::optional(self.body),
        }
    }
}

/// What a request needs next.
#[derive(Debug)]
pub enum RequestStep {
    /// An authorization.
    Authorize(PendingRequest),
    /// Nothing: it can be sent.
    Send(Request),
}

/// What a request needs next.
pub enum RequestStepView {
    Authorize(PendingRequestView),
    Send(RequestView),
}

impl View for RequestStep {
    type V = RequestStepView;

    open spec fn view(&self) -> RequestStepView {
        match self {
            RequestStep::Authorize(pending) => RequestStepView::Authorize(pending@),
            RequestStep::Send(request) => RequestStepView::Send(request@),
        }
    }
}

/// The media type of JSON.
pub open spec fn application_json() -> Seq<u8> {
    utf8::encode_utf8("application/json"@)
}

/// A request with its authorization. One that has no body and does not only ask carries `null`, and
/// says that it carries nothing.
pub open spec fn authorized_request(
    pending: PendingRequestView,
    authorization: Seq<u8>,
) -> RequestView {
    let authorization = ("authorization"@, authorization);
    let bare = http_common::bare_request(pending.method, pending.uri);
    match pending.body {
        Some(body) => RequestView {
            headers: seq![("content-type"@, application_json()), authorization],
            body: utf8::encode_utf8(body),
            ..bare
        },
        None => if pending.method == Method::Get {
            RequestView { headers: seq![authorization], ..bare }
        } else {
            RequestView {
                headers: seq![
                    ("content-length"@, utf8::encode_utf8(text::decimal(0))),
                    authorization,
                ],
                body: utf8::encode_utf8("null"@),
                ..bare
            }
        },
    }
}

/// The URL that a request goes to.
pub open spec fn resolved<C: Client>(client: C, url: UrlView) -> Result<
    Seq<char>,
    Seq<Seq<char>>,
> {
    match url {
        UrlView::PathAndQuery(path_and_query) => client.url_of(path_and_query),
        UrlView::Uri(uri) => Ok(uri),
    }
}

/// What a request needs when it looks at the authorization that its client has.
pub open spec fn request_looked(
    cached: Option<Seq<u8>>,
    pending: PendingRequestView,
) -> RequestStepView {
    match cached {
        Some(authorization) => RequestStepView::Send(authorized_request(pending, authorization)),
        None => RequestStepView::Authorize(pending),
    }
}

/// What a request needs first.
pub open spec fn request_started<C: Client>(
    client: C,
    method: Method,
    url: UrlView,
    body: Option<Seq<char>>,
) -> Result<RequestStepView, Seq<Seq<char>>> {
    match resolved(client, url) {
        Err(err) => Err(err),
        Ok(uri) => Ok(request_looked(client.cached(), PendingRequestView { method, uri, body })),
    }
}

/// The authorization that a client has when the answer of somebody who asked for one has arrived.
pub open spec fn authorization_kept(
    cached: Option<Seq<u8>>,
    arrived: Result<Seq<u8>, Seq<Seq<char>>>,
) -> Option<Seq<u8>> {
    match (cached, arrived) {
        (Some(kept), _) => Some(kept),
        (None, Ok(authorization)) => Some(authorization),
        (None, Err(_)) => None,
    }
}

/// What comes of a request when the authorization that was asked for has arrived.
pub open spec fn request_authorized(
    cached: Option<Seq<u8>>,
    pending: PendingRequestView,
    arrived: Result<Seq<u8>, Seq<Seq<char>>>,
) -> Result<RequestView, Seq<Seq<char>>> {
    match (cached, arrived) {
        (Some(kept), _) => Ok(authorized_request(pending, kept)),
        (None, Ok(authorization)) => Ok(authorized_request(pending, authorization)),
        (None, Err(err)) => Err(error::in_context("could not get API authorization"@, err)),
    }
}

/// The authorization that a client has after several answers have arrived, one after another.
pub open spec fn authorization_kept_after(
    cached: Option<Seq<u8>>,
    arrived: Seq<Result<Seq<u8>, Seq<Seq<char>>>>,
) -> Option<Seq<u8>>
    decreases arrived.len(),
{
    if arrived.len() == 0 {
        cached
    } else {
        authorization_kept(authorization_kept_after(cached, arrived.drop_last()), arrived.last())
    }
}

/// How many of some requests ask for an authorization and get one, where each looks at what the
/// client has, and asks, before the next one looks. `answers` holds, for each of the requests, what
/// it is answered if it asks.
pub open spec fn successful_askings(
    cached: Option<Seq<u8>>,
    answers: Seq<Result<Seq<u8>, Seq<Seq<char>>>>,
) -> nat
    decreases answers.len(),
{
    if answers.len() == 0 {
        0
    } else {
        let before = answers.drop_last();
        let asks = authorization_kept_after(cached, before) is None;
        successful_askings(cached, before) + if asks && answers.last() is Ok {
            1nat
        } else {
            0nat
        }
    }
}

/// The URL at an authority, or what is wrong with it.
pub open spec fn api_url(authority: Seq<char>, path_and_query: Seq<char>) -> Result<
    Seq<char>,
    Seq<Seq<char>>,
> {
    match http_common::https_uri_text(authority, path_and_query) {
        Ok(uri) => Ok(uri),
        Err(err) => Err(
            error::in_context("could not parse request URL"@, error::message(err)),
        ),
    }
}

/// Makes the URL at an authority.
pub fn make_api_url(authority: &str, path_and_query: &str) -> (r: Result<Uri, Error>)
    ensures
        error::result_view(r) == api_url(authority@, path_and_query@),
        r matches Ok(uri) ==> text::has_prefix(uri@, "https://"@ + authority@),
{
    match Uri::https(authority, path_and_query) {
        Ok(uri) => Ok(uri),
        Err(err) => Err(err.context("could not parse request URL")),
    }
}

/// Puts the authorization on a request.
fn authorize(pending: PendingRequest, authorization: HeaderValue) -> (r: Request)
    ensures
        r@ == authorized_request(pending@, authorization@),
{
    let ghost expected = authorized_request(pending@, authorization@);
    let mut request = match pending.body {
        Some(body) => {
            proof {
                reveal_strlit("application/json");
            }
            let mut request = Request::new(
                pending.method,
                pending.uri,
                RequestBody::from_bytes(text::bytes_of(body.as_str())),
            );
            request.push_header("content-type", HeaderValue::from_static("application/json"));
            request
        },
        None => {
            let is_get = match pending.method {
                Method::Get => true,
                _ => false,
            };
            if is_get {
                Request::new(pending.method, pending.uri, RequestBody::default())
            } else {
                let mut request = Request::new(
                    pending.method,
                    pending.uri,
                    RequestBody::from_bytes(text::bytes_of("null")),
                );
                request.push_header("content-length", HeaderValue::from_number(0));
                request
            }
        },
    };
    request.push_header("authorization", authorization);
    assert(request@.headers =~= expected.headers);
    assert(request@ =~= expected);
    request
}

/// Starts a request.
pub fn request<C: Client>(client: &C, method: Method, url: Url, body: Option<String>) -> (r: Result<
    RequestStep,
    Error,
>)
    ensures
        error::result_view(r) == request_started(*client, method, url@, text::optional(body)),
{
    let uri = match url {
        Url::PathAndQuery(path_and_query) => match client.make_url(path_and_query.as_str()) {
            Ok(uri) => uri,
            Err(err) => {
                return Err(err);
            },
        },
        Url::Uri(uri) => uri,
    };
    Ok(resume(client, PendingRequest { method, uri, body }))
}

/// Looks again at the authorization that the client has, for a request that found none and has
/// waited for its turn to ask: another request may have obtained one meanwhile.
pub fn resume<C: Client>(client: &C, pending: PendingRequest) -> (r: RequestStep)
    ensures
        r@ == request_looked(client.cached(), pending@),
{
    match client.cached_authorization() {
        Some(authorization) => RequestStep::Send(authorize(pending, authorization)),
        None => RequestStep::Authorize(pending),
    }
}

/// Goes on with a request that was waiting for an authorization. The client keeps the authorization
/// for the requests to come, unless it has one already, which then serves this request too.
pub fn authorized<C: Client>(
    client: &mut C,
    pending: PendingRequest,
    authorization: Result<Secret<HeaderValue>, Error>,
) -> (r: Result<Request, Error>)
    ensures
        error::result_view(r) == request_authorized(
            old(client).cached(),
            pending@,
            error::result_view(authorization),
        ),
        final(client).cached() == authorization_kept(
            old(client).cached(),
            error::result_view(authorization),
        ),
        match (old(client).cached(), authorization) {
            (None, Ok(_)) => final(client).same_but_authorization(*old(client)),
            _ => *final(client) == *old(client),
        },
{
    if let Some(kept) = client.cached_authorization() {
        return Ok(authorize(pending, kept));
    }
    match authorization {
        Ok(Secret(authorization)) => {
            client.set_authorization(authorization.clone());
            Ok(authorize(pending, authorization))
        },
        Err(err) => Err(err.context("could not get API authorization")),
    }
}

/// A client that has an authorization puts it on every request, and asks for no other: neither when
/// a request starts, nor when one that found none looks again. Whatever arrives after that, for
/// requests that had asked before, the client keeps the one that it has, and these requests carry
/// it too.
pub proof fn an_authorization_is_kept<C: Client>(
    client: C,
    authorization: Seq<u8>,
    method: Method,
    url: UrlView,
    body: Option<Seq<char>>,
    pending: PendingRequestView,
    arrived: Seq<Result<Seq<u8>, Seq<Seq<char>>>>,
)
    requires
        client.cached() == Some(authorization),
    ensures
        match resolved(client, url) {
            Ok(uri) => request_started(client, method, url, body) == Ok::<
                RequestStepView,
                Seq<Seq<char>>,
            >(
                RequestStepView::Send(
                    authorized_request(PendingRequestView { method, uri, body }, authorization),
                ),
            ),
            Err(err) => request_started(client, method, url, body) == Err::<
                RequestStepView,
                Seq<Seq<char>>,
            >(err),
        },
        request_looked(client.cached(), pending) == RequestStepView::Send(
            authorized_request(pending, authorization),
        ),
        authorization_kept_after(client.cached(), arrived) == Some(authorization),
        forall|answer: Result<Seq<u8>, Seq<Seq<char>>>| #[trigger]
            request_authorized(client.cached(), pending, answer) == Ok::<
                RequestView,
                Seq<Seq<char>>,
            >(authorized_request(pending, authorization)),
    decreases arrived.len(),
{
    if arrived.len() > 0 {
        an_authorization_is_kept(
            client,
            authorization,
            method,
            url,
            body,
            pending,
            arrived.drop_last(),
        );
    }
}

/// However many requests go through a client, asking for an authorization succeeds at most once,
/// where each looks at what the client has, and asks, before the next one looks. It does not succeed
/// at all where the client has an authorization from the start. Once it has succeeded, the client
/// has an authorization.
pub proof fn asking_succeeds_at_most_once(
    cached: Option<Seq<u8>>,
    answers: Seq<Result<Seq<u8>, Seq<Seq<char>>>>,
)
    ensures
        successful_askings(cached, answers) <= 1,
        cached is Some ==> successful_askings(cached, answers) == 0,
        authorization_kept_after(cached, answers) is Some <==> cached is Some
            || successful_askings(cached, answers) == 1,
        cached is Some ==> authorization_kept_after(cached, answers) == cached,
    decreases answers.len(),
{
    if answers.len() > 0 {
        asking_succeeds_at_most_once(cached, answers.drop_last());
    }
}

/// A request that waited for an authorization carries the one that its client has when the answer has
/// arrived. It is not sent where the client has none: then the client had none before, and the asking
/// has failed.
pub proof fn a_request_carries_what_is_kept(
    cached: Option<Seq<u8>>,
    pending: PendingRequestView,
    arrived: Result<Seq<u8>, Seq<Seq<char>>>,
)
    ensures
        match authorization_kept(cached, arrived) {
            Some(authorization) => request_authorized(cached, pending, arrived) == Ok::<
                RequestView,
                Seq<Seq<char>>,
            >(authorized_request(pending, authorization)),
            None => request_authorized(cached, pending, arrived) is Err && cached is None
                && arrived is Err,
        },
{
}

/// Every request carries its authorization.
pub proof fn every_request_is_authorized(pending: PendingRequestView, authorization: Seq<u8>)
    ensures
        authorized_request(pending, authorization).headers.last() == ("authorization"@, authorization),
        authorized_request(pending, authorization).method == pending.method,
        authorized_request(pending, authorization).uri == pending.uri,
{
}

/// A request goes out as it was asked for, with its authorization: one with a body carries that body as
/// JSON, one that only asks carries nothing, and any other says that it carries nothing.
pub proof fn a_request_goes_out_as_it_was_asked_for(
    pending: PendingRequestView,
    authorization: Seq<u8>,
)
    ensures
        ({
            let request = authorized_request(pending, authorization);
            &&& request.method == pending.method
            &&& request.uri == pending.uri
            &&& !request.streamed
            &&& match pending.body {
                Some(body) => request.body == utf8::encode_utf8(body) && request.headers == seq![
                    ("content-type"@, utf8::encode_utf8("application/json"@)),
                    ("authorization"@, authorization),
                ],
                None => if pending.method == Method::Get {
                    request.body.len() == 0 && request.headers == seq![("authorization"@, authorization)]
                } else {
                    request.body == utf8::encode_utf8("null"@) && request.headers == seq![
                        ("content-length"@, utf8::encode_utf8(seq!['0'])),
                        ("authorization"@, authorization),
                    ]
                },
            }
        }),
{
    text::a_number_is_its_digits(0, 0);
    assert(text::decimal(0) =~= seq!['0']);
}

/// A request goes to the URI that it was asked for, or to what the API offers at the path that it was asked
/// for, and waits for an authorization as long as its client has none.
pub proof fn a_request_waits_for_its_authorization<C: Client>(
    client: C,
    method: Method,
    url: UrlView,
    body: Option<Seq<char>>,
    err: Seq<Seq<char>>,
    authorization: Seq<u8>,
    pending: PendingRequestView,
)
    requires
        client.cached() is None,
    ensures
        match url {
            UrlView::PathAndQuery(path) => match client.url_of(path) {
                Ok(uri) => request_started(client, method, url, body) == Ok::<
                    RequestStepView,
                    Seq<Seq<char>>,
                >(RequestStepView::Authorize(PendingRequestView { method, uri, body })),
                Err(err) => request_started(client, method, url, body) == Err::<
                    RequestStepView,
                    Seq<Seq<char>>,
                >(err),
            },
            UrlView::Uri(uri) => request_started(client, method, url, body) == Ok::<
                RequestStepView,
                Seq<Seq<char>>,
            >(RequestStepView::Authorize(PendingRequestView { method, uri, body })),
        },
        request_authorized(None, pending, Ok(authorization)) == Ok::<RequestView, Seq<Seq<char>>>(
            authorized_request(pending, authorization),
        ),
        request_authorized(None, pending, Err(err)) == Err::<RequestView, Seq<Seq<char>>>(
            seq!["could not get API authorization"@] + err,
        ),
        authorization_kept(None, Ok(authorization)) == Some(authorization),
        authorization_kept(None, Err(err)) is None,
{
}

/// The URL at an authority is an `https` one, of that authority and of that path.
pub proof fn urls_are_https(authority: Seq<char>, path_and_query: Seq<char>)
    ensures
        match http_common::built_uri_text("https"@, authority, path_and_query) {
            Ok(uri) => api_url(authority, path_and_query) == Ok::<Seq<char>, Seq<Seq<char>>>(uri),
            Err(err) => api_url(authority, path_and_query) == Err::<Seq<char>, Seq<Seq<char>>>(
                seq!["could not parse request URL"@, err],
            ),
        },
{
    if let Err(err) = http_common::built_uri_text("https"@, authority, path_and_query) {
        assert(api_url(authority, path_and_query)->Err_0 =~= seq!["could not parse request URL"@, err]);
    }
}

} // verus!
