//! Orders for certificates: what the server says of them, and what is done next.

use vstd::prelude::*;
use vstd::utf8;

use crate::acme;
use crate::acme::account::{Account, Post, PostView};
use crate::acme::{AccountKey, JwkView};
use crate::error;
use crate::error::Error;
use crate::http_common;
use crate::http_common::{
    FromResponse, HeaderValue, ResponseBody, ResponseHeaders, ResponseWithLocation, StatusCode, Uri,
};
use crate::json;
use crate::log2;
use crate::log2::{Report, Scope, ScopeView, ScopedObjectOperation, Shown};
use crate::text;
use crate::time2;
use crate::time2::Duration;

verus! {

/// Something that nobody looks at.
#[derive(Debug)]
pub struct IgnoredAny;

impl View for IgnoredAny {
    type V = ();

    open spec fn view(&self) -> () {
        ()
    }
}

impl Shown for IgnoredAny {
    open spec fn shown(value: ()) -> Seq<char> {
        "IgnoredAny"@
    }

    fn show(&self) -> (r: String) {
        "IgnoredAny".to_owned()
    }
}

/// Some items, with commas and spaces between them.
pub open spec fn listed(items: Seq<Seq<char>>) -> Seq<char>
    decreases items.len(),
{
    if items.len() == 0 {
        Seq::empty()
    } else if items.len() == 1 {
        items[0]
    } else {
        listed(items.drop_last()) + ", "@ + items.last()
    }
}

/// Lists some URIs.
fn list_uris(uris: &Vec<Uri>) -> (r: String)
    ensures
        r@ == listed(http_common::uri_texts(uris@)),
{
    let mut r = String::new();
    for i in 0..uris.len()
        invariant
            r@ == listed(http_common::uri_texts(uris@).take(i as int)),
    {
        let ghost before = http_common::uri_texts(uris@).take(i as int);
        let ghost after = http_common::uri_texts(uris@).take(i + 1);
        assert(after.drop_last() =~= before);
        assert(after.last() == uris@[i as int]@);
        if i > 0 {
            r.append(", ");
        }
        r.append(uris[i].as_str());
        assert(i == 0 ==> r@ =~= uris@[0]@);
    }
    assert(http_common::uri_texts(uris@).take(uris@.len() as int) =~= http_common::uri_texts(
        uris@,
    ));
    r
}

/// A pending order, as the server describes it.
#[derive(Debug)]
pub struct OrderObjPending {
    pub authorization_urls: Vec<Uri>,
}

impl View for OrderObjPending {
    type V = Seq<Seq<char>>;

    open spec fn view(&self) -> Seq<Seq<char>> {
        http_common::uri_texts(self.authorization_urls@)
    }
}

impl Shown for OrderObjPending {
    open spec fn shown(value: Seq<Seq<char>>) -> Seq<char> {
        "OrderObjPending { authorization_urls: ["@ + listed(value) + "] }"@
    }

    fn show(&self) -> (r: String) {
        let mut r = "OrderObjPending { authorization_urls: [".to_owned();
        r.append(list_uris(&self.authorization_urls).as_str());
        r.append("] }");
        r
    }
}

/// An order that is ready to be finalized, as the server describes it.
#[derive(Debug)]
pub struct OrderObjReady {
    pub finalize_url: Uri,
}

impl View for OrderObjReady {
    type V = Seq<char>;

    open spec fn view(&self) -> Seq<char> {
        self.finalize_url@
    }
}

impl Shown for OrderObjReady {
    open spec fn shown(value: Seq<char>) -> Seq<char> {
        "OrderObjReady { finalize_url: "@ + value + " }"@
    }

    fn show(&self) -> (r: String) {
        let mut r = "OrderObjReady { finalize_url: ".to_owned();
        r.append(self.finalize_url.as_str());
        r.append(" }");
        r
    }
}

/// An order, as the server describes it.
#[derive(Debug)]
pub enum OrderObject<P, R> {
    Pending(P),
    Processing,
    Ready(R),
    Valid { certificate_url: Uri },
}

/// An order, and how long to wait where the server is still busy with it.
#[derive(Debug)]
pub enum OrderResponse<P, R> {
    Pending(P),
    Processing { retry_after: Duration },
    Ready(R),
    Valid { certificate_url: Uri },
}

/// The state of an order.
pub enum OrderState<P, R> {
    Pending(P),
    Processing { retry_after: nat },
    Ready(R),
    Valid { certificate_url: Seq<char> },
}

impl<P: View, R: View> View for OrderResponse<P, R> {
    type V = OrderState<P::V, R::V>;

    open spec fn view(&self) -> OrderState<P::V, R::V> {
        match self {
            OrderResponse::Pending(pending) => OrderState::Pending(pending@),
            OrderResponse::Processing { retry_after } => OrderState::Processing {
                retry_after: retry_after@,
            },
            OrderResponse::Ready(ready) => OrderState::Ready(ready@),
            OrderResponse::Valid { certificate_url } => OrderState::Valid {
                certificate_url: certificate_url@,
            },
        }
    }
}

/// How long to wait at least before asking again, in nanoseconds.
pub open spec fn min_wait() -> nat {
    1_000_000_000
}

/// How long to wait at most before asking again, in nanoseconds.
pub open spec fn max_wait() -> nat {
    30_000_000_000
}

/// How long a response asks to wait.
pub open spec fn wait_of(headers: ResponseHeaders, now: int) -> Result<nat, Seq<Seq<char>>> {
    http_common::retry_after_at(
        http_common::header_view(headers.retry_after),
        min_wait(),
        max_wait(),
        now,
    )
}

/// How long a response asks to wait.
pub fn get_wait(headers: &ResponseHeaders, now: i128) -> (r: Result<Duration, Error>)
    requires
        http_common::is_time(now as int),
    ensures
        error::result_view(r) == wait_of(*headers, now as int),
{
    http_common::get_retry_after_at(headers, Duration::from_secs(1), Duration::from_secs(30), now)
}

impl<P: View, R: View> FromResponse for OrderResponse<P, R> {
    type Content = Result<OrderObject<P, R>, String>;

    open spec fn interpreted(
        status: u16,
        body: Option<ResponseBody<Result<OrderObject<P, R>, String>>>,
        headers: ResponseHeaders,
        now: int,
    ) -> Result<Option<OrderState<P::V, R::V>>, Seq<Seq<char>>> {
        match http_common::json_if(status == 201 || status == 200, body) {
            Ok(Some(OrderObject::Pending(pending))) => Ok(Some(OrderState::Pending(pending@))),
            Ok(Some(OrderObject::Processing)) => match wait_of(headers, now) {
                Ok(retry_after) => Ok(Some(OrderState::Processing { retry_after })),
                Err(err) => Err(err),
            },
            Ok(Some(OrderObject::Ready(ready))) => Ok(Some(OrderState::Ready(ready@))),
            Ok(Some(OrderObject::Valid { certificate_url })) => Ok(
                Some(OrderState::Valid { certificate_url: certificate_url@ }),
            ),
            Ok(None) => Ok(None),
            Err(err) => Err(err),
        }
    }

    fn from_response(
        status: StatusCode,
        body: Option<ResponseBody<Result<OrderObject<P, R>, String>>>,
        headers: &ResponseHeaders,
        now: i128,
    ) -> (r: Result<Option<OrderResponse<P, R>>, Error>) {
        let code: u16 = status.as_u16();
        match http_common::expect_json(code == 201 || code == 200, body) {
            Ok(Some(OrderObject::Pending(pending))) => Ok(Some(OrderResponse::Pending(pending))),
            Ok(Some(OrderObject::Processing)) => match get_wait(headers, now) {
                Ok(retry_after) => Ok(Some(OrderResponse::Processing { retry_after })),
                Err(err) => Err(err),
            },
            Ok(Some(OrderObject::Ready(ready))) => Ok(Some(OrderResponse::Ready(ready))),
            Ok(Some(OrderObject::Valid { certificate_url })) => Ok(
                Some(OrderResponse::Valid { certificate_url }),
            ),
            Ok(None) => Ok(None),
            Err(err) => Err(err),
        }
    }

    open spec fn reads(status: u16, content_type: Seq<u8>, headers: ResponseHeaders) -> bool {
        (status == 201 || status == 200) && http_common::is_json(content_type)
    }

    fn reads_body(
        status: StatusCode,
        content_type: &HeaderValue,
        headers: &ResponseHeaders,
    ) -> (r: bool) {
        let code: u16 = status.as_u16();
        (code == 201 || code == 200) && http_common::has_json_type(content_type)
    }

    proof fn unread_does_not_matter(
        status: u16,
        content_type: HeaderValue,
        in_one_piece: bool,
        one: Result<OrderObject<P, R>, String>,
        other: Result<OrderObject<P, R>, String>,
        headers: ResponseHeaders,
        now: int,
    ) {
    }
}

/// The form of `name { field: value }` in the log.
pub open spec fn with_field(head: Seq<char>, value: Seq<char>) -> Seq<char> {
    head + value + " }"@
}

/// Writes the form of `name { field: value }`.
pub fn show_field(head: &str, value: &str) -> (r: String)
    ensures
        r@ == with_field(head@, value@),
{
    let mut r = head.to_owned();
    r.append(value);
    r.append(" }");
    r
}

impl<P: Shown, R: Shown> Shown for OrderResponse<P, R> {
    open spec fn shown(value: OrderState<P::V, R::V>) -> Seq<char> {
        match value {
            OrderState::Pending(pending) => "Pending("@ + P::shown(pending) + ")"@,
            OrderState::Processing { retry_after } => with_field(
                "Processing { retry_after: "@,
                time2::shown(retry_after),
            ),
            OrderState::Ready(ready) => "Ready("@ + R::shown(ready) + ")"@,
            OrderState::Valid { certificate_url } => with_field(
                "Valid { certificate_url: "@,
                certificate_url,
            ),
        }
    }

    fn show(&self) -> (r: String) {
        match self {
            OrderResponse::Pending(pending) => {
                let mut r = "Pending(".to_owned();
                r.append(pending.show().as_str());
                r.append(")");
                r
            },
            OrderResponse::Processing { retry_after } => show_field(
                "Processing { retry_after: ",
                retry_after.text().as_str(),
            ),
            OrderResponse::Ready(ready) => {
                let mut r = "Ready(".to_owned();
                r.append(ready.show().as_str());
                r.append(")");
                r
            },
            OrderResponse::Valid { certificate_url } => show_field(
                "Valid { certificate_url: ",
                certificate_url.as_str(),
            ),
        }
    }
}

impl<P: Shown, R: Shown> Shown for ResponseWithLocation<OrderResponse<P, R>> {
    /// The URL of the order, and its state.
    open spec fn shown(value: (OrderState<P::V, R::V>, Seq<char>)) -> Seq<char> {
        "("@ + value.1 + ", "@ + <OrderResponse<P, R> as Shown>::shown(value.0) + ")"@
    }

    fn show(&self) -> (r: String) {
        let mut r = "(".to_owned();
        r.append(self.location.as_str());
        r.append(", ");
        r.append(self.body.show().as_str());
        r.append(")");
        r
    }
}

/// A challenge, as the server describes it. `P` is what is read of a pending one.
#[derive(Debug)]
pub enum ChallengeObject<P> {
    Pending(P),
    Processing,
    Valid,
}

/// A pending challenge, as the server describes it.
#[derive(Debug)]
pub struct ChallengePending {
    pub token: String,
    pub kind: String,
    pub url: Uri,
}

/// An authorization, as the server describes it. `P` is what is read of a pending one.
#[derive(Debug)]
pub enum AuthorizationObject<P> {
    Pending(P),
    Valid,
}

/// The token and the URL of a pending DNS challenge.
pub open spec fn dns_challenge(challenge: ChallengeObject<ChallengePending>) -> Option<
    (Seq<char>, Seq<char>),
> {
    match challenge {
        ChallengeObject::Pending(pending) if pending.kind@ == "dns-01"@ => Some(
            (pending.token@, pending.url@),
        ),
        _ => None,
    }
}

/// The token and the URL of the first pending DNS challenge.
pub open spec fn first_dns_challenge(challenges: Seq<ChallengeObject<ChallengePending>>) -> Option<
    (Seq<char>, Seq<char>),
>
    decreases challenges.len(),
{
    if challenges.len() == 0 {
        None
    } else if dns_challenge(challenges[0]) is Some {
        dns_challenge(challenges[0])
    } else {
        first_dns_challenge(challenges.skip(1))
    }
}

/// Finds the first pending DNS challenge.
fn find_dns_challenge(challenges: &Vec<ChallengeObject<ChallengePending>>) -> (r: Option<
    (String, Uri),
>)
    ensures
        match r {
            Some((token, url)) => first_dns_challenge(challenges@) == Some((token@, url@)),
            None => first_dns_challenge(challenges@) is None,
        },
{
    assert(challenges@.skip(0) =~= challenges@);
    for i in 0..challenges.len()
        invariant
            first_dns_challenge(challenges@) == first_dns_challenge(challenges@.skip(i as int)),
    {
        assert(challenges@.skip(i as int)[0] == challenges@[i as int]);
        assert(challenges@.skip(i as int).skip(1) =~= challenges@.skip(i + 1));
        match &challenges[i] {
            ChallengeObject::Pending(pending) => {
                if text::str_eq(pending.kind.as_str(), "dns-01") {
                    return Some((pending.token.clone(), pending.url.clone()));
                }
            },
            _ => {},
        }
    }
    None
}

/// An authorization that an order asks for: the challenge that has to be met, unless it is valid
/// already.
#[derive(Debug)]
pub enum AuthorizationChallenge {
    Pending { token: String, challenge_url: Uri },
    Valid,
}

/// An authorization that an order asks for.
pub enum AuthorizationChallengeView {
    Pending { token: Seq<char>, challenge_url: Seq<char> },
    Valid,
}

impl View for AuthorizationChallenge {
    type V = AuthorizationChallengeView;

    open spec fn view(&self) -> AuthorizationChallengeView {
        match self {
            AuthorizationChallenge::Pending { token, challenge_url } =>
                AuthorizationChallengeView::Pending {
                token: token@,
                challenge_url: challenge_url@,
            },
            AuthorizationChallenge::Valid => AuthorizationChallengeView::Valid,
        }
    }
}

impl FromResponse for AuthorizationChallenge {
    type Content = Result<AuthorizationObject<Vec<ChallengeObject<ChallengePending>>>, String>;

    open spec fn interpreted(
        status: u16,
        body: Option<
            ResponseBody<
                Result<AuthorizationObject<Vec<ChallengeObject<ChallengePending>>>, String>,
            >,
        >,
        headers: ResponseHeaders,
        now: int,
    ) -> Result<Option<AuthorizationChallengeView>, Seq<Seq<char>>> {
        match http_common::json_if(status == 200, body) {
            Ok(Some(AuthorizationObject::Pending(challenges))) => match first_dns_challenge(
                challenges@,
            ) {
                Some((token, challenge_url)) => Ok(
                    Some(AuthorizationChallengeView::Pending { token, challenge_url }),
                ),
                None => Err(error::message("did not find any pending dns-01 challenges"@)),
            },
            Ok(Some(AuthorizationObject::Valid)) => Ok(Some(AuthorizationChallengeView::Valid)),
            Ok(None) => Ok(None),
            Err(err) => Err(err),
        }
    }

    fn from_response(
        status: StatusCode,
        body: Option<
            ResponseBody<
                Result<AuthorizationObject<Vec<ChallengeObject<ChallengePending>>>, String>,
            >,
        >,
        headers: &ResponseHeaders,
        now: i128,
    ) -> (r: Result<Option<AuthorizationChallenge>, Error>) {
        match http_common::expect_json(status.as_u16() == 200, body) {
            Ok(Some(AuthorizationObject::Pending(challenges))) => match find_dns_challenge(
                &challenges,
            ) {
                Some((token, challenge_url)) => Ok(
                    Some(AuthorizationChallenge::Pending { token, challenge_url }),
                ),
                None => Err(Error::new("did not find any pending dns-01 challenges")),
            },
            Ok(Some(AuthorizationObject::Valid)) => Ok(Some(AuthorizationChallenge::Valid)),
            Ok(None) => Ok(None),
            Err(err) => Err(err),
        }
    }

    open spec fn reads(status: u16, content_type: Seq<u8>, headers: ResponseHeaders) -> bool {
        status == 200 && http_common::is_json(content_type)
    }

    fn reads_body(
        status: StatusCode,
        content_type: &HeaderValue,
        headers: &ResponseHeaders,
    ) -> (r: bool) {
        status.as_u16() == 200 && http_common::has_json_type(content_type)
    }

    proof fn unread_does_not_matter(
        status: u16,
        content_type: HeaderValue,
        in_one_piece: bool,
        one: Result<AuthorizationObject<Vec<ChallengeObject<ChallengePending>>>, String>,
        other: Result<AuthorizationObject<Vec<ChallengeObject<ChallengePending>>>, String>,
        headers: ResponseHeaders,
        now: int,
    ) {
    }
}

impl Shown for AuthorizationChallenge {
    open spec fn shown(value: AuthorizationChallengeView) -> Seq<char> {
        match value {
            AuthorizationChallengeView::Pending { token, challenge_url } => with_field(
                "Pending { hasher: Sha256_32 { .. }, challenge_url: "@,
                challenge_url,
            ),
            AuthorizationChallengeView::Valid => "Valid"@,
        }
    }

    fn show(&self) -> (r: String) {
        match self {
            AuthorizationChallenge::Pending { challenge_url, .. } => show_field(
                "Pending { hasher: Sha256_32 { .. }, challenge_url: ",
                challenge_url.as_str(),
            ),
            AuthorizationChallenge::Valid => "Valid".to_owned(),
        }
    }
}

/// An order.
#[derive(Debug)]
pub enum Order {
    Pending(OrderPending),
    Ready(OrderReady),
    Valid(OrderValid),
}

/// An order some of whose authorizations are pending.
#[derive(Debug)]
pub struct OrderPending {
    order_url: Uri,
    pub authorizations: Vec<OrderPendingAuthorization>,
}

/// A pending authorization.
#[derive(Debug)]
pub struct OrderPendingAuthorization {
    authorization_url: Uri,
    challenge_url: Uri,
    pub dns_txt_record_content: String,
}

/// An order that can be finalized.
#[derive(Debug)]
pub struct OrderReady {
    order_url: Uri,
}

/// An order whose certificate has been issued.
#[derive(Debug)]
pub struct OrderValid {
    certificate_url: Uri,
}

/// A pending authorization.
#[verifier::ext_equal]
pub struct AuthorizationView {
    pub authorization_url: Seq<char>,
    pub challenge_url: Seq<char>,
    pub dns_txt_record_content: Seq<char>,
}

/// An order some of whose authorizations are pending.
#[verifier::ext_equal]
pub struct OrderPendingView {
    pub order_url: Seq<char>,
    pub authorizations: Seq<AuthorizationView>,
}

/// An order.
pub enum OrderView {
    Pending(OrderPendingView),
    Ready { order_url: Seq<char> },
    Valid { certificate_url: Seq<char> },
}

impl View for OrderPendingAuthorization {
    type V = AuthorizationView;

    closed spec fn view(&self) -> AuthorizationView {
        AuthorizationView {
            authorization_url: self.authorization_url@,
            challenge_url: self.challenge_url@,
            dns_txt_record_content: self.dns_txt_record_content@,
        }
    }
}

/// The views of some authorizations.
pub open spec fn authorizations_view(authorizations: Seq<OrderPendingAuthorization>) -> Seq<
    AuthorizationView,
> {
    authorizations.map_values(|a: OrderPendingAuthorization| a@)
}

impl View for OrderPending {
    type V = OrderPendingView;

    closed spec fn view(&self) -> OrderPendingView {
        OrderPendingView {
            order_url: self.order_url@,
            authorizations: authorizations_view(self.authorizations@),
        }
    }
}

impl View for OrderReady {
    type V = Seq<char>;

    closed spec fn view(&self) -> Seq<char> {
        self.order_url@
    }
}

impl View for OrderValid {
    type V = Seq<char>;

    closed spec fn view(&self) -> Seq<char> {
        self.certificate_url@
    }
}

impl View for Order {
    type V = OrderView;

    open spec fn view(&self) -> OrderView {
        match self {
            Order::Pending(pending) => OrderView::Pending(pending@),
            Order::Ready(ready) => OrderView::Ready { order_url: ready@ },
            Order::Valid(valid) => OrderView::Valid { certificate_url: valid@ },
        }
    }
}

impl OrderPending {
    /// What the TXT records have to hold that answer the challenges, one for each pending
    /// authorization.
    pub fn dns_txt_record_contents(&self) -> (r: Vec<String>)
        ensures
            text::texts(r@) == answers(self@.authorizations),
    {
        let mut r: Vec<String> = Vec::new();
        for i in 0..self.authorizations.len()
            invariant
                r@.len() == i,
                forall|j: int|
                    0 <= j < i ==> #[trigger] r@[j]@
                        == self.authorizations@[j].dns_txt_record_content@,
        {
            r.push(self.authorizations[i].dns_txt_record_content.clone());
        }
        assert(text::texts(r@) =~= answers(self@.authorizations));
        r
    }
}

impl Clone for OrderPendingAuthorization {
    fn clone(&self) -> (r: OrderPendingAuthorization)
        ensures
            r == *self,
    {
        OrderPendingAuthorization {
            authorization_url: self.authorization_url.clone(),
            challenge_url: self.challenge_url.clone(),
            dns_txt_record_content: self.dns_txt_record_content.clone(),
        }
    }
}

impl Clone for OrderPending {
    fn clone(&self) -> (r: OrderPending)
        ensures
            r@ == self@,
    {
        let mut authorizations: Vec<OrderPendingAuthorization> = Vec::new();
        for i in 0..self.authorizations.len()
            invariant
                authorizations@ == self.authorizations@.take(i as int),
        {
            authorizations.push(self.authorizations[i].clone());
            assert(authorizations@ =~= self.authorizations@.take(i + 1));
        }
        assert(authorizations@ =~= self.authorizations@);
        OrderPending { order_url: self.order_url.clone(), authorizations }
    }
}

impl Clone for OrderReady {
    fn clone(&self) -> (r: OrderReady)
        ensures
            r == *self,
    {
        OrderReady { order_url: self.order_url.clone() }
    }
}

impl Clone for OrderValid {
    fn clone(&self) -> (r: OrderValid)
        ensures
            r == *self,
    {
        OrderValid { certificate_url: self.certificate_url.clone() }
    }
}

impl OrderPendingAuthorization {
    /// The URL of the authorization.
    pub(crate) fn authorization_url(&self) -> (r: Uri)
        ensures
            r@ == self@.authorization_url,
    {
        self.authorization_url.clone()
    }

    /// The URL of the challenge.
    pub(crate) fn challenge_url(&self) -> (r: Uri)
        ensures
            r@ == self@.challenge_url,
    {
        self.challenge_url.clone()
    }
}

impl OrderPending {
    /// The URL of the order, and its pending authorizations.
    pub(crate) fn into_parts(self) -> (r: (Uri, Vec<OrderPendingAuthorization>))
        ensures
            self@ == (OrderPendingView {
                order_url: r.0@,
                authorizations: authorizations_view(r.1@),
            }),
    {
        (self.order_url, self.authorizations)
    }
}

impl OrderReady {
    /// The order at a URL, which can be finalized.
    pub(crate) fn new(order_url: Uri) -> (r: OrderReady)
        ensures
            r@ == order_url@,
    {
        OrderReady { order_url }
    }

    /// The URL of the order.
    pub(crate) fn into_url(self) -> (r: Uri)
        ensures
            r@ == self@,
    {
        self.order_url
    }
}

impl OrderValid {
    /// The order whose certificate is at a URL.
    pub(crate) fn new(certificate_url: Uri) -> (r: OrderValid)
        ensures
            r@ == certificate_url@,
    {
        OrderValid { certificate_url }
    }

    /// The URL of the certificate.
    pub(crate) fn into_url(self) -> (r: Uri)
        ensures
            r@ == self@,
    {
        self.certificate_url
    }
}

/// What the TXT records have to hold that answer some challenges.
pub open spec fn answers(authorizations: Seq<AuthorizationView>) -> Seq<Seq<char>> {
    authorizations.map_values(|a: AuthorizationView| a.dns_txt_record_content)
}

/// Whether some texts may be answers to challenges: each is as long as a hash in base64, and made of
/// characters of the URL-safe alphabet alone.
pub open spec fn are_answers(answers: Seq<Seq<char>>) -> bool {
    forall|i: int| 0 <= i < answers.len() ==> crate::encoding::encodes_hash(#[trigger] answers[i])
}

/// What comes next, after something has been reported.
#[derive(Debug)]
pub struct Step<N> {
    pub reports: Vec<Report<String>>,
    pub next: N,
}

impl<N: View> View for Step<N> {
    type V = (Seq<Report<Seq<char>>>, N::V);

    open spec fn view(&self) -> (Seq<Report<Seq<char>>>, N::V) {
        (log2::reports_view(self.reports@), self.next@)
    }
}

/// An order that has to be looked at again, after a while.
#[derive(Debug)]
pub struct OrderPoll {
    order_url: Uri,
    retry_after: Duration,
}

/// An order whose authorizations are being looked at.
#[derive(Debug)]
pub struct Authorizing {
    order_url: Uri,
    authorization_urls: Vec<Uri>,
    next: usize,
    authorizations: Vec<OrderPendingAuthorization>,
}

impl Authorizing {
    #[verifier::type_invariant]
    spec fn unfinished(self) -> bool {
        &&& self.next < self.authorization_urls@.len()
        &&& are_answers(answers(authorizations_view(self.authorizations@)))
    }
}

/// What has to be done next to place an order.
#[derive(Debug)]
pub enum PlaceOrder {
    /// Wait, and look at the order again.
    Poll(OrderPoll),
    /// Look at the next authorization.
    Authorize(Authorizing),
    /// Nothing: the order has been placed.
    Done(Order),
}

/// An order whose authorizations are being looked at: those before `next` have been, and those of
/// them that are pending have been collected.
#[verifier::ext_equal]
pub struct AuthorizingView {
    pub order_url: Seq<char>,
    pub authorization_urls: Seq<Seq<char>>,
    pub next: nat,
    pub authorizations: Seq<AuthorizationView>,
}

/// What has to be done next to place an order.
pub enum PlaceOrderView {
    Poll { order_url: Seq<char>, retry_after: nat },
    Authorize(AuthorizingView),
    Done(OrderView),
}

impl View for OrderPoll {
    type V = (Seq<char>, nat);

    closed spec fn view(&self) -> (Seq<char>, nat) {
        (self.order_url@, self.retry_after@)
    }
}

impl View for Authorizing {
    type V = AuthorizingView;

    closed spec fn view(&self) -> AuthorizingView {
        AuthorizingView {
            order_url: self.order_url@,
            authorization_urls: http_common::uri_texts(self.authorization_urls@),
            next: self.next as nat,
            authorizations: authorizations_view(self.authorizations@),
        }
    }
}

impl View for PlaceOrder {
    type V = PlaceOrderView;

    open spec fn view(&self) -> PlaceOrderView {
        match self {
            PlaceOrder::Poll(poll) => PlaceOrderView::Poll {
                order_url: poll@.0,
                retry_after: poll@.1,
            },
            PlaceOrder::Authorize(authorizing) => PlaceOrderView::Authorize(authorizing@),
            PlaceOrder::Done(order) => PlaceOrderView::Done(order@),
        }
    }
}

/// What has to be done next about the authorizations of an order.
pub open spec fn authorizations_left(authorizing: AuthorizingView) -> PlaceOrderView {
    if authorizing.next < authorizing.authorization_urls.len() {
        PlaceOrderView::Authorize(authorizing)
    } else {
        PlaceOrderView::Done(
            OrderView::Pending(
                OrderPendingView {
                    order_url: authorizing.order_url,
                    authorizations: authorizing.authorizations,
                },
            ),
        )
    }
}

/// The report of the state of an object.
pub open spec fn state(
    object_type: Seq<char>,
    object_id: Seq<char>,
    state: Seq<char>,
) -> Report<Seq<char>> {
    Report::ObjectState { object_type, object_id, state }
}

/// The report that something has to wait.
pub open spec fn waiting(retry_after: nat, what: Seq<char>) -> Report<Seq<char>> {
    Report::Message { message: "Waiting for "@ + time2::shown(retry_after) + what }
}

/// Reports that something has to wait.
pub fn report_waiting(retry_after: Duration, what: &str) -> (r: Report<String>)
    ensures
        r@ == waiting(retry_after@, what@),
{
    let mut message = "Waiting for ".to_owned();
    message.append(retry_after.text().as_str());
    message.append(what);
    log2::message_report(message)
}

/// What has to be done next about an order that is being placed, in the state `order`.
pub open spec fn order_seen(order_url: Seq<char>, order: OrderState<Seq<Seq<char>>, ()>) -> (
    Seq<Report<Seq<char>>>,
    PlaceOrderView,
) {
    let seen = state(
        "acme/order"@,
        order_url,
        <OrderResponse<OrderObjPending, IgnoredAny> as Shown>::shown(order),
    );
    match order {
        OrderState::Pending(authorization_urls) => (
            seq![seen],
            authorizations_left(
                AuthorizingView {
                    order_url,
                    authorization_urls,
                    next: 0,
                    authorizations: seq![],
                },
            ),
        ),
        OrderState::Processing { retry_after } => (
            seq![seen, waiting(retry_after, " before rechecking order..."@)],
            PlaceOrderView::Poll { order_url, retry_after },
        ),
        OrderState::Ready(_) => (seq![seen], PlaceOrderView::Done(OrderView::Ready { order_url })),
        OrderState::Valid { certificate_url } => (
            seq![seen],
            PlaceOrderView::Done(OrderView::Valid { certificate_url }),
        ),
    }
}

/// What has to be done next about an order that is being placed.
fn see_order(order_url: Uri, order: OrderResponse<OrderObjPending, IgnoredAny>) -> (r: Step<
    PlaceOrder,
>)
    ensures
        r@ == order_seen(order_url@, order@),
{
    let mut reports = vec![
        log2::state_report("acme/order", order_url.as_str(), order.show()),
    ];
    let ghost seen = state(
        "acme/order"@,
        order_url@,
        <OrderResponse<OrderObjPending, IgnoredAny> as Shown>::shown(order@),
    );
    assert(log2::reports_view(reports@) =~= seq![seen]);
    let next = match order {
        OrderResponse::Pending(OrderObjPending { authorization_urls }) => {
            let authorizations: Vec<OrderPendingAuthorization> = Vec::new();
            assert(authorizations_view(authorizations@) =~= seq![]);
            if authorization_urls.len() > 0 {
                PlaceOrder::Authorize(
                    Authorizing { order_url, authorization_urls, next: 0, authorizations },
                )
            } else {
                PlaceOrder::Done(Order::Pending(OrderPending { order_url, authorizations }))
            }
        },
        OrderResponse::Processing { retry_after } => {
            reports.push(report_waiting(retry_after, " before rechecking order..."));
            assert(log2::reports_view(reports@) =~= seq![
                seen,
                waiting(retry_after@, " before rechecking order..."@),
            ]);
            PlaceOrder::Poll(OrderPoll { order_url, retry_after })
        },
        OrderResponse::Ready(_) => PlaceOrder::Done(Order::Ready(OrderReady { order_url })),
        OrderResponse::Valid { certificate_url } => PlaceOrder::Done(
            Order::Valid(OrderValid { certificate_url }),
        ),
    };
    Step { reports, next }
}

/// What the response to a new order comes to.
pub open spec fn order_placed(
    response: Result<(OrderState<Seq<Seq<char>>, ()>, Seq<char>), Seq<Seq<char>>>,
) -> Result<(Seq<Report<Seq<char>>>, PlaceOrderView), Seq<Seq<char>>> {
    match response {
        Ok((order, order_url)) => Ok(order_seen(order_url, order)),
        Err(err) => Err(error::in_context("could not create / get order"@, err)),
    }
}

/// What another look at an order comes to.
pub open spec fn order_polled(
    order_url: Seq<char>,
    response: Result<OrderState<Seq<Seq<char>>, ()>, Seq<Seq<char>>>,
) -> Result<(Seq<Report<Seq<char>>>, PlaceOrderView), Seq<Seq<char>>> {
    match response {
        Ok(order) => Ok(order_seen(order_url, order)),
        Err(err) => Err(error::in_context("could not get order"@, err)),
    }
}

/// What a look at the next authorization of an order comes to.
pub open spec fn authorization_seen(
    jwk: JwkView,
    authorizing: AuthorizingView,
    authorization: AuthorizationChallengeView,
) -> PlaceOrderView {
    authorizations_left(
        AuthorizingView {
            next: authorizing.next + 1,
            authorizations: match authorization {
                AuthorizationChallengeView::Pending { token, challenge_url } =>
                    authorizing.authorizations.push(
                    AuthorizationView {
                        authorization_url: authorizing.authorization_urls[authorizing.next as int],
                        challenge_url,
                        dns_txt_record_content: acme::challenge_answer(token, jwk),
                    },
                ),
                AuthorizationChallengeView::Valid => authorizing.authorizations,
            },
            ..authorizing
        },
    )
}

/// What the response to a look at the next authorization of an order comes to.
pub open spec fn authorization_received(
    jwk: JwkView,
    authorizing: AuthorizingView,
    response: Result<AuthorizationChallengeView, Seq<Seq<char>>>,
) -> Result<(Seq<Report<Seq<char>>>, PlaceOrderView), Seq<Seq<char>>> {
    match response {
        Ok(authorization) => Ok(
            (
                seq![
                    state(
                        "acme/authorization"@,
                        authorizing.authorization_urls[authorizing.next as int],
                        <AuthorizationChallenge as Shown>::shown(authorization),
                    ),
                ],
                authorization_seen(jwk, authorizing, authorization),
            ),
        ),
        Err(err) => Err(error::in_context("could not get authorization"@, err)),
    }
}

/// An identifier in an order: a domain name.
pub open spec fn identifier_json(domain_name: Seq<char>) -> Seq<char> {
    json::json_object(
        seq![("type"@, json::json_string("dns"@)), ("value"@, json::json_string(domain_name))],
    )
}

/// What places an order for some domain names.
pub open spec fn new_order_json(domain_names: Seq<Seq<char>>) -> Seq<char> {
    json::json_object(
        seq![
            (
                "identifiers"@,
                json::json_array(
                    domain_names.map_values(|domain_name: Seq<char>| identifier_json(domain_name)),
                ),
            ),
        ],
    )
}

/// Writes what places an order for some domain names.
pub fn write_new_order(domain_names: &Vec<String>) -> (r: String)
    ensures
        r@ == new_order_json(text::texts(domain_names@)),
{
    let mut identifiers: Vec<String> = Vec::new();
    for i in 0..domain_names.len()
        invariant
            identifiers@.len() == i,
            forall|j: int|
                0 <= j < i ==> #[trigger] identifiers@[j]@ == identifier_json(domain_names@[j]@),
    {
        let fields = vec![
            ("type", json::string("dns")),
            ("value", json::string(domain_names[i].as_str())),
        ];
        assert(json::members(fields@) =~= seq![
            ("type"@, json::json_string("dns"@)),
            ("value"@, json::json_string(domain_names@[i as int]@)),
        ]);
        identifiers.push(json::object(&fields));
    }
    let ghost objects = text::texts(domain_names@).map_values(
        |domain_name: Seq<char>| identifier_json(domain_name),
    );
    assert(text::texts(identifiers@) =~= objects);
    let fields = vec![("identifiers", json::array(&identifiers))];
    assert(json::members(fields@) =~= seq![("identifiers"@, json::json_array(objects))]);
    json::object(&fields)
}

/// The domain names that a certificate is for: the domain itself, and all the names below it.
pub open spec fn domain_names(domain_name: Seq<char>) -> Seq<Seq<char>> {
    seq![domain_name, "*."@ + domain_name]
}

/// A post of nothing, which only asks.
pub open spec fn question(url: Seq<char>) -> PostView {
    PostView { url, body: None }
}

impl<'a, K: AccountKey> Account<'a, K> {
    /// Places an order for a certificate for a domain and all the names below it. The response goes
    /// to [`PlaceOrder::placed`].
    pub fn place_order(&self, domain_name: &str) -> (r: (Scope, Post))
        ensures
            r.0@ == (ScopeView {
                object_type: "acme/order"@,
                object_id: domain_name@,
                operation: ScopedObjectOperation::Get,
            }),
            r.1@ == (PostView {
                url: self@.new_order_url,
                body: Some(new_order_json(domain_names(domain_name@))),
            }),
    {
        let mut wildcard = "*.".to_owned();
        wildcard.append(domain_name);
        let names = vec![domain_name.to_owned(), wildcard];
        assert(text::texts(names@) =~= domain_names(domain_name@));
        let post = Post { url: self.new_order_url(), body: Some(write_new_order(&names)) };
        (Scope::get("acme/order", domain_name.to_owned()), post)
    }
}

impl PlaceOrder {
    /// Goes on with an order that has just been placed.
    pub fn placed(
        response: Result<ResponseWithLocation<OrderResponse<OrderObjPending, IgnoredAny>>, Error>,
    ) -> (r: Result<Step<PlaceOrder>, Error>)
        ensures
            error::result_view(r) == order_placed(error::result_view(response)),
    {
        match response {
            Ok(response) => Ok(see_order(response.location, response.body)),
            Err(err) => Err(err.context("could not create / get order")),
        }
    }
}

impl OrderPoll {
    /// How long to wait before the order is looked at again.
    pub fn retry_after(&self) -> (r: Duration)
        ensures
            r@ == self@.1,
    {
        self.retry_after
    }

    /// Looks at the order again.
    pub fn post(&self) -> (r: Post)
        ensures
            r@ == question(self@.0),
    {
        Post { url: self.order_url.clone(), body: None }
    }

    /// Goes on with the order.
    pub fn received(self, response: Result<OrderResponse<OrderObjPending, IgnoredAny>, Error>) -> (r:
        Result<Step<PlaceOrder>, Error>)
        ensures
            error::result_view(r) == order_polled(self@.0, error::result_view(response)),
    {
        match response {
            Ok(order) => Ok(see_order(self.order_url, order)),
            Err(err) => Err(err.context("could not get order")),
        }
    }
}

impl Authorizing {
    /// Looks at the next authorization.
    pub fn post(&self) -> (r: Post)
        ensures
            self@.next < self@.authorization_urls.len(),
            r@ == question(self@.authorization_urls[self@.next as int]),
    {
        proof {
            use_type_invariant(self);
        }
        Post { url: self.authorization_urls[self.next].clone(), body: None }
    }

    /// Goes on with the order.
    pub fn received<'a, K: AccountKey>(
        self,
        account: &Account<'a, K>,
        response: Result<AuthorizationChallenge, Error>,
    ) -> (r: Result<Step<PlaceOrder>, Error>)
        ensures
            error::result_view(r) == authorization_received(
                account@.jwk,
                self@,
                error::result_view(response),
            ),
            r matches Ok(step) ==> (step.next matches PlaceOrder::Done(Order::Pending(order))
                ==> are_answers(answers(order@.authorizations))),
    {
        proof {
            use_type_invariant(&self);
        }
        let ghost before = self@;
        let authorization = match response {
            Ok(authorization) => authorization,
            Err(err) => {
                return Err(err.context("could not get authorization"));
            },
        };
        let authorization_url = self.authorization_urls[self.next].clone();
        let reports = vec![
            log2::state_report(
                "acme/authorization",
                authorization_url.as_str(),
                authorization.show(),
            ),
        ];
        assert(log2::reports_view(reports@) =~= seq![
            state(
                "acme/authorization"@,
                authorization_url@,
                <AuthorizationChallenge as Shown>::shown(authorization@),
            ),
        ]);
        let mut authorizations = self.authorizations;
        match authorization {
            AuthorizationChallenge::Pending { token, challenge_url } => {
                let dns_txt_record_content = account.answer(token.as_str());
                authorizations.push(
                    OrderPendingAuthorization {
                        authorization_url,
                        challenge_url,
                        dns_txt_record_content,
                    },
                );
                assert(authorizations_view(authorizations@) =~= before.authorizations.push(
                    AuthorizationView {
                        authorization_url: authorization_url@,
                        challenge_url: challenge_url@,
                        dns_txt_record_content: dns_txt_record_content@,
                    },
                ));
                assert(answers(authorizations_view(authorizations@)) =~= answers(
                    before.authorizations,
                ).push(dns_txt_record_content@));
            },
            AuthorizationChallenge::Valid => {},
        }
        let next = if self.authorization_urls.len() - self.next > 1 {
            PlaceOrder::Authorize(
                Authorizing {
                    order_url: self.order_url,
                    authorization_urls: self.authorization_urls,
                    next: self.next + 1,
                    authorizations,
                },
            )
        } else {
            PlaceOrder::Done(
                Order::Pending(OrderPending { order_url: self.order_url, authorizations }),
            )
        };
        Ok(Step { reports, next })
    }
}

/// The pending ones of some authorizations, in their order, with the answers to their challenges.
pub open spec fn pending_authorizations(
    jwk: JwkView,
    authorization_urls: Seq<Seq<char>>,
    authorizations: Seq<AuthorizationChallengeView>,
) -> Seq<AuthorizationView>
    decreases authorizations.len(),
{
    if authorizations.len() == 0 {
        seq![]
    } else {
        let before = pending_authorizations(jwk, authorization_urls, authorizations.drop_last());
        match authorizations.last() {
            AuthorizationChallengeView::Pending { token, challenge_url } => before.push(
                AuthorizationView {
                    authorization_url: authorization_urls[authorizations.len() - 1],
                    challenge_url,
                    dns_txt_record_content: acme::challenge_answer(token, jwk),
                },
            ),
            AuthorizationChallengeView::Valid => before,
        }
    }
}

/// What has to be done next about an order, after looks at some of its authorizations.
pub open spec fn authorizations_seen(
    jwk: JwkView,
    order_url: Seq<char>,
    authorization_urls: Seq<Seq<char>>,
    authorizations: Seq<AuthorizationChallengeView>,
) -> PlaceOrderView
    decreases authorizations.len(),
{
    if authorizations.len() == 0 {
        order_seen(order_url, OrderState::Pending(authorization_urls)).1
    } else {
        match authorizations_seen(
            jwk,
            order_url,
            authorization_urls,
            authorizations.drop_last(),
        ) {
            PlaceOrderView::Authorize(authorizing) => authorization_seen(
                jwk,
                authorizing,
                authorizations.last(),
            ),
            other => other,
        }
    }
}

/// A pending order is placed once each of its authorizations has been looked at, in their order, and
/// not before. It then asks for the answers to the challenges of exactly those that are pending.
pub proof fn all_authorizations_are_seen(
    jwk: JwkView,
    order_url: Seq<char>,
    authorization_urls: Seq<Seq<char>>,
    authorizations: Seq<AuthorizationChallengeView>,
)
    requires
        authorizations.len() <= authorization_urls.len(),
    ensures
        authorizations_seen(jwk, order_url, authorization_urls, authorizations) == if authorizations.len()
            < authorization_urls.len() {
            PlaceOrderView::Authorize(
                AuthorizingView {
                    order_url,
                    authorization_urls,
                    next: authorizations.len(),
                    authorizations: pending_authorizations(
                        jwk,
                        authorization_urls,
                        authorizations,
                    ),
                },
            )
        } else {
            PlaceOrderView::Done(
                OrderView::Pending(
                    OrderPendingView {
                        order_url,
                        authorizations: pending_authorizations(
                            jwk,
                            authorization_urls,
                            authorizations,
                        ),
                    },
                ),
            )
        },
    decreases authorizations.len(),
{
    if authorizations.len() > 0 {
        all_authorizations_are_seen(
            jwk,
            order_url,
            authorization_urls,
            authorizations.drop_last(),
        );
    }
}

/// The challenge that is met is the first pending one of the type dns-01: if one is found, its token and
/// its URL are those of one and the same challenge, and no challenge before it is such a one. None is found
/// only if there is none.
pub proof fn the_first_dns_challenge_is_met(challenges: Seq<ChallengeObject<ChallengePending>>)
    ensures
        first_dns_challenge(challenges) matches Some((token, url)) ==> exists|i: int|
            0 <= i < challenges.len() && (#[trigger] challenges[i] matches ChallengeObject::Pending(found)
                && found.kind@ == "dns-01"@ && found.token@ == token && found.url@ == url) && forall|j: int|
                0 <= j < i ==> !(#[trigger] challenges[j] matches ChallengeObject::Pending(other)
                    && other.kind@ == "dns-01"@),
        first_dns_challenge(challenges) is None ==> forall|i: int|
            0 <= i < challenges.len() ==> !(#[trigger] challenges[i] matches ChallengeObject::Pending(
                other,
            ) && other.kind@ == "dns-01"@),
    decreases challenges.len(),
{
    if challenges.len() > 0 {
        let rest = challenges.skip(1);
        if dns_challenge(challenges[0]) is Some {
            let first = challenges[0];
            assert(first matches ChallengeObject::Pending(found) && found.kind@ == "dns-01"@);
        } else {
            the_first_dns_challenge_is_met(rest);
            if let Some((token, url)) = first_dns_challenge(rest) {
                let i = choose|i: int|
                    0 <= i < rest.len() && (#[trigger] rest[i] matches ChallengeObject::Pending(found)
                        && found.kind@ == "dns-01"@ && found.token@ == token && found.url@ == url)
                        && forall|j: int|
                        0 <= j < i ==> !(#[trigger] rest[j] matches ChallengeObject::Pending(other)
                            && other.kind@ == "dns-01"@);
                assert(challenges[i + 1] == rest[i]);
                assert forall|j: int| 0 <= j < i + 1 implies !(
                #[trigger] challenges[j] matches ChallengeObject::Pending(other) && other.kind@
                    == "dns-01"@) by {
                    if j > 0 {
                        assert(challenges[j] == rest[j - 1]);
                    }
                }
            } else {
                assert forall|i: int| 0 <= i < challenges.len() implies !(
                #[trigger] challenges[i] matches ChallengeObject::Pending(other) && other.kind@
                    == "dns-01"@) by {
                    if i > 0 {
                        assert(challenges[i] == rest[i - 1]);
                    }
                }
            }
        }
    }
}

/// What the server says of an authorization in JSON comes out as it is: a valid one is valid, and of a
/// pending one the first pending challenge of the type dns-01 has to be met, without which there is an
/// error. Any other status than 200 says nothing.
pub proof fn an_authorization_asks_for_its_dns_challenge(
    challenges: Vec<ChallengeObject<ChallengePending>>,
    i: int,
    body: ResponseBody<Result<AuthorizationObject<Vec<ChallengeObject<ChallengePending>>>, String>>,
    status: u16,
    headers: ResponseHeaders,
    now: int,
)
    requires
        http_common::is_json(body.content_type@),
        body.content matches Ok(AuthorizationObject::Pending(listed)) ==> listed == challenges,
        0 <= i <= challenges@.len(),
        forall|j: int|
            0 <= j < i ==> !(#[trigger] challenges@[j] matches ChallengeObject::Pending(other)
                && other.kind@ == "dns-01"@),
    ensures
        ({
            let read = AuthorizationChallenge::interpreted(status, Some(body), headers, now);
            &&& status != 200 ==> read == Ok::<Option<AuthorizationChallengeView>, Seq<Seq<char>>>(None)
            &&& status == 200 ==> match body.content {
                Ok(AuthorizationObject::Valid) => read == Ok::<
                    Option<AuthorizationChallengeView>,
                    Seq<Seq<char>>,
                >(Some(AuthorizationChallengeView::Valid)),
                Ok(AuthorizationObject::Pending(_)) => if i < challenges@.len() {
                    challenges@[i] matches ChallengeObject::Pending(met) ==> met.kind@ == "dns-01"@
                        ==> read == Ok::<Option<AuthorizationChallengeView>, Seq<Seq<char>>>(
                        Some(
                            AuthorizationChallengeView::Pending {
                                token: met.token@,
                                challenge_url: met.url@,
                            },
                        ),
                    )
                } else {
                    read == Err::<Option<AuthorizationChallengeView>, Seq<Seq<char>>>(
                        seq!["did not find any pending dns-01 challenges"@],
                    )
                },
                Err(_) => read is Err,
            }
        }),
{
    lemma_first_dns_challenge(challenges@, i);
}

/// The first pending DNS challenge is not among those that are not, and is the one behind them if that is
/// one.
proof fn lemma_first_dns_challenge(challenges: Seq<ChallengeObject<ChallengePending>>, i: int)
    requires
        0 <= i <= challenges.len(),
        forall|j: int|
            0 <= j < i ==> !(#[trigger] challenges[j] matches ChallengeObject::Pending(other)
                && other.kind@ == "dns-01"@),
    ensures
        i == challenges.len() ==> first_dns_challenge(challenges) is None,
        i < challenges.len() ==> (challenges[i] matches ChallengeObject::Pending(met) ==> met.kind@
            == "dns-01"@ ==> first_dns_challenge(challenges) == Some((met.token@, met.url@))),
    decreases i,
{
    if i > 0 {
        let rest = challenges.skip(1);
        assert(!(challenges[0] matches ChallengeObject::Pending(other) && other.kind@ == "dns-01"@));
        assert forall|j: int| 0 <= j < i - 1 implies !(
        #[trigger] rest[j] matches ChallengeObject::Pending(other) && other.kind@ == "dns-01"@) by {
            assert(rest[j] == challenges[j + 1]);
        }
        lemma_first_dns_challenge(rest, i - 1);
    }
}

/// Items are listed with a comma and a space between two of them, whatever they are.
pub proof fn items_are_listed_in_order(a: Seq<Seq<char>>, b: Seq<Seq<char>>)
    requires
        a.len() > 0,
        b.len() > 0,
    ensures
        listed(a + b) == listed(a) + seq![',', ' '] + listed(b),
        a.len() == 1 ==> listed(a) == a[0],
        listed(Seq::<Seq<char>>::empty()).len() == 0,
    decreases b.len(),
{
    reveal_strlit(", ");
    assert(", "@ =~= seq![',', ' ']);
    assert((a + b).last() == b.last());
    if b.len() == 1 {
        assert((a + b).drop_last() =~= a);
    } else {
        items_are_listed_in_order(a, b.drop_last());
        assert((a + b).drop_last() =~= a + b.drop_last());
    }
}

/// What the server says of an order decides what is done next. An order that is being processed is looked
/// at again, where it is; one that is ready or valid has been placed; and of a pending one the
/// authorizations are looked at, from the first one on. Its state is reported in any case.
pub proof fn the_state_of_an_order_decides(
    order_url: Seq<char>,
    order: OrderState<Seq<Seq<char>>, ()>,
    err: Seq<Seq<char>>,
)
    ensures
        ({
            let (reports, next) = order_seen(order_url, order);
            let shown = <OrderResponse<OrderObjPending, IgnoredAny> as Shown>::shown(order);
            let seen = Report::<Seq<char>>::ObjectState {
                object_type: "acme/order"@,
                object_id: order_url,
                state: shown,
            };
            &&& order_placed(Ok((order, order_url))) == Ok::<
                (Seq<Report<Seq<char>>>, PlaceOrderView),
                Seq<Seq<char>>,
            >((reports, next))
            &&& order_polled(order_url, Ok(order)) == Ok::<
                (Seq<Report<Seq<char>>>, PlaceOrderView),
                Seq<Seq<char>>,
            >((reports, next))
            &&& order_placed(Err(err)) == Err::<
                (Seq<Report<Seq<char>>>, PlaceOrderView),
                Seq<Seq<char>>,
            >(seq!["could not create / get order"@] + err)
            &&& order_polled(order_url, Err(err)) == Err::<
                (Seq<Report<Seq<char>>>, PlaceOrderView),
                Seq<Seq<char>>,
            >(seq!["could not get order"@] + err)
            &&& match order {
                OrderState::Pending(urls) => reports == seq![seen] && if urls.len() == 0 {
                    next matches PlaceOrderView::Done(OrderView::Pending(pending)) && pending.order_url
                        == order_url && pending.authorizations.len() == 0
                } else {
                    next matches PlaceOrderView::Authorize(authorizing) && authorizing.order_url == order_url
                        && authorizing.authorization_urls == urls && authorizing.next == 0
                        && authorizing.authorizations.len() == 0
                },
                OrderState::Processing { retry_after } => next == (PlaceOrderView::Poll {
                    order_url,
                    retry_after,
                }) && reports == seq![
                    seen,
                    Report::<Seq<char>>::Message {
                        message: "Waiting for "@ + time2::shown(retry_after)
                            + " before rechecking order..."@,
                    },
                ],
                OrderState::Ready(_) => reports == seq![seen] && next == PlaceOrderView::Done(
                    OrderView::Ready { order_url },
                ),
                OrderState::Valid { certificate_url } => reports == seq![seen] && next
                    == PlaceOrderView::Done(OrderView::Valid { certificate_url }),
            }
        }),
{
}

/// A look at an authorization goes on to the next one, and adds it to the pending ones if and only if it
/// is pending: with its own URL, the URL of its challenge, and the answer of the account's key to the token
/// of that challenge. Those that were found before stay as they are, and so does the order.
pub proof fn a_pending_authorization_is_answered(
    jwk: JwkView,
    authorizing: AuthorizingView,
    authorization: AuthorizationChallengeView,
    err: Seq<Seq<char>>,
)
    requires
        authorizing.next < authorizing.authorization_urls.len(),
    ensures
        ({
            let url = authorizing.authorization_urls[authorizing.next as int];
            let next = authorization_seen(jwk, authorizing, authorization);
            let found = match next {
                PlaceOrderView::Authorize(left) => left.authorizations,
                PlaceOrderView::Done(OrderView::Pending(order)) => order.authorizations,
                _ => seq![],
            };
            &&& match next {
                PlaceOrderView::Authorize(left) => left.order_url == authorizing.order_url
                    && left.authorization_urls == authorizing.authorization_urls && left.next
                    == authorizing.next + 1 && left.next < left.authorization_urls.len(),
                PlaceOrderView::Done(OrderView::Pending(order)) => order.order_url
                    == authorizing.order_url && authorizing.next + 1
                    == authorizing.authorization_urls.len(),
                _ => false,
            }
            &&& match authorization {
                AuthorizationChallengeView::Pending { token, challenge_url } => found.len()
                    == authorizing.authorizations.len() + 1 && found.drop_last()
                    == authorizing.authorizations && found.last().authorization_url == url
                    && found.last().challenge_url == challenge_url && found.last().dns_txt_record_content
                    == acme::challenge_answer(token, jwk),
                AuthorizationChallengeView::Valid => found == authorizing.authorizations,
            }
            &&& authorization_received(jwk, authorizing, Ok(authorization)) == Ok::<
                (Seq<Report<Seq<char>>>, PlaceOrderView),
                Seq<Seq<char>>,
            >(
                (
                    seq![
                        Report::<Seq<char>>::ObjectState {
                            object_type: "acme/authorization"@,
                            object_id: url,
                            state: <AuthorizationChallenge as Shown>::shown(authorization),
                        },
                    ],
                    next,
                ),
            )
            &&& authorization_received(jwk, authorizing, Err(err)) == Err::<
                (Seq<Report<Seq<char>>>, PlaceOrderView),
                Seq<Seq<char>>,
            >(seq!["could not get authorization"@] + err)
        }),
{
    if let AuthorizationChallengeView::Pending { token, challenge_url } = authorization {
        let added = AuthorizationView {
            authorization_url: authorizing.authorization_urls[authorizing.next as int],
            challenge_url,
            dns_txt_record_content: acme::challenge_answer(token, jwk),
        };
        assert(authorizing.authorizations.push(added).drop_last() =~= authorizing.authorizations);
    }
}

/// Each pending authorization of an order has its answer among those that the order asks for, and there is
/// no answer that is not that of a pending authorization.
pub proof fn each_pending_authorization_has_its_answer(
    jwk: JwkView,
    authorization_urls: Seq<Seq<char>>,
    seen: Seq<AuthorizationChallengeView>,
    k: int,
)
    ensures
        ({
            let found = pending_authorizations(jwk, authorization_urls, seen);
            &&& found.len() <= seen.len()
            &&& 0 <= k < seen.len() ==> (seen[k] matches AuthorizationChallengeView::Pending {
                token,
                challenge_url,
            } ==> exists|j: int|
                0 <= j < found.len() && (#[trigger] found[j]).authorization_url == authorization_urls[k]
                    && found[j].challenge_url == challenge_url && found[j].dns_txt_record_content
                    == acme::challenge_answer(token, jwk))
            &&& 0 <= k < found.len() ==> exists|j: int|
                0 <= j < seen.len() && (#[trigger] seen[j] matches AuthorizationChallengeView::Pending {
                    token,
                    challenge_url,
                } && found[k].authorization_url == authorization_urls[j] && found[k].challenge_url
                    == challenge_url && found[k].dns_txt_record_content == acme::challenge_answer(
                    token,
                    jwk,
                ))
        }),
    decreases seen.len(),
{
    if seen.len() > 0 {
        let before = seen.drop_last();
        let found = pending_authorizations(jwk, authorization_urls, seen);
        let found_before = pending_authorizations(jwk, authorization_urls, before);
        each_pending_authorization_has_its_answer(jwk, authorization_urls, before, k);
        if 0 <= k < seen.len() {
            if let AuthorizationChallengeView::Pending { token, challenge_url } = seen[k] {
                if k < before.len() {
                    assert(before[k] == seen[k]);
                    let j = choose|j: int|
                        0 <= j < found_before.len() && (#[trigger] found_before[j]).authorization_url
                            == authorization_urls[k] && found_before[j].challenge_url == challenge_url
                            && found_before[j].dns_txt_record_content == acme::challenge_answer(token, jwk);
                    assert(found[j] == found_before[j]);
                } else {
                    assert(found[found.len() - 1].authorization_url == authorization_urls[k]);
                }
            }
        }
        if 0 <= k < found.len() {
            if k < found_before.len() {
                assert(found[k] == found_before[k]);
                let j = choose|j: int|
                    0 <= j < before.len() && (
                    #[trigger] before[j] matches AuthorizationChallengeView::Pending {
                        token,
                        challenge_url,
                    } && found_before[k].authorization_url == authorization_urls[j]
                        && found_before[k].challenge_url == challenge_url
                        && found_before[k].dns_txt_record_content == acme::challenge_answer(token, jwk));
                assert(seen[j] == before[j]);
            } else {
                let last = seen.len() - 1;
                assert(seen[last] is Pending);
            }
        }
    }
}

/// There is one answer for each authorization, at its place.
pub proof fn there_is_one_answer_for_each_authorization(authorizations: Seq<AuthorizationView>)
    ensures
        answers(authorizations).len() == authorizations.len(),
        forall|i: int|
            0 <= i < authorizations.len() ==> #[trigger] answers(authorizations)[i]
                == authorizations[i].dns_txt_record_content,
{
}

/// An order names each of its domain names once, in order and as a DNS name, and a domain is ordered
/// together with all the names below it.
pub proof fn an_order_names_all_of_its_domains(names: Seq<Seq<char>>, domain: Seq<char>)
    ensures
        new_order_json(names) == seq!['{'] + json::json_string("identifiers"@) + seq![':']
            + json::json_array(
            Seq::new(
                names.len(),
                |i: int|
                    seq!['{'] + json::json_string("type"@) + seq![':'] + json::json_string("dns"@) + seq![
                        ',',
                    ] + json::json_string("value"@) + seq![':'] + json::json_string(names[i]) + seq!['}'],
            ),
        ) + seq!['}'],
        domain_names(domain) == seq![domain, seq!['*', '.'] + domain],
{
    let items = names.map_values(|name: Seq<char>| identifier_json(name));
    let texts = Seq::new(
        names.len(),
        |i: int|
            seq!['{'] + json::json_string("type"@) + seq![':'] + json::json_string("dns"@) + seq![',']
                + json::json_string("value"@) + seq![':'] + json::json_string(names[i]) + seq!['}'],
    );
    assert forall|i: int| 0 <= i < names.len() implies items[i] == texts[i] by {
        json::lemma_object_of_two(
            "type"@,
            json::json_string("dns"@),
            "value"@,
            json::json_string(names[i]),
        );
    }
    assert(items =~= texts);
    json::an_object_grows_by_its_members(seq![], "identifiers"@, json::json_array(items));
    reveal_strlit("*.");
    assert("*."@ =~= seq!['*', '.']);
}

/// A wait is never shorter than a second or longer than thirty.
pub proof fn waits_are_bounded(headers: ResponseHeaders, now: int)
    ensures
        wait_of(headers, now) == http_common::retry_after_at(
            http_common::header_view(headers.retry_after),
            1_000_000_000,
            30_000_000_000,
            now,
        ),
{
}

/// What the server says of an order in JSON comes out as it is, from a response with the status 200 or
/// 201, together with how long to wait where the order is being processed.
pub proof fn an_order_is_as_the_server_says<P: View, R: View>(
    status: u16,
    body: ResponseBody<Result<OrderObject<P, R>, String>>,
    headers: ResponseHeaders,
    now: int,
)
    requires
        http_common::is_json(body.content_type@),
    ensures
        ({
            let read = OrderResponse::<P, R>::interpreted(status, Some(body), headers, now);
            if status == 200 || status == 201 {
                match body.content {
                    Ok(OrderObject::Pending(pending)) => read == Ok::<
                        Option<OrderState<P::V, R::V>>,
                        Seq<Seq<char>>,
                    >(Some(OrderState::Pending(pending@))),
                    Ok(OrderObject::Processing) => match wait_of(headers, now) {
                        Ok(retry_after) => read == Ok::<Option<OrderState<P::V, R::V>>, Seq<Seq<char>>>(
                            Some(OrderState::Processing { retry_after }),
                        ),
                        Err(err) => read == Err::<Option<OrderState<P::V, R::V>>, Seq<Seq<char>>>(err),
                    },
                    Ok(OrderObject::Ready(ready)) => read == Ok::<
                        Option<OrderState<P::V, R::V>>,
                        Seq<Seq<char>>,
                    >(Some(OrderState::Ready(ready@))),
                    Ok(OrderObject::Valid { certificate_url }) => read == Ok::<
                        Option<OrderState<P::V, R::V>>,
                        Seq<Seq<char>>,
                    >(Some(OrderState::Valid { certificate_url: certificate_url@ })),
                    Err(err) => read is Err,
                }
            } else {
                read == Ok::<Option<OrderState<P::V, R::V>>, Seq<Seq<char>>>(None)
            }
        }),
{
}

/// A question posts nothing to the URL that it asks.
pub proof fn a_question_posts_nothing(url: Seq<char>)
    ensures
        question(url).url == url,
        question(url).body is None,
{
}

/// The token of a challenge does not get into the log: it is shown by its URL alone.
pub proof fn a_token_is_not_shown(one: Seq<char>, other: Seq<char>, challenge_url: Seq<char>)
    ensures
        <AuthorizationChallenge as Shown>::shown(
            AuthorizationChallengeView::Pending { token: one, challenge_url },
        ) == <AuthorizationChallenge as Shown>::shown(
            AuthorizationChallengeView::Pending { token: other, challenge_url },
        ),
        <AuthorizationChallenge as Shown>::shown(
            AuthorizationChallengeView::Pending { token: one, challenge_url },
        ) == "Pending { hasher: Sha256_32 { .. }, challenge_url: "@ + challenge_url + " }"@,
        <AuthorizationChallenge as Shown>::shown(AuthorizationChallengeView::Valid) == "Valid"@,
{
}

/// An order is shown with its state and with what the state carries.
pub proof fn an_order_is_shown_with_its_state<P: Shown, R: Shown>(
    state: OrderState<P::V, R::V>,
    url: Seq<char>,
    urls: Seq<Seq<char>>,
)
    ensures
        ({
            let shown = match state {
                OrderState::Pending(pending) => "Pending("@ + P::shown(pending) + ")"@,
                OrderState::Processing { retry_after } => "Processing { retry_after: "@ + time2::shown(
                    retry_after,
                ) + " }"@,
                OrderState::Ready(ready) => "Ready("@ + R::shown(ready) + ")"@,
                OrderState::Valid { certificate_url } => "Valid { certificate_url: "@ + certificate_url
                    + " }"@,
            };
            &&& <OrderResponse<P, R> as Shown>::shown(state) == shown
            &&& <ResponseWithLocation<OrderResponse<P, R>> as Shown>::shown((state, url)) == "("@ + url
                + ", "@ + shown + ")"@
        }),
        <OrderObjPending as Shown>::shown(urls) == "OrderObjPending { authorization_urls: ["@ + listed(
            urls,
        ) + "] }"@,
        <OrderObjReady as Shown>::shown(url) == "OrderObjReady { finalize_url: "@ + url + " }"@,
        <IgnoredAny as Shown>::shown(()) == "IgnoredAny"@,
{
}

/// The body of a response counts where its status and its media type are the expected ones.
pub proof fn bodies_count_where_they_are_expected(status: u16, content_type: Seq<u8>, headers: ResponseHeaders)
    ensures
        <OrderResponse<OrderObjPending, IgnoredAny> as FromResponse>::reads(status, content_type, headers)
            <==> (status == 200 || status == 201) && http_common::is_json(content_type),
        <AuthorizationChallenge as FromResponse>::reads(status, content_type, headers)
            <==> status == 200 && http_common::is_json(content_type),
{
}

} // verus!
