//! What follows an order: its challenges are met, it is finalized, and its certificate is fetched.

use vstd::prelude::*;

use crate::acme::account::{Account, Post, PostView};
use crate::acme::order;
use crate::acme::order::{
    AuthorizationObject, ChallengeObject, IgnoredAny, OrderObjReady,
    OrderPending, OrderPendingAuthorization, OrderPendingView, OrderReady, OrderResponse,
    OrderState, OrderValid, Step,
};
use crate::acme::AccountKey;
use crate::error;
use crate::error::Error;
use crate::http_common;
use crate::http_common::{FromResponse, HeaderValue, ResponseBody, ResponseHeaders, StatusCode, Uri};
use crate::json;
use crate::log2;
use crate::log2::{Report, Scope, ScopeView, ScopedObjectOperation, Shown};
use crate::text;
use crate::time2;
use crate::time2::Duration;

verus! {

/// A challenge that is being met.
#[derive(Debug)]
pub enum ChallengeResponse {
    Pending,
    Processing { retry_after: Duration },
    Valid,
}

/// The state of a challenge.
pub enum ChallengeState {
    Pending,
    Processing { retry_after: nat },
    Valid,
}

impl View for ChallengeResponse {
    type V = ChallengeState;

    open spec fn view(&self) -> ChallengeState {
        match self {
            ChallengeResponse::Pending => ChallengeState::Pending,
            ChallengeResponse::Processing { retry_after } => ChallengeState::Processing {
                retry_after: retry_after@,
            },
            ChallengeResponse::Valid => ChallengeState::Valid,
        }
    }
}

impl FromResponse for ChallengeResponse {
    type Content = Result<ChallengeObject<IgnoredAny>, String>;

    open spec fn interpreted(
        status: u16,
        body: Option<ResponseBody<Result<ChallengeObject<IgnoredAny>, String>>>,
        headers: ResponseHeaders,
        now: int,
    ) -> Result<Option<ChallengeState>, Seq<Seq<char>>> {
        match http_common::json_if(status == 200, body) {
            Ok(Some(ChallengeObject::Pending(_))) => Ok(Some(ChallengeState::Pending)),
            Ok(Some(ChallengeObject::Processing)) => match order::wait_of(headers, now) {
                Ok(retry_after) => Ok(Some(ChallengeState::Processing { retry_after })),
                Err(err) => Err(err),
            },
            Ok(Some(ChallengeObject::Valid)) => Ok(Some(ChallengeState::Valid)),
            Ok(None) => Ok(None),
            Err(err) => Err(err),
        }
    }

    fn from_response(
        status: StatusCode,
        body: Option<ResponseBody<Result<ChallengeObject<IgnoredAny>, String>>>,
        headers: &ResponseHeaders,
        now: i128,
    ) -> (r: Result<Option<ChallengeResponse>, Error>) {
        match http_common::expect_json(status.as_u16() == 200, body) {
            Ok(Some(ChallengeObject::Pending(_))) => Ok(Some(ChallengeResponse::Pending)),
            Ok(Some(ChallengeObject::Processing)) => match order::get_wait(headers, now) {
                Ok(retry_after) => Ok(Some(ChallengeResponse::Processing { retry_after })),
                Err(err) => Err(err),
            },
            Ok(Some(ChallengeObject::Valid)) => Ok(Some(ChallengeResponse::Valid)),
            Ok(None) => Ok(None),
            Err(err) => Err(err),
        }
    }

    open spec fn reads(status: u16, content_type: Seq<u8>, headers: ResponseHeaders) -> bool {
        status == 200 && http_common::is_json(content_type)
    }

    fn reads_body(
        status: StatusCode,
        content_type: &HeaderValue,
        headers: &ResponseHeaders,
    ) -> (r: bool) {
        status.as_u16() == 200 && http_common::has_json_type(content_type)
    }

    proof fn unread_does_not_matter(
        status: u16,
        content_type: HeaderValue,
        in_one_piece: bool,
        one: Result<ChallengeObject<IgnoredAny>, String>,
        other: Result<ChallengeObject<IgnoredAny>, String>,
        headers: ResponseHeaders,
        now: int,
    ) {
    }
}

impl Shown for ChallengeResponse {
    open spec fn shown(value: ChallengeState) -> Seq<char> {
        match value {
            ChallengeState::Pending => "Pending"@,
            ChallengeState::Processing { retry_after } => order::with_field(
                "Processing { retry_after: "@,
                time2::shown(retry_after),
            ),
            ChallengeState::Valid => "Valid"@,
        }
    }

    fn show(&self) -> (r: String) {
        match self {
            ChallengeResponse::Pending => "Pending".to_owned(),
            ChallengeResponse::Processing { retry_after } => order::show_field(
                "Processing { retry_after: ",
                retry_after.text().as_str(),
            ),
            ChallengeResponse::Valid => "Valid".to_owned(),
        }
    }
}

/// An authorization whose challenge has been met.
#[derive(Debug)]
pub enum AuthorizationResponse {
    Pending { retry_after: Duration },
    Valid,
}

/// The state of an authorization.
pub enum AuthorizationState {
    Pending { retry_after: nat },
    Valid,
}

impl View for AuthorizationResponse {
    type V = AuthorizationState;

    open spec fn view(&self) -> AuthorizationState {
        match self {
            AuthorizationResponse::Pending { retry_after } => AuthorizationState::Pending {
                retry_after: retry_after@,
            },
            AuthorizationResponse::Valid => AuthorizationState::Valid,
        }
    }
}

impl FromResponse for AuthorizationResponse {
    type Content = Result<AuthorizationObject<IgnoredAny>, String>;

    open spec fn interpreted(
        status: u16,
        body: Option<ResponseBody<Result<AuthorizationObject<IgnoredAny>, String>>>,
        headers: ResponseHeaders,
        now: int,
    ) -> Result<Option<AuthorizationState>, Seq<Seq<char>>> {
        match http_common::json_if(status == 200, body) {
            Ok(Some(AuthorizationObject::Pending(_))) => match order::wait_of(headers, now) {
                Ok(retry_after) => Ok(Some(AuthorizationState::Pending { retry_after })),
                Err(err) => Err(err),
            },
            Ok(Some(AuthorizationObject::Valid)) => Ok(Some(AuthorizationState::Valid)),
            Ok(None) => Ok(None),
            Err(err) => Err(err),
        }
    }

    fn from_response(
        status: StatusCode,
        body: Option<ResponseBody<Result<AuthorizationObject<IgnoredAny>, String>>>,
        headers: &ResponseHeaders,
        now: i128,
    ) -> (r: Result<Option<AuthorizationResponse>, Error>) {
        match http_common::expect_json(status.as_u16() == 200, body) {
            Ok(Some(AuthorizationObject::Pending(_))) => match order::get_wait(headers, now) {
                Ok(retry_after) => Ok(Some(AuthorizationResponse::Pending { retry_after })),
                Err(err) => Err(err),
            },
            Ok(Some(AuthorizationObject::Valid)) => Ok(Some(AuthorizationResponse::Valid)),
            Ok(None) => Ok(None),
            Err(err) => Err(err),
        }
    }

    open spec fn reads(status: u16, content_type: Seq<u8>, headers: ResponseHeaders) -> bool {
        status == 200 && http_common::is_json(content_type)
    }

    fn reads_body(
        status: StatusCode,
        content_type: &HeaderValue,
        headers: &ResponseHeaders,
    ) -> (r: bool) {
        status.as_u16() == 200 && http_common::has_json_type(content_type)
    }

    proof fn unread_does_not_matter(
        status: u16,
        content_type: HeaderValue,
        in_one_piece: bool,
        one: Result<AuthorizationObject<IgnoredAny>, String>,
        other: Result<AuthorizationObject<IgnoredAny>, String>,
        headers: ResponseHeaders,
        now: int,
    ) {
    }
}

impl Shown for AuthorizationResponse {
    open spec fn shown(value: AuthorizationState) -> Seq<char> {
        match value {
            AuthorizationState::Pending { retry_after } => order::with_field(
                "Pending { retry_after: "@,
                time2::shown(retry_after),
            ),
            AuthorizationState::Valid => "Valid"@,
        }
    }

    fn show(&self) -> (r: String) {
        match self {
            AuthorizationResponse::Pending { retry_after } => order::show_field(
                "Pending { retry_after: ",
                retry_after.text().as_str(),
            ),
            AuthorizationResponse::Valid => "Valid".to_owned(),
        }
    }
}

/// An order whose challenges are being met, in turn: that of the authorization with the number `next`
/// is next.
#[derive(Debug)]
struct Progress {
    order_url: Uri,
    authorizations: Vec<OrderPendingAuthorization>,
    next: usize,
}

impl Progress {
    #[verifier::type_invariant]
    spec fn unfinished(self) -> bool {
        self.next < self.authorizations@.len()
    }
}

/// A challenge that has to be met.
#[derive(Debug)]
pub struct CompleteChallenge {
    progress: Progress,
    /// Whether the server has been told already that the challenge is met.
    answered: bool,
    /// How long to wait before the challenge is looked at.
    retry_after: Option<Duration>,
}

/// An authorization that has to become valid.
#[derive(Debug)]
pub struct AwaitAuthorization {
    progress: Progress,
    /// How long to wait before the authorization is looked at.
    retry_after: Option<Duration>,
}

/// What has to be done next to complete the authorizations of an order.
#[derive(Debug)]
pub enum CompleteAuthorization {
    Challenge(CompleteChallenge),
    Authorization(AwaitAuthorization),
    Done(OrderReady),
}

/// What has to be done next to complete the authorizations of an order: meet the challenge of the
/// one with the number `next`, wait for the one with the number `next`, or nothing.
pub enum CompletionState {
    Challenge { next: nat, answered: bool, retry_after: Option<nat> },
    Authorization { next: nat, retry_after: Option<nat> },
    Done,
}

/// An order whose authorizations are being completed.
#[verifier::ext_equal]
pub struct CompletionView {
    pub order: OrderPendingView,
    pub state: CompletionState,
}

impl View for Progress {
    type V = (OrderPendingView, nat);

    closed spec fn view(&self) -> (OrderPendingView, nat) {
        (
            OrderPendingView {
                order_url: self.order_url@,
                authorizations: order::authorizations_view(self.authorizations@),
            },
            self.next as nat,
        )
    }
}

/// The view of an optional span.
pub open spec fn optional_span(span: Option<Duration>) -> Option<nat> {
    match span {
        Some(span) => Some(span@),
        None => None,
    }
}

impl View for CompleteChallenge {
    type V = CompletionView;

    closed spec fn view(&self) -> CompletionView {
        CompletionView {
            order: self.progress@.0,
            state: CompletionState::Challenge {
                next: self.progress@.1,
                answered: self.answered,
                retry_after: optional_span(self.retry_after),
            },
        }
    }
}

impl View for AwaitAuthorization {
    type V = CompletionView;

    closed spec fn view(&self) -> CompletionView {
        CompletionView {
            order: self.progress@.0,
            state: CompletionState::Authorization {
                next: self.progress@.1,
                retry_after: optional_span(self.retry_after),
            },
        }
    }
}

/// Whether `completion` is what has to be done next.
pub open spec fn is_next(completion: CompleteAuthorization, view: CompletionView) -> bool {
    match completion {
        CompleteAuthorization::Challenge(challenge) => view.state is Challenge && challenge@ == view,
        CompleteAuthorization::Authorization(authorization) => view.state is Authorization
            && authorization@ == view,
        CompleteAuthorization::Done(ready) => view.state is Done && ready@ == view.order.order_url,
    }
}

/// What has to be done once the authorizations before `next` are valid, and its report.
pub open spec fn authorizations_valid(order: OrderPendingView, next: nat) -> (
    Seq<Report<Seq<char>>>,
    CompletionState,
) {
    if next < order.authorizations.len() {
        (
            seq![
                Report::Message {
                    message: "Completing challenge "@
                        + order.authorizations[next as int].challenge_url + " ..."@,
                },
            ],
            CompletionState::Challenge { next, answered: false, retry_after: None },
        )
    } else {
        (seq![], CompletionState::Done)
    }
}

/// What a look at the challenge of the authorization with the number `next` comes to.
pub open spec fn challenge_seen(
    order: OrderPendingView,
    next: nat,
    challenge: ChallengeState,
) -> (Seq<Report<Seq<char>>>, CompletionState) {
    let authorization = order.authorizations[next as int];
    let seen = order::state(
        "acme/challenge"@,
        authorization.challenge_url,
        <ChallengeResponse as Shown>::shown(challenge),
    );
    match challenge {
        ChallengeState::Pending => (
            seq![seen, order::waiting(1_000_000_000, " before rechecking challenge..."@)],
            CompletionState::Challenge { next, answered: true, retry_after: Some(1_000_000_000) },
        ),
        ChallengeState::Processing { retry_after } => (
            seq![seen, order::waiting(retry_after, " before rechecking challenge..."@)],
            CompletionState::Challenge { next, answered: true, retry_after: Some(retry_after) },
        ),
        ChallengeState::Valid => (
            seq![
                seen,
                Report::Message {
                    message: "Waiting for authorization "@ + authorization.authorization_url
                        + " ..."@,
                },
            ],
            CompletionState::Authorization { next, retry_after: None },
        ),
    }
}

/// What a look at the authorization with the number `next` comes to.
pub open spec fn authorization_seen(
    order: OrderPendingView,
    next: nat,
    authorization: AuthorizationState,
) -> (Seq<Report<Seq<char>>>, CompletionState) {
    let seen = order::state(
        "acme/authorization"@,
        order.authorizations[next as int].authorization_url,
        <AuthorizationResponse as Shown>::shown(authorization),
    );
    match authorization {
        AuthorizationState::Pending { retry_after } => (
            seq![seen, order::waiting(retry_after, " before rechecking authorization..."@)],
            CompletionState::Authorization { next, retry_after: Some(retry_after) },
        ),
        AuthorizationState::Valid => {
            let (reports, state) = authorizations_valid(order, next + 1);
            (seq![seen] + reports, state)
        },
    }
}

/// Whether a step is the one that `next` describes, for an order.
pub open spec fn is_step(
    step: Step<CompleteAuthorization>,
    order: OrderPendingView,
    next: (Seq<Report<Seq<char>>>, CompletionState),
) -> bool {
    log2::reports_view(step.reports@) == next.0 && is_next(
        step.next,
        CompletionView { order, state: next.1 },
    )
}

/// A message about a URL.
fn report_url(head: &str, url: &Uri) -> (r: Report<String>)
    ensures
        r@ == (Report::Message { message: head@ + url@ + " ..."@ }),
{
    let mut message = head.to_owned();
    message.append(url.as_str());
    message.append(" ...");
    log2::message_report(message)
}

/// Goes on once the authorizations before `next` are valid.
fn next_authorization(
    order_url: Uri,
    authorizations: Vec<OrderPendingAuthorization>,
    next: usize,
) -> (r: Step<CompleteAuthorization>)
    ensures
        ({
            let order = OrderPendingView {
                order_url: order_url@,
                authorizations: order::authorizations_view(authorizations@),
            };
            is_step(r, order, authorizations_valid(order, next as nat))
        }),
{
    let mut reports: Vec<Report<String>> = Vec::new();
    if next < authorizations.len() {
        let challenge_url = authorizations[next].challenge_url();
        reports.push(report_url("Completing challenge ", &challenge_url));
        assert(log2::reports_view(reports@) =~= seq![
            Report::Message {
                message: "Completing challenge "@ + challenge_url@ + " ..."@,
            },
        ]);
        let progress = Progress { order_url, authorizations, next };
        Step {
            reports,
            next: CompleteAuthorization::Challenge(
                CompleteChallenge { progress, answered: false, retry_after: None },
            ),
        }
    } else {
        assert(log2::reports_view(reports@) =~= seq![]);
        Step { reports, next: CompleteAuthorization::Done(OrderReady::new(order_url)) }
    }
}

impl<'a, K: AccountKey> Account<'a, K> {
    /// Starts to complete the authorizations of an order.
    pub fn complete_authorization(&self, order: OrderPending) -> (r: Step<CompleteAuthorization>)
        ensures
            is_step(r, order@, authorizations_valid(order@, 0)),
    {
        let (order_url, authorizations) = order.into_parts();
        next_authorization(order_url, authorizations, 0)
    }
}

/// What tells the server that a challenge is met: an empty object.
pub open spec fn challenge_complete_json() -> Seq<char> {
    json::json_object(seq![])
}

/// What is posted next to complete the authorizations of an order.
pub open spec fn completion_post(completion: CompletionView) -> Option<PostView> {
    match completion.state {
        CompletionState::Challenge { next, answered, .. } => Some(
            PostView {
                url: completion.order.authorizations[next as int].challenge_url,
                body: if answered {
                    None
                } else {
                    Some(challenge_complete_json())
                },
            },
        ),
        CompletionState::Authorization { next, .. } => Some(
            order::question(completion.order.authorizations[next as int].authorization_url),
        ),
        CompletionState::Done => None,
    }
}

impl CompleteChallenge {
    /// How long to wait before the challenge is looked at.
    pub fn retry_after(&self) -> (r: Option<Duration>)
        ensures
            self@.state matches CompletionState::Challenge { retry_after, .. } && optional_span(r)
                == retry_after,
    {
        self.retry_after
    }

    /// Tells the server that the challenge is met, or, once it has been told, looks at the
    /// challenge.
    pub fn post(&self) -> (r: Post)
        ensures
            self@.state matches CompletionState::Challenge { next, answered, .. } && next
                < self@.order.authorizations.len() && r@ == (PostView {
                url: self@.order.authorizations[next as int].challenge_url,
                body: if answered {
                    None
                } else {
                    Some(challenge_complete_json())
                },
            }),
            completion_post(self@) == Some(r@),
    {
        proof {
            use_type_invariant(&self.progress);
        }
        let url = self.progress.authorizations[self.progress.next].challenge_url();
        let body = if self.answered {
            None
        } else {
            let fields: Vec<(&str, String)> = Vec::new();
            assert(json::members(fields@) =~= seq![]);
            Some(json::object(&fields))
        };
        Post { url, body }
    }

    /// Goes on with the order.
    pub fn received(self, response: Result<ChallengeResponse, Error>) -> (r: Result<
        Step<CompleteAuthorization>,
        Error,
    >)
        ensures
            match error::result_view(response) {
                Ok(challenge) => self@.state matches CompletionState::Challenge { next, .. }
                    && r matches Ok(step) && is_step(
                    step,
                    self@.order,
                    challenge_seen(self@.order, next, challenge),
                ),
                Err(err) => r matches Err(e) && e@ == error::in_context(
                    "could not complete challenge"@,
                    err,
                ),
            },
    {
        let challenge = match response {
            Ok(challenge) => challenge,
            Err(err) => {
                return Err(err.context("could not complete challenge"));
            },
        };
        let progress = self.progress;
        proof {
            use_type_invariant(&progress);
        }
        let challenge_url = progress.authorizations[progress.next].challenge_url();
        let authorization_url = progress.authorizations[progress.next].authorization_url();
        let mut reports = vec![
            log2::state_report("acme/challenge", challenge_url.as_str(), challenge.show()),
        ];
        let ghost expected = challenge_seen(progress@.0, progress@.1, challenge@);
        let next = match challenge {
            ChallengeResponse::Pending => {
                let retry_after = Duration::from_secs(1);
                reports.push(
                    order::report_waiting(retry_after, " before rechecking challenge..."),
                );
                CompleteAuthorization::Challenge(
                    CompleteChallenge {
                        progress,
                        answered: true,
                        retry_after: Some(retry_after),
                    },
                )
            },
            ChallengeResponse::Processing { retry_after } => {
                reports.push(
                    order::report_waiting(retry_after, " before rechecking challenge..."),
                );
                CompleteAuthorization::Challenge(
                    CompleteChallenge {
                        progress,
                        answered: true,
                        retry_after: Some(retry_after),
                    },
                )
            },
            ChallengeResponse::Valid => {
                reports.push(report_url("Waiting for authorization ", &authorization_url));
                CompleteAuthorization::Authorization(
                    AwaitAuthorization { progress, retry_after: None },
                )
            },
        };
        assert(log2::reports_view(reports@) =~= expected.0);
        Ok(Step { reports, next })
    }
}

impl AwaitAuthorization {
    /// How long to wait before the authorization is looked at.
    pub fn retry_after(&self) -> (r: Option<Duration>)
        ensures
            self@.state matches CompletionState::Authorization { retry_after, .. }
                && optional_span(r) == retry_after,
    {
        self.retry_after
    }

    /// Looks at the authorization.
    pub fn post(&self) -> (r: Post)
        ensures
            self@.state matches CompletionState::Authorization { next, .. } && next
                < self@.order.authorizations.len() && r@ == order::question(
                self@.order.authorizations[next as int].authorization_url,
            ),
            completion_post(self@) == Some(r@),
    {
        proof {
            use_type_invariant(&self.progress);
        }
        let url = self.progress.authorizations[self.progress.next].authorization_url();
        Post { url, body: None }
    }

    /// Goes on with the order.
    pub fn received(self, response: Result<AuthorizationResponse, Error>) -> (r: Result<
        Step<CompleteAuthorization>,
        Error,
    >)
        ensures
            match error::result_view(response) {
                Ok(authorization) => self@.state matches CompletionState::Authorization {
                    next,
                    ..
                } && r matches Ok(step) && is_step(
                    step,
                    self@.order,
                    authorization_seen(self@.order, next, authorization),
                ),
                Err(err) => r matches Err(e) && e@ == error::in_context(
                    "could not get authorization"@,
                    err,
                ),
            },
    {
        let authorization = match response {
            Ok(authorization) => authorization,
            Err(err) => {
                return Err(err.context("could not get authorization"));
            },
        };
        let progress = self.progress;
        proof {
            use_type_invariant(&progress);
        }
        let authorization_url = progress.authorizations[progress.next].authorization_url();
        let mut reports = vec![
            log2::state_report(
                "acme/authorization",
                authorization_url.as_str(),
                authorization.show(),
            ),
        ];
        let ghost expected = authorization_seen(progress@.0, progress@.1, authorization@);
        match authorization {
            AuthorizationResponse::Pending { retry_after } => {
                reports.push(
                    order::report_waiting(retry_after, " before rechecking authorization..."),
                );
                assert(log2::reports_view(reports@) =~= expected.0);
                Ok(
                    Step {
                        reports,
                        next: CompleteAuthorization::Authorization(
                            AwaitAuthorization { progress, retry_after: Some(retry_after) },
                        ),
                    },
                )
            },
            AuthorizationResponse::Valid => {
                assert(progress.next < progress.authorizations.len());
                let step = next_authorization(
                    progress.order_url,
                    progress.authorizations,
                    progress.next + 1,
                );
                let mut more = step.reports;
                let ghost first = log2::reports_view(reports@);
                let ghost second = log2::reports_view(more@);
                reports.append(&mut more);
                assert(log2::reports_view(reports@) =~= first + second);
                assert(first =~= seq![
                    order::state(
                        "acme/authorization"@,
                        authorization_url@,
                        <AuthorizationResponse as Shown>::shown(authorization@),
                    ),
                ]);
                Ok(Step { reports, next: step.next })
            },
        }
    }
}

/// What the server says while the authorizations of an order are being completed.
pub enum CompletionEvent {
    Challenge(ChallengeState),
    Authorization(AuthorizationState),
}

/// What has to be done after the server has said something. It says only what it was asked.
pub open spec fn completion_advanced(
    order: OrderPendingView,
    state: CompletionState,
    event: CompletionEvent,
) -> CompletionState {
    match (state, event) {
        (
            CompletionState::Challenge { next, .. },
            CompletionEvent::Challenge(challenge),
        ) => challenge_seen(order, next, challenge).1,
        (
            CompletionState::Authorization { next, .. },
            CompletionEvent::Authorization(authorization),
        ) => authorization_seen(order, next, authorization).1,
        _ => state,
    }
}

/// What has to be done after the server has said some things.
pub open spec fn completion_run(order: OrderPendingView, events: Seq<CompletionEvent>) -> CompletionState
    decreases events.len(),
{
    if events.len() == 0 {
        authorizations_valid(order, 0).1
    } else {
        completion_advanced(order, completion_run(order, events.drop_last()), events.last())
    }
}

/// How many authorizations the server has called valid when it was asked.
pub open spec fn valid_authorizations(order: OrderPendingView, events: Seq<CompletionEvent>) -> nat
    decreases events.len(),
{
    if events.len() == 0 {
        0
    } else {
        let before = valid_authorizations(order, events.drop_last());
        match (completion_run(order, events.drop_last()), events.last()) {
            (
                CompletionState::Authorization { .. },
                CompletionEvent::Authorization(AuthorizationState::Valid),
            ) => before + 1,
            _ => before,
        }
    }
}

/// An order is called ready exactly when the server has called all of its authorizations valid, one
/// after the other; as long as it is not, the next one is the first that has not been called valid.
pub proof fn ready_when_all_are_valid(order: OrderPendingView, events: Seq<CompletionEvent>)
    ensures
        valid_authorizations(order, events) <= order.authorizations.len(),
        completion_run(order, events) is Done <==> valid_authorizations(order, events)
            == order.authorizations.len(),
        match completion_run(order, events) {
            CompletionState::Challenge { next, .. } => next == valid_authorizations(order, events),
            CompletionState::Authorization { next, .. } => next == valid_authorizations(
                order,
                events,
            ),
            CompletionState::Done => true,
        },
    decreases events.len(),
{
    if events.len() > 0 {
        ready_when_all_are_valid(order, events.drop_last());
    }
}

/// Where the base64 alphabets differ, the character of the URL-safe one.
pub open spec fn url_safe(c: char) -> char {
    if c == '+' {
        '-'
    } else if c == '/' {
        '_'
    } else {
        c
    }
}

/// A text without the `=` characters at its end.
pub open spec fn without_padding(s: Seq<char>) -> Seq<char>
    decreases s.len(),
{
    if s.len() > 0 && s.last() == '=' {
        without_padding(s.drop_last())
    } else {
        s
    }
}

/// A certificate signing request, in the URL-safe base64 alphabet and without padding, that is given
/// in the standard alphabet.
pub open spec fn url_safe_csr(csr: Seq<char>) -> Seq<char> {
    without_padding(csr.map_values(|c: char| url_safe(c)))
}

/// Puts a certificate signing request into the URL-safe base64 alphabet, without padding.
pub fn to_url_safe_csr(csr: &str) -> (r: String)
    ensures
        r@ == url_safe_csr(csr@),
{
    let chars = text::chars_of(csr);
    let mut safe: Vec<char> = Vec::new();
    for i in 0..chars.len()
        invariant
            chars@ == csr@,
            safe@.len() == i,
            forall|j: int| 0 <= j < i ==> #[trigger] safe@[j] == url_safe(csr@[j]),
    {
        let c = chars[i];
        safe.push(
            if c == '+' {
                '-'
            } else if c == '/' {
                '_'
            } else {
                c
            },
        );
    }
    let ghost mapped = csr@.map_values(|c: char| url_safe(c));
    assert(safe@ =~= mapped);
    let mut to = safe.len();
    assert(mapped.take(to as int) =~= mapped);
    while to > 0 && safe[to - 1] == '='
        invariant
            to <= safe@.len(),
            safe@ == mapped,
            without_padding(mapped) == without_padding(mapped.take(to as int)),
        decreases to,
    {
        assert(mapped.take(to as int).drop_last() =~= mapped.take(to - 1));
        to = to - 1;
    }
    let r = string_up_to(&safe, to);
    r
}

/// The text of the first `to` characters.
fn string_up_to(chars: &Vec<char>, to: usize) -> (r: String)
    requires
        to <= chars@.len(),
    ensures
        r@ == chars@.take(to as int),
{
    let r = text::string_of(chars, 0, to);
    assert(r@ =~= chars@.take(to as int));
    r
}

/// What goes to the server has no characters left that the URL-safe alphabet lacks, where the request
/// was in the standard one.
pub proof fn url_safe_csr_is_url_safe(csr: Seq<char>)
    requires
        forall|i: int|
            0 <= i < csr.len() ==> 'A' <= #[trigger] csr[i] <= 'Z' || 'a' <= csr[i] <= 'z' || '0'
                <= csr[i] <= '9' || csr[i] == '+' || csr[i] == '/' || csr[i] == '=',
        forall|i: int, j: int|
            0 <= i < j < csr.len() && csr[i] == '=' ==> #[trigger] csr[j] == #[trigger] csr[i],
    ensures
        forall|i: int|
            0 <= i < url_safe_csr(csr).len() ==> crate::encoding::is_base64url(
                #[trigger] url_safe_csr(csr)[i],
            ),
{
    lemma_without_padding(csr.map_values(|c: char| url_safe(c)));
    let mapped = csr.map_values(|c: char| url_safe(c));
    let r = url_safe_csr(csr);
    assert forall|i: int| 0 <= i < r.len() implies crate::encoding::is_base64url(
        #[trigger] r[i],
    ) by {
        assert(r[i] == mapped[i]);
        assert(mapped[i] == url_safe(csr[i]));
        if csr[i] == '=' {
            assert(csr[r.len() - 1] == csr[i]) by {
                if i < r.len() - 1 {
                    assert(csr[r.len() - 1] == csr[i]);
                }
            }
            assert(mapped[r.len() - 1] == '=');
        }
    }
}

/// What is left without padding is a start of the text that does not end with padding.
proof fn lemma_without_padding(s: Seq<char>)
    ensures
        without_padding(s).len() <= s.len(),
        without_padding(s) == s.take(without_padding(s).len() as int),
        without_padding(s).len() > 0 ==> s[without_padding(s).len() - 1] != '=',
    decreases s.len(),
{
    if s.len() > 0 && s.last() == '=' {
        lemma_without_padding(s.drop_last());
        assert(s.drop_last().take(without_padding(s).len() as int) =~= s.take(
            without_padding(s).len() as int,
        ));
    } else {
        assert(s.take(s.len() as int) =~= s);
    }
}

/// An order that is being finalized.
#[derive(Debug)]
pub struct FinalizePoll {
    order_url: Uri,
    csr: String,
    /// How long to wait before the order is looked at.
    retry_after: Option<Duration>,
}

/// An order whose certificate signing request has to be sent.
#[derive(Debug)]
pub struct FinalizeSend {
    order_url: Uri,
    csr: String,
    finalize_url: Uri,
}

/// What has to be done next to finalize an order.
#[derive(Debug)]
pub enum FinalizeOrder {
    /// Look at the order.
    Poll(FinalizePoll),
    /// Send the certificate signing request.
    Send(FinalizeSend),
    /// Nothing: the order has been finalized.
    Done(OrderValid),
}

/// What has to be done next to finalize an order.
pub enum FinalizeOrderView {
    Poll { order_url: Seq<char>, csr: Seq<char>, retry_after: Option<nat> },
    Send { order_url: Seq<char>, csr: Seq<char>, finalize_url: Seq<char> },
    Done { certificate_url: Seq<char> },
}

impl View for FinalizePoll {
    type V = (Seq<char>, Seq<char>, Option<nat>);

    closed spec fn view(&self) -> (Seq<char>, Seq<char>, Option<nat>) {
        (self.order_url@, self.csr@, optional_span(self.retry_after))
    }
}

impl View for FinalizeSend {
    type V = (Seq<char>, Seq<char>, Seq<char>);

    closed spec fn view(&self) -> (Seq<char>, Seq<char>, Seq<char>) {
        (self.order_url@, self.csr@, self.finalize_url@)
    }
}

impl View for FinalizeOrder {
    type V = FinalizeOrderView;

    open spec fn view(&self) -> FinalizeOrderView {
        match self {
            FinalizeOrder::Poll(poll) => FinalizeOrderView::Poll {
                order_url: poll@.0,
                csr: poll@.1,
                retry_after: poll@.2,
            },
            FinalizeOrder::Send(send) => FinalizeOrderView::Send {
                order_url: send@.0,
                csr: send@.1,
                finalize_url: send@.2,
            },
            FinalizeOrder::Done(valid) => FinalizeOrderView::Done { certificate_url: valid@ },
        }
    }
}

/// What a look at an order that is being finalized comes to: what is reported, and what has to be
/// done next.
pub open spec fn finalizing_order_seen(
    order_url: Seq<char>,
    csr: Seq<char>,
    order: OrderState<(), Seq<char>>,
) -> (Seq<Report<Seq<char>>>, Result<FinalizeOrderView, Seq<Seq<char>>>) {
    let seen = order::state(
        "acme/order"@,
        order_url,
        <OrderResponse<IgnoredAny, OrderObjReady> as Shown>::shown(order),
    );
    match order {
        OrderState::Pending(_) => (
            seq![seen],
            Err(error::message("order is still pending"@)),
        ),
        OrderState::Processing { retry_after } => (
            seq![seen, order::waiting(retry_after, " before rechecking order..."@)],
            Ok(FinalizeOrderView::Poll { order_url, csr, retry_after: Some(retry_after) }),
        ),
        OrderState::Ready(finalize_url) => (
            seq![seen],
            Ok(FinalizeOrderView::Send { order_url, csr, finalize_url }),
        ),
        OrderState::Valid { certificate_url } => (
            seq![seen],
            Ok(FinalizeOrderView::Done { certificate_url }),
        ),
    }
}

/// What the response to a look at an order that is being finalized comes to.
pub open spec fn finalizing_order_received(
    order_url: Seq<char>,
    csr: Seq<char>,
    response: Result<OrderState<(), Seq<char>>, Seq<Seq<char>>>,
) -> (Seq<Report<Seq<char>>>, Result<FinalizeOrderView, Seq<Seq<char>>>) {
    match response {
        Ok(order) => finalizing_order_seen(order_url, csr, order),
        Err(err) => (seq![], Err(error::in_context("could not get order"@, err))),
    }
}

/// What sends a certificate signing request.
pub open spec fn finalize_json(csr: Seq<char>) -> Seq<char> {
    json::json_object(seq![("csr"@, json::json_string(url_safe_csr(csr)))])
}

/// What is posted next to finalize an order.
pub open spec fn finalizing_post(finalizing: FinalizeOrderView) -> Option<PostView> {
    match finalizing {
        FinalizeOrderView::Poll { order_url, .. } => Some(order::question(order_url)),
        FinalizeOrderView::Send { csr, finalize_url, .. } => Some(
            PostView { url: finalize_url, body: Some(finalize_json(csr)) },
        ),
        FinalizeOrderView::Done { .. } => None,
    }
}

impl<'a, K: AccountKey> Account<'a, K> {
    /// Starts to finalize an order, with a certificate signing request in base64.
    pub fn finalize_order(&self, order: OrderReady, csr: String) -> (r: Step<FinalizeOrder>)
        ensures
            r@ == (
                seq![
                    Report::<Seq<char>>::Message {
                        message: "Finalizing order "@ + order@ + " ..."@,
                    },
                ],
                FinalizeOrderView::Poll { order_url: order@, csr: csr@, retry_after: None },
            ),
    {
        let order_url = order.into_url();
        let reports = vec![report_url("Finalizing order ", &order_url)];
        assert(log2::reports_view(reports@) =~= seq![
            Report::<Seq<char>>::Message {
                message: "Finalizing order "@ + order_url@ + " ..."@,
            },
        ]);
        Step {
            reports,
            next: FinalizeOrder::Poll(FinalizePoll { order_url, csr, retry_after: None }),
        }
    }

    /// Fetches the certificate of an order. The response goes to [`certificate_received`].
    pub fn download_certificate(&self, order: OrderValid) -> (r: (Scope, Post))
        ensures
            r.0@ == (ScopeView {
                object_type: "acme/certificate"@,
                object_id: order@,
                operation: ScopedObjectOperation::Get,
            }),
            r.1@ == order::question(order@),
    {
        let certificate_url = order.into_url();
        let scope = Scope::get("acme/certificate", certificate_url.as_str().to_owned());
        (scope, Post { url: certificate_url, body: None })
    }
}

impl FinalizePoll {
    /// How long to wait before the order is looked at.
    pub fn retry_after(&self) -> (r: Option<Duration>)
        ensures
            optional_span(r) == self@.2,
    {
        self.retry_after
    }

    /// Looks at the order.
    pub fn post(&self) -> (r: Post)
        ensures
            r@ == order::question(self@.0),
            finalizing_post(
                FinalizeOrderView::Poll {
                    order_url: self@.0,
                    csr: self@.1,
                    retry_after: self@.2,
                },
            ) == Some(r@),
    {
        Post { url: self.order_url.clone(), body: None }
    }

    /// Goes on with the order.
    pub fn received(self, response: Result<OrderResponse<IgnoredAny, OrderObjReady>, Error>) -> (r:
        (Vec<Report<String>>, Result<FinalizeOrder, Error>))
        ensures
            (log2::reports_view(r.0@), error::result_view(r.1)) == finalizing_order_received(
                self@.0,
                self@.1,
                error::result_view(response),
            ),
    {
        let order = match response {
            Ok(order) => order,
            Err(err) => {
                let reports: Vec<Report<String>> = Vec::new();
                assert(log2::reports_view(reports@) =~= seq![]);
                return (reports, Err(err.context("could not get order")));
            },
        };
        let ghost expected = finalizing_order_seen(self@.0, self@.1, order@);
        let mut reports = vec![
            log2::state_report("acme/order", self.order_url.as_str(), order.show()),
        ];
        let next = match order {
            OrderResponse::Pending(_) => Err(Error::new("order is still pending")),
            OrderResponse::Processing { retry_after } => {
                reports.push(order::report_waiting(retry_after, " before rechecking order..."));
                Ok(
                    FinalizeOrder::Poll(
                        FinalizePoll {
                            order_url: self.order_url,
                            csr: self.csr,
                            retry_after: Some(retry_after),
                        },
                    ),
                )
            },
            OrderResponse::Ready(OrderObjReady { finalize_url }) => Ok(
                FinalizeOrder::Send(
                    FinalizeSend { order_url: self.order_url, csr: self.csr, finalize_url },
                ),
            ),
            OrderResponse::Valid { certificate_url } => Ok(
                FinalizeOrder::Done(OrderValid::new(certificate_url)),
            ),
        };
        assert(log2::reports_view(reports@) =~= expected.0);
        (reports, next)
    }
}

impl FinalizeSend {
    /// Sends the certificate signing request.
    pub fn post(&self) -> (r: Post)
        ensures
            r@ == (PostView { url: self@.2, body: Some(finalize_json(self@.1)) }),
            finalizing_post(
                FinalizeOrderView::Send {
                    order_url: self@.0,
                    csr: self@.1,
                    finalize_url: self@.2,
                },
            ) == Some(r@),
    {
        let csr = to_url_safe_csr(self.csr.as_str());
        let fields = vec![("csr", json::string(csr.as_str()))];
        assert(json::members(fields@) =~= seq![
            ("csr"@, json::json_string(url_safe_csr(self.csr@))),
        ]);
        Post { url: self.finalize_url.clone(), body: Some(json::object(&fields)) }
    }

    /// Goes on with the order, whatever state it is in.
    pub fn received(self, response: Result<OrderResponse<IgnoredAny, IgnoredAny>, Error>) -> (r:
        Result<FinalizeOrder, Error>)
        ensures
            match error::result_view(response) {
                Ok(_) => error::result_view(r) == Ok::<FinalizeOrderView, Seq<Seq<char>>>(
                    FinalizeOrderView::Poll {
                        order_url: self@.0,
                        csr: self@.1,
                        retry_after: None,
                    },
                ),
                Err(err) => error::result_view(r) == Err::<FinalizeOrderView, Seq<Seq<char>>>(
                    error::in_context("could not finalize order"@, err),
                ),
            },
    {
        match response {
            Ok(_) => Ok(
                FinalizeOrder::Poll(
                    FinalizePoll { order_url: self.order_url, csr: self.csr, retry_after: None },
                ),
            ),
            Err(err) => Err(err.context("could not finalize order")),
        }
    }
}

/// A certificate chain.
#[derive(Debug)]
pub struct CertificateResponse {
    pub certificate: String,
}

impl View for CertificateResponse {
    type V = Seq<char>;

    open spec fn view(&self) -> Seq<char> {
        self.certificate@
    }
}

impl FromResponse for CertificateResponse {
    type Content = Vec<u8>;

    open spec fn interpreted(
        status: u16,
        body: Option<ResponseBody<Vec<u8>>>,
        headers: ResponseHeaders,
        now: int,
    ) -> Result<Option<Seq<char>>, Seq<Seq<char>>> {
        match body {
            Some(body) if status == 200 => match http_common::text_body(
                body.content_type@,
                body.in_one_piece,
                body.content@,
                "application/pem-certificate-chain"@,
            ) {
                Ok(certificate) => Ok(Some(certificate)),
                Err(err) => Err(err),
            },
            _ => Ok(None),
        }
    }

    fn from_response(
        status: StatusCode,
        body: Option<ResponseBody<Vec<u8>>>,
        headers: &ResponseHeaders,
        now: i128,
    ) -> (r: Result<Option<CertificateResponse>, Error>) {
        match body {
            Some(body) => {
                if status.as_u16() == 200 {
                    match body.as_str("application/pem-certificate-chain") {
                        Ok(certificate) => Ok(Some(CertificateResponse { certificate })),
                        Err(err) => Err(err),
                    }
                } else {
                    Ok(None)
                }
            },
            None => Ok(None),
        }
    }

    open spec fn reads(status: u16, content_type: Seq<u8>, headers: ResponseHeaders) -> bool {
        status == 200 && http_common::has_type(
            content_type,
            "application/pem-certificate-chain"@,
        )
    }

    fn reads_body(
        status: StatusCode,
        content_type: &HeaderValue,
        headers: &ResponseHeaders,
    ) -> (r: bool) {
        status.as_u16() == 200 && http_common::is_type(
            content_type,
            "application/pem-certificate-chain",
        )
    }

    proof fn unread_does_not_matter(
        status: u16,
        content_type: HeaderValue,
        in_one_piece: bool,
        one: Vec<u8>,
        other: Vec<u8>,
        headers: ResponseHeaders,
        now: int,
    ) {
    }
}

/// The certificate chain of an order.
pub fn certificate_received(response: Result<CertificateResponse, Error>) -> (r: Result<
    String,
    Error,
>)
    ensures
        match response {
            Ok(certificate) => r matches Ok(s) && s@ == certificate@,
            Err(err) => r matches Err(e) && e@ == error::in_context(
                "could not download certificate"@,
                err@,
            ),
        },
{
    match response {
        Ok(response) => Ok(response.certificate),
        Err(err) => Err(err.context("could not download certificate")),
    }
}

/// Putting a certificate signing request into the URL-safe alphabet changes none of its bits: each
/// character stands for the same six bits in its alphabet as the one at its place stood for in the
/// standard one. Each letter and each digit is kept, `+` becomes `-`, and `/` becomes `_`. All that is left
/// out are the `=` characters at the end.
pub proof fn url_safe_csr_encodes_the_same(csr: Seq<char>)
    ensures
        url_safe_csr(csr).len() <= csr.len(),
        forall|i: int|
            0 <= i < url_safe_csr(csr).len() ==> #[trigger] url_safe_csr(csr)[i] == if csr[i] == '+' {
                '-'
            } else if csr[i] == '/' {
                '_'
            } else {
                csr[i]
            },
        forall|i: int| url_safe_csr(csr).len() <= i < csr.len() ==> #[trigger] csr[i] == '=',
        url_safe_csr(csr).len() > 0 ==> csr[url_safe_csr(csr).len() - 1] != '=',
{
    let mapped = csr.map_values(|c: char| url_safe(c));
    lemma_without_padding(mapped);
    lemma_only_padding_is_dropped(mapped);
    let kept = url_safe_csr(csr).len() as int;
    assert forall|i: int| kept <= i < csr.len() implies #[trigger] csr[i] == '=' by {
        assert(mapped[i] == '=');
        assert(mapped[i] == url_safe(csr[i]));
    }
    assert forall|i: int| 0 <= i < kept implies #[trigger] url_safe_csr(csr)[i] == if csr[i] == '+' {
        '-'
    } else if csr[i] == '/' {
        '_'
    } else {
        csr[i]
    } by {
        assert(url_safe_csr(csr)[i] == mapped[i]);
        assert(mapped[i] == url_safe(csr[i]));
    }
    if kept > 0 {
        assert(mapped[kept - 1] == url_safe(csr[kept - 1]));
    }
}

/// The `n`-th character of the standard base64 alphabet.
pub open spec fn standard_character(n: int) -> char {
    if 0 <= n < 26 {
        (65 + n) as char
    } else if 26 <= n < 52 {
        (71 + n) as char
    } else if 52 <= n < 62 {
        (n - 4) as char
    } else if n == 62 {
        '+'
    } else {
        '/'
    }
}

/// The `n`-th character of the URL-safe base64 alphabet.
pub open spec fn url_safe_character(n: int) -> char {
    if 0 <= n < 26 {
        (65 + n) as char
    } else if 26 <= n < 52 {
        (71 + n) as char
    } else if 52 <= n < 62 {
        (n - 4) as char
    } else if n == 62 {
        '-'
    } else {
        '_'
    }
}

/// A request that encodes some groups of six bits in the standard alphabet, with any padding, encodes the
/// same groups in the URL-safe one, without padding.
pub proof fn the_bits_of_a_request_are_kept(sextets: Seq<int>, padding: nat)
    requires
        forall|i: int| 0 <= i < sextets.len() ==> 0 <= #[trigger] sextets[i] < 64,
    ensures
        url_safe_csr(
            sextets.map_values(|n: int| standard_character(n)) + Seq::new(padding, |i: int| '='),
        ) == sextets.map_values(|n: int| url_safe_character(n)),
{
    let digits = sextets.map_values(|n: int| standard_character(n));
    let csr = digits + Seq::new(padding, |i: int| '=');
    let safe = sextets.map_values(|n: int| url_safe_character(n));
    url_safe_csr_encodes_the_same(csr);
    let r = url_safe_csr(csr);
    assert forall|i: int| 0 <= i < sextets.len() implies #[trigger] csr[i] == standard_character(sextets[i])
        && csr[i] != '=' by {
        assert(csr[i] == digits[i]);
    }
    if r.len() > sextets.len() {
        assert(csr[r.len() - 1] == '=');
    }
    if r.len() < sextets.len() {
        assert(csr[r.len() as int] == '=');
    }
    assert forall|i: int| 0 <= i < r.len() implies r[i] == safe[i] by {
        assert(csr[i] == standard_character(sextets[i]));
        assert(0 <= sextets[i] < 64);
    }
    assert(r =~= safe);
}

/// All that is left out of a text without its padding is padding.
proof fn lemma_only_padding_is_dropped(s: Seq<char>)
    ensures
        forall|i: int| without_padding(s).len() <= i < s.len() ==> #[trigger] s[i] == '=',
    decreases s.len(),
{
    if s.len() > 0 && s.last() == '=' {
        let t = s.drop_last();
        lemma_only_padding_is_dropped(t);
        assert forall|i: int| without_padding(s).len() <= i < s.len() implies #[trigger] s[i] == '=' by {
            if i < t.len() {
                assert(t[i] == '=');
            }
        }
    }
}

/// What sends a certificate signing request to be finalized is an object whose only member is the request,
/// in the URL-safe alphabet.
pub proof fn the_whole_request_is_sent(sextets: Seq<int>, padding: nat)
    requires
        forall|i: int| 0 <= i < sextets.len() ==> 0 <= #[trigger] sextets[i] < 64,
    ensures
        finalize_json(
            sextets.map_values(|n: int| standard_character(n)) + Seq::new(padding, |i: int| '='),
        ) == seq!['{'] + json::json_string("csr"@) + seq![':'] + json::json_string(
            sextets.map_values(|n: int| url_safe_character(n)),
        ) + seq!['}'],
{
    the_bits_of_a_request_are_kept(sextets, padding);
    json::an_object_grows_by_its_members(
        seq![],
        "csr"@,
        json::json_string(sextets.map_values(|n: int| url_safe_character(n))),
    );
}

/// What the server says of a challenge or of an authorization in JSON comes out as it is, from a response
/// with the status 200 alone, together with how long to wait where there is something to wait for.
pub proof fn states_are_as_the_server_says(
    status: u16,
    challenge: ResponseBody<Result<ChallengeObject<IgnoredAny>, String>>,
    authorization: ResponseBody<Result<AuthorizationObject<IgnoredAny>, String>>,
    headers: ResponseHeaders,
    now: int,
)
    requires
        http_common::is_json(challenge.content_type@),
        http_common::is_json(authorization.content_type@),
    ensures
        ({
            let read = ChallengeResponse::interpreted(status, Some(challenge), headers, now);
            if status == 200 {
                match challenge.content {
                    Ok(ChallengeObject::Pending(_)) => read == Ok::<Option<ChallengeState>, Seq<Seq<char>>>(
                        Some(ChallengeState::Pending),
                    ),
                    Ok(ChallengeObject::Processing) => match order::wait_of(headers, now) {
                        Ok(retry_after) => read == Ok::<Option<ChallengeState>, Seq<Seq<char>>>(
                            Some(ChallengeState::Processing { retry_after }),
                        ),
                        Err(err) => read == Err::<Option<ChallengeState>, Seq<Seq<char>>>(err),
                    },
                    Ok(ChallengeObject::Valid) => read == Ok::<Option<ChallengeState>, Seq<Seq<char>>>(
                        Some(ChallengeState::Valid),
                    ),
                    Err(_) => read is Err,
                }
            } else {
                read == Ok::<Option<ChallengeState>, Seq<Seq<char>>>(None)
            }
        }),
        ({
            let read = AuthorizationResponse::interpreted(status, Some(authorization), headers, now);
            if status == 200 {
                match authorization.content {
                    Ok(AuthorizationObject::Pending(_)) => match order::wait_of(headers, now) {
                        Ok(retry_after) => read == Ok::<Option<AuthorizationState>, Seq<Seq<char>>>(
                            Some(AuthorizationState::Pending { retry_after }),
                        ),
                        Err(err) => read == Err::<Option<AuthorizationState>, Seq<Seq<char>>>(err),
                    },
                    Ok(AuthorizationObject::Valid) => read == Ok::<
                        Option<AuthorizationState>,
                        Seq<Seq<char>>,
                    >(Some(AuthorizationState::Valid)),
                    Err(_) => read is Err,
                }
            } else {
                read == Ok::<Option<AuthorizationState>, Seq<Seq<char>>>(None)
            }
        }),
{
}

/// A challenge is looked at again, without being answered twice, as long as it is not valid: after a second
/// where the server has not taken it up yet, and after as long as the server asks for where it has. Once it
/// is valid, the authorization of the same number is waited for.
pub proof fn a_challenge_is_answered_once(
    order: OrderPendingView,
    next: nat,
    challenge: ChallengeState,
)
    ensures
        ({
            let (reports, state) = challenge_seen(order, next, challenge);
            &&& state == match challenge {
                ChallengeState::Pending => CompletionState::Challenge {
                    next,
                    answered: true,
                    retry_after: Some(1_000_000_000),
                },
                ChallengeState::Processing { retry_after } => CompletionState::Challenge {
                    next,
                    answered: true,
                    retry_after: Some(retry_after),
                },
                ChallengeState::Valid => CompletionState::Authorization { next, retry_after: None },
            }
            &&& reports.len() == 2
            &&& reports[0] == (Report::<Seq<char>>::ObjectState {
                object_type: "acme/challenge"@,
                object_id: order.authorizations[next as int].challenge_url,
                state: <ChallengeResponse as Shown>::shown(challenge),
            })
            &&& reports[1] == (Report::<Seq<char>>::Message {
                message: match challenge {
                    ChallengeState::Pending => "Waiting for "@ + time2::shown(1_000_000_000)
                        + " before rechecking challenge..."@,
                    ChallengeState::Processing { retry_after } => "Waiting for "@ + time2::shown(
                        retry_after,
                    ) + " before rechecking challenge..."@,
                    ChallengeState::Valid => "Waiting for authorization "@
                        + order.authorizations[next as int].authorization_url + " ..."@,
                },
            })
        }),
{
}

/// An authorization is waited for as long as the server asks for; once it is valid, the challenge of the one
/// behind it is met, which has not been answered yet, or the order is ready if there is none.
pub proof fn authorizations_are_completed_in_turn(
    order: OrderPendingView,
    next: nat,
    authorization: AuthorizationState,
)
    ensures
        ({
            let (reports, state) = authorization_seen(order, next, authorization);
            let seen = Report::<Seq<char>>::ObjectState {
                object_type: "acme/authorization"@,
                object_id: order.authorizations[next as int].authorization_url,
                state: <AuthorizationResponse as Shown>::shown(authorization),
            };
            match authorization {
                AuthorizationState::Pending { retry_after } => {
                    &&& state == (CompletionState::Authorization { next, retry_after: Some(retry_after) })
                    &&& reports == seq![
                        seen,
                        Report::<Seq<char>>::Message {
                            message: "Waiting for "@ + time2::shown(retry_after)
                                + " before rechecking authorization..."@,
                        },
                    ]
                },
                AuthorizationState::Valid => if next + 1 < order.authorizations.len() {
                    &&& state == (CompletionState::Challenge {
                        next: next + 1,
                        answered: false,
                        retry_after: None,
                    })
                    &&& reports == seq![
                        seen,
                        Report::<Seq<char>>::Message {
                            message: "Completing challenge "@
                                + order.authorizations[next as int + 1].challenge_url + " ..."@,
                        },
                    ]
                } else {
                    state is Done && reports == seq![seen]
                },
            }
        }),
        order.authorizations.len() == 0 ==> authorizations_valid(order, 0).1 is Done,
        order.authorizations.len() > 0 ==> authorizations_valid(order, 0).1 == (
        CompletionState::Challenge { next: 0, answered: false, retry_after: None }),
{
    let (reports, state) = authorization_seen(order, next, authorization);
    let seen = Report::<Seq<char>>::ObjectState {
        object_type: "acme/authorization"@,
        object_id: order.authorizations[next as int].authorization_url,
        state: <AuthorizationResponse as Shown>::shown(authorization),
    };
    if authorization is Valid {
        let (more, _) = authorizations_valid(order, next + 1);
        assert(reports =~= seq![seen] + more);
        if next + 1 < order.authorizations.len() {
            assert(reports =~= seq![
                seen,
                Report::<Seq<char>>::Message {
                    message: "Completing challenge "@ + order.authorizations[next as int + 1].challenge_url
                        + " ..."@,
                },
            ]);
        } else {
            assert(reports =~= seq![seen]);
        }
    }
}

/// An order that is being finalized is what the server calls it: its signing request is sent where it is
/// ready, and only there; it is looked at again where it is being processed, after as long as the server
/// asks for; and its certificate is where the server has put it. The order and its signing request stay the
/// same.
pub proof fn an_order_is_finalized_as_the_server_says(
    order_url: Seq<char>,
    csr: Seq<char>,
    order: OrderState<(), Seq<char>>,
    err: Seq<Seq<char>>,
)
    ensures
        ({
            let (reports, next) = finalizing_order_received(order_url, csr, Ok(order));
            let seen = Report::<Seq<char>>::ObjectState {
                object_type: "acme/order"@,
                object_id: order_url,
                state: <OrderResponse<IgnoredAny, OrderObjReady> as Shown>::shown(order),
            };
            &&& next == match order {
                OrderState::Pending(_) => Err::<FinalizeOrderView, Seq<Seq<char>>>(
                    seq!["order is still pending"@],
                ),
                OrderState::Processing { retry_after } => Ok(
                    FinalizeOrderView::Poll { order_url, csr, retry_after: Some(retry_after) },
                ),
                OrderState::Ready(finalize_url) => Ok(
                    FinalizeOrderView::Send { order_url, csr, finalize_url },
                ),
                OrderState::Valid { certificate_url } => Ok(FinalizeOrderView::Done { certificate_url }),
            }
            &&& reports.len() > 0 && reports[0] == seen
            &&& match order {
                OrderState::Processing { retry_after } => reports == seq![
                    seen,
                    Report::<Seq<char>>::Message {
                        message: "Waiting for "@ + time2::shown(retry_after)
                            + " before rechecking order..."@,
                    },
                ],
                _ => reports.len() == 1,
            }
        }),
        finalizing_order_received(order_url, csr, Err(err)) == (
            Seq::<Report<Seq<char>>>::empty(),
            Err::<FinalizeOrderView, Seq<Seq<char>>>(seq!["could not get order"@] + err),
        ),
{
}

/// A challenge is answered with an empty object.
pub proof fn a_challenge_is_answered_with_nothing()
    ensures
        challenge_complete_json() == seq!['{', '}'],
{
    json::an_object_grows_by_its_members(seq![], seq![], seq![]);
}

/// A certificate chain is taken from a response with the status 200 alone, as the text that its bytes are,
/// where it comes as such a chain.
pub proof fn a_chain_is_taken_as_it_comes(
    status: u16,
    body: ResponseBody<Vec<u8>>,
    headers: ResponseHeaders,
    now: int,
)
    ensures
        status != 200 ==> CertificateResponse::interpreted(status, Some(body), headers, now) == Ok::<
            Option<Seq<char>>,
            Seq<Seq<char>>,
        >(None),
        status == 200 ==> match http_common::text_body(
            body.content_type@,
            body.in_one_piece,
            body.content@,
            "application/pem-certificate-chain"@,
        ) {
            Ok(chain) => CertificateResponse::interpreted(status, Some(body), headers, now) == Ok::<
                Option<Seq<char>>,
                Seq<Seq<char>>,
            >(Some(chain)),
            Err(err) => CertificateResponse::interpreted(status, Some(body), headers, now) == Err::<
                Option<Seq<char>>,
                Seq<Seq<char>>,
            >(err),
        },
{
}

/// A challenge is posted to at its own URL, with an empty object the first time and with nothing from then
/// on, and an authorization is asked at its own URL. Nothing is posted once the order is ready.
pub proof fn each_challenge_is_posted_to_at_its_url(
    order: OrderPendingView,
    next: nat,
    challenge: ChallengeState,
    retry_after: Option<nat>,
)
    requires
        next < order.authorizations.len(),
    ensures
        completion_post(
            CompletionView {
                order,
                state: CompletionState::Challenge { next, answered: false, retry_after },
            },
        ) == Some(
            PostView {
                url: order.authorizations[next as int].challenge_url,
                body: Some(seq!['{', '}']),
            },
        ),
        ({
            let again = CompletionView { order, state: challenge_seen(order, next, challenge).1 };
            completion_post(again) == Some(
                PostView {
                    url: if challenge is Valid {
                        order.authorizations[next as int].authorization_url
                    } else {
                        order.authorizations[next as int].challenge_url
                    },
                    body: None,
                },
            )
        }),
        completion_post(CompletionView { order, state: CompletionState::Done }) is None,
{
    a_challenge_is_answered_with_nothing();
}

/// An order that is being finalized is asked at its own URL, and its signing request is posted to the URL
/// that the server gave for it, in the URL-safe alphabet. Nothing is posted once it has been finalized.
pub proof fn the_request_is_posted_where_the_server_says(
    order_url: Seq<char>,
    csr: Seq<char>,
    finalize_url: Seq<char>,
    certificate_url: Seq<char>,
    retry_after: Option<nat>,
)
    ensures
        finalizing_post(FinalizeOrderView::Poll { order_url, csr, retry_after }) == Some(
            PostView { url: order_url, body: None },
        ),
        finalizing_post(FinalizeOrderView::Send { order_url, csr, finalize_url }) == Some(
            PostView {
                url: finalize_url,
                body: Some(
                    seq!['{'] + json::json_string("csr"@) + seq![':'] + json::json_string(
                        url_safe_csr(csr),
                    ) + seq!['}'],
                ),
            },
        ),
        finalizing_post(FinalizeOrderView::Done { certificate_url }) is None,
{
    json::an_object_grows_by_its_members(seq![], "csr"@, json::json_string(url_safe_csr(csr)));
}

/// The body of a response counts where its status and its media type are the expected ones.
pub proof fn bodies_count_where_they_are_expected(status: u16, content_type: Seq<u8>, headers: ResponseHeaders)
    ensures
        <ChallengeResponse as FromResponse>::reads(status, content_type, headers)
            <==> status == 200 && http_common::is_json(content_type),
        <AuthorizationResponse as FromResponse>::reads(status, content_type, headers)
            <==> status == 200 && http_common::is_json(content_type),
        <CertificateResponse as FromResponse>::reads(status, content_type, headers)
            <==> status == 200 && http_common::has_type(
            content_type,
            "application/pem-certificate-chain"@,
        ),
{
}

} // verus!
