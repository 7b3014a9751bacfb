use acme_azure_function::acme::account::{
    Account, AccountStatus, Client, DirectoryResponse, NewAccountResponse, Post,
};
use acme_azure_function::acme::completion::{
    self, AuthorizationResponse, CertificateResponse, ChallengeResponse, CompleteAuthorization,
    FinalizeOrder,
};
use acme_azure_function::acme::order::{
    AuthorizationChallenge, AuthorizationObject, ChallengeObject, ChallengePending, IgnoredAny,
    Order, OrderObjPending, OrderObjReady, OrderObject, OrderPending, OrderReady, OrderResponse,
    PlaceOrder, Step,
};
use acme_azure_function::acme::EcCurve;
use acme_azure_function::azure::key_vault::key::{EcKty, Key, KeyResponse};
use acme_azure_function::error::Error;
use acme_azure_function::http_common::{
    FromResponse, HeaderValue, ResponseBody, ResponseHeaders, ResponseWithLocation, StatusCode, Uri,
};
use acme_azure_function::log2::{Report, Shown};
use acme_azure_function::time2::Duration;

const ORDER: &str = "https://acme.example/order/1";
const TOKEN: &str = "evaGxfADs6pSRb2LAv9IZf17Dt3juxGJ-PCt92wr-oA";
const ANSWER: &str = "1fCS1lh6WLuBWbvkmdEhdymEvTR8MuI63XqlRVleM9Q";

fn uri(s: &str) -> Uri {
    Uri::from_text(s).unwrap()
}

fn key() -> Key {
    Key::new(KeyResponse {
        crv: EcCurve::P256,
        kid: "https://vault.vault.azure.net/keys/key/1".to_owned(),
        kty: EcKty::Ec,
        x: "MKBCTNIcKUSDii11ySs3526iDZ8AiTo7Tu6KPAqv7D4".to_owned(),
        y: "4Etl6SRW2YiLUrN5vfvVHuhp7x8PxltmWWlbbM4IFyM".to_owned(),
    })
    .unwrap()
}

fn account(key: &Key) -> Account<'_, Key> {
    let client = Client::new(Ok(DirectoryResponse {
        new_account_url: uri("https://acme.example/new-account"),
        new_nonce_url: uri("https://acme.example/new-nonce"),
        new_order_url: uri("https://acme.example/new-order"),
        renewal_info_url: None,
    }));
    let (mut account, _, _) = client.unwrap().new_account("mailto:admin@example.com", key);
    let (_, outcome) = account.account_received(Ok(ResponseWithLocation {
        body: NewAccountResponse { status: AccountStatus::Valid },
        location: uri("https://acme.example/acct/1"),
    }));
    outcome.unwrap();
    account
}

fn shown(reports: &[Report<String>]) -> Vec<String> {
    reports.iter().map(|report| report.debug_text()).collect()
}

fn state(object_type: &str, object_id: &str, state: &str) -> String {
    format!("ObjectState {{ object_type: {object_type}, object_id: {object_id}, state: {state} }}")
}

fn message(s: &str) -> String {
    format!("Message {{ message: {s} }}")
}

fn is_question(post: &Post, url: &str) -> bool {
    post.url.as_str() == url && post.body.is_none()
}

type Placed = OrderResponse<OrderObjPending, IgnoredAny>;

fn placed(order: Placed) -> Step<PlaceOrder> {
    PlaceOrder::placed(Ok(ResponseWithLocation { body: order, location: uri(ORDER) })).unwrap()
}

fn pending(urls: &[&str]) -> Placed {
    OrderResponse::Pending(OrderObjPending {
        authorization_urls: urls.iter().map(|url| uri(url)).collect(),
    })
}

fn challenge(url: &str) -> Result<AuthorizationChallenge, Error> {
    Ok(AuthorizationChallenge::Pending { token: TOKEN.to_owned(), challenge_url: uri(url) })
}

/// An order with two authorizations.
fn order_pending(key: &Key) -> OrderPending {
    let account = account(key);
    let PlaceOrder::Authorize(authorizing) =
        placed(pending(&["https://acme.example/authz/1", "https://acme.example/authz/2"])).next
    else {
        panic!("the order is not pending");
    };
    assert!(is_question(&authorizing.post(), "https://acme.example/authz/1"));
    let step = authorizing.received(&account, challenge("https://acme.example/chall/1")).unwrap();
    let PlaceOrder::Authorize(authorizing) = step.next else {
        panic!("there is one authorization");
    };
    assert!(is_question(&authorizing.post(), "https://acme.example/authz/2"));
    let step = authorizing.received(&account, challenge("https://acme.example/chall/2")).unwrap();
    let PlaceOrder::Done(Order::Pending(order)) = step.next else {
        panic!("the order is not pending");
    };
    order
}

fn order_ready() -> OrderReady {
    match placed(OrderResponse::Ready(IgnoredAny)).next {
        PlaceOrder::Done(Order::Ready(order)) => order,
        _ => panic!("the order is not ready"),
    }
}

#[test]
fn an_order_is_placed_for_the_domain_and_its_subdomains() {
    let key = key();
    let (scope, post) = account(&key).place_order("example.com");
    assert_eq!(scope.object_type, "acme/order");
    assert_eq!(scope.object_id, "example.com");
    assert_eq!(post.url.as_str(), "https://acme.example/new-order");
    assert_eq!(
        post.body.as_deref(),
        Some(r#"{"identifiers":[{"type":"dns","value":"example.com"},{"type":"dns","value":"*.example.com"}]}"#)
    );
    assert_eq!(
        PlaceOrder::placed(Err(Error::new("oh"))).unwrap_err().chain,
        ["could not create / get order", "oh"]
    );
}

#[test]
fn an_order_may_be_ready_or_valid() {
    let step = placed(OrderResponse::Ready(IgnoredAny));
    assert_eq!(shown(&step.reports), [state("acme/order", ORDER, "Ready(IgnoredAny)")]);
    assert!(matches!(step.next, PlaceOrder::Done(Order::Ready(_))));
    let step = placed(OrderResponse::Valid { certificate_url: uri("https://acme.example/cert/1") });
    assert_eq!(
        shown(&step.reports),
        [state("acme/order", ORDER, "Valid { certificate_url: https://acme.example/cert/1 }")]
    );
    assert!(matches!(step.next, PlaceOrder::Done(Order::Valid(_))));
}

#[test]
fn an_order_that_is_processed_is_looked_at_again() {
    let step = placed(OrderResponse::Processing { retry_after: Duration::from_secs(5) });
    assert_eq!(
        shown(&step.reports),
        [
            state("acme/order", ORDER, "Processing { retry_after: 5s }"),
            message("Waiting for 5s before rechecking order..."),
        ]
    );
    let PlaceOrder::Poll(poll) = step.next else {
        panic!("the order is not looked at again");
    };
    assert_eq!(poll.retry_after(), Duration::from_secs(5));
    assert!(is_question(&poll.post(), ORDER));
    let step = poll.received(Ok(OrderResponse::Ready(IgnoredAny))).unwrap();
    assert!(matches!(step.next, PlaceOrder::Done(Order::Ready(_))));
    let step = placed(OrderResponse::Processing { retry_after: Duration::from_secs(5) });
    let PlaceOrder::Poll(poll) = step.next else {
        panic!("the order is not looked at again");
    };
    assert_eq!(poll.received(Err(Error::new("oh"))).unwrap_err().chain, ["could not get order", "oh"]);
}

#[test]
fn all_authorizations_of_an_order_are_looked_at() {
    let key = key();
    let order = order_pending(&key);
    assert_eq!(order.dns_txt_record_contents(), [ANSWER, ANSWER]);
    assert_eq!(order.authorizations[0].dns_txt_record_content, ANSWER);
    assert_eq!(
        shown(&placed(pending(&["https://acme.example/authz/1"])).reports),
        [state(
            "acme/order",
            ORDER,
            "Pending(OrderObjPending { authorization_urls: [https://acme.example/authz/1] })"
        )]
    );
}

#[test]
fn an_order_without_authorizations_is_pending_all_the_same() {
    let PlaceOrder::Done(Order::Pending(order)) = placed(pending(&[])).next else {
        panic!("the order is not pending");
    };
    assert!(order.authorizations.is_empty());
}

#[test]
fn valid_authorizations_are_passed_over() {
    let key = key();
    let account = account(&key);
    let PlaceOrder::Authorize(authorizing) = placed(pending(&["https://acme.example/authz/1"])).next
    else {
        panic!("the order is not pending");
    };
    let step = authorizing.received(&account, Ok(AuthorizationChallenge::Valid)).unwrap();
    assert_eq!(
        shown(&step.reports),
        [state("acme/authorization", "https://acme.example/authz/1", "Valid")]
    );
    let PlaceOrder::Done(Order::Pending(order)) = step.next else {
        panic!("the order is not pending");
    };
    assert!(order.authorizations.is_empty());
}

#[test]
fn a_pending_authorization_is_shown_with_its_hasher() {
    let hasher = <sha2::Sha256 as sha2::Digest>::new();
    assert_eq!(
        challenge("https://acme.example/chall/1").unwrap().show(),
        format!("Pending {{ hasher: {hasher:?}, challenge_url: https://acme.example/chall/1 }}")
    );
}

fn read<T: FromResponse>(
    status: u16,
    content: T::Content,
    retry_after: Option<&str>,
) -> Result<Option<T>, Vec<String>> {
    let headers = ResponseHeaders {
        location: None,
        replay_nonce: None,
        retry_after: retry_after.map(|value| HeaderValue::from_text(value).unwrap()),
    };
    let body = ResponseBody { in_one_piece: true, content_type: HeaderValue::from_static("application/json"), content };
    T::from_response(StatusCode::from_u16(status).unwrap(), Some(body), &headers, 0)
        .map_err(|err| err.chain)
}

#[test]
fn the_first_pending_dns_challenge_counts() {
    let pending = |kind: &str, token: &str| {
        ChallengeObject::Pending(ChallengePending {
            token: token.to_owned(),
            kind: kind.to_owned(),
            url: uri("https://acme.example/chall/1"),
        })
    };
    let challenges = vec![
        ChallengeObject::Valid,
        pending("http-01", "a"),
        pending("dns-01", "b"),
        pending("dns-01", "c"),
    ];
    let found =
        read::<AuthorizationChallenge>(200, Ok(AuthorizationObject::Pending(challenges)), None);
    assert!(matches!(
        found,
        Ok(Some(AuthorizationChallenge::Pending { token, .. })) if token == "b"
    ));
    let challenges = vec![ChallengeObject::Processing, pending("http-01", "a")];
    assert_eq!(
        read::<AuthorizationChallenge>(200, Ok(AuthorizationObject::Pending(challenges)), None)
            .unwrap_err(),
        ["did not find any pending dns-01 challenges"]
    );
    assert!(read::<AuthorizationChallenge>(404, Ok(AuthorizationObject::Valid), None).unwrap().is_none());
}

#[test]
fn busy_servers_ask_to_wait() {
    let order = read::<OrderResponse<IgnoredAny, IgnoredAny>>(201, Ok(OrderObject::Processing), Some("7"));
    assert!(matches!(
        order,
        Ok(Some(OrderResponse::Processing { retry_after })) if retry_after == Duration::from_secs(7)
    ));
    let challenge = read::<ChallengeResponse>(200, Ok(ChallengeObject::Processing), Some("100"));
    assert!(matches!(
        challenge,
        Ok(Some(ChallengeResponse::Processing { retry_after })) if retry_after == Duration::from_secs(30)
    ));
    let authorization =
        read::<AuthorizationResponse>(200, Ok(AuthorizationObject::Pending(IgnoredAny)), None);
    assert!(matches!(
        authorization,
        Ok(Some(AuthorizationResponse::Pending { retry_after })) if retry_after == Duration::from_secs(1)
    ));
}

#[test]
fn authorizations_are_completed_one_after_the_other() {
    let key = key();
    let step = account(&key).complete_authorization(order_pending(&key));
    assert_eq!(
        shown(&step.reports),
        [message("Completing challenge https://acme.example/chall/1 ...")]
    );
    let CompleteAuthorization::Challenge(challenge) = step.next else {
        panic!("there is no challenge");
    };
    assert_eq!(challenge.retry_after(), None);
    let post = challenge.post();
    assert_eq!(post.url.as_str(), "https://acme.example/chall/1");
    assert_eq!(post.body.as_deref(), Some("{}"));

    let step = challenge.received(Ok(ChallengeResponse::Pending)).unwrap();
    assert_eq!(
        shown(&step.reports),
        [
            state("acme/challenge", "https://acme.example/chall/1", "Pending"),
            message("Waiting for 1s before rechecking challenge..."),
        ]
    );
    let CompleteAuthorization::Challenge(challenge) = step.next else {
        panic!("there is no challenge");
    };
    assert_eq!(challenge.retry_after(), Some(Duration::from_secs(1)));
    assert!(is_question(&challenge.post(), "https://acme.example/chall/1"));

    let step = challenge.received(Ok(ChallengeResponse::Valid)).unwrap();
    assert_eq!(
        shown(&step.reports),
        [
            state("acme/challenge", "https://acme.example/chall/1", "Valid"),
            message("Waiting for authorization https://acme.example/authz/1 ..."),
        ]
    );
    let CompleteAuthorization::Authorization(authorization) = step.next else {
        panic!("there is no authorization");
    };
    assert!(is_question(&authorization.post(), "https://acme.example/authz/1"));
    let response = AuthorizationResponse::Pending { retry_after: Duration::from_secs(2) };
    let step = authorization.received(Ok(response)).unwrap();
    let CompleteAuthorization::Authorization(authorization) = step.next else {
        panic!("there is no authorization");
    };
    assert_eq!(authorization.retry_after(), Some(Duration::from_secs(2)));

    let step = authorization.received(Ok(AuthorizationResponse::Valid)).unwrap();
    assert_eq!(
        shown(&step.reports),
        [
            state("acme/authorization", "https://acme.example/authz/1", "Valid"),
            message("Completing challenge https://acme.example/chall/2 ..."),
        ]
    );
    let CompleteAuthorization::Challenge(challenge) = step.next else {
        panic!("there is no challenge");
    };
    assert_eq!(challenge.post().body.as_deref(), Some("{}"));
    let step = challenge.received(Ok(ChallengeResponse::Valid)).unwrap();
    let CompleteAuthorization::Authorization(authorization) = step.next else {
        panic!("there is no authorization");
    };
    let step = authorization.received(Ok(AuthorizationResponse::Valid)).unwrap();
    assert!(matches!(step.next, CompleteAuthorization::Done(_)));
}

#[test]
fn completing_may_fail() {
    let key = key();
    let account = account(&key);
    let CompleteAuthorization::Challenge(challenge) =
        account.complete_authorization(order_pending(&key)).next
    else {
        panic!("there is no challenge");
    };
    assert_eq!(
        challenge.received(Err(Error::new("oh"))).unwrap_err().chain,
        ["could not complete challenge", "oh"]
    );
    let CompleteAuthorization::Challenge(challenge) =
        account.complete_authorization(order_pending(&key)).next
    else {
        panic!("there is no challenge");
    };
    let step = challenge.received(Ok(ChallengeResponse::Valid)).unwrap();
    let CompleteAuthorization::Authorization(authorization) = step.next else {
        panic!("there is no authorization");
    };
    assert_eq!(
        authorization.received(Err(Error::new("oh"))).unwrap_err().chain,
        ["could not get authorization", "oh"]
    );
}

#[test]
fn an_order_is_finalized() {
    let key = key();
    let step = account(&key).finalize_order(order_ready(), "a+/b==".to_owned());
    assert_eq!(shown(&step.reports), [message(&format!("Finalizing order {ORDER} ..."))]);
    let FinalizeOrder::Poll(poll) = step.next else {
        panic!("the order is not looked at");
    };
    assert_eq!(poll.retry_after(), None);
    assert!(is_question(&poll.post(), ORDER));
    let ready = OrderObjReady { finalize_url: uri("https://acme.example/finalize/1") };
    let (reports, next) = poll.received(Ok(OrderResponse::Ready(ready)));
    assert_eq!(
        shown(&reports),
        [state(
            "acme/order",
            ORDER,
            "Ready(OrderObjReady { finalize_url: https://acme.example/finalize/1 })"
        )]
    );
    let Ok(FinalizeOrder::Send(send)) = next else {
        panic!("nothing is sent");
    };
    let post = send.post();
    assert_eq!(post.url.as_str(), "https://acme.example/finalize/1");
    assert_eq!(post.body.as_deref(), Some(r#"{"csr":"a-_b"}"#));
    let Ok(FinalizeOrder::Poll(poll)) = send.received(Ok(OrderResponse::Pending(IgnoredAny))) else {
        panic!("the order is not looked at");
    };
    let (reports, next) =
        poll.received(Ok(OrderResponse::Processing { retry_after: Duration::from_secs(3) }));
    assert_eq!(shown(&reports)[1], message("Waiting for 3s before rechecking order..."));
    let Ok(FinalizeOrder::Poll(poll)) = next else {
        panic!("the order is not looked at");
    };
    assert_eq!(poll.retry_after(), Some(Duration::from_secs(3)));
    let valid = OrderResponse::Valid { certificate_url: uri("https://acme.example/cert/1") };
    let (_, next) = poll.received(Ok(valid));
    let Ok(FinalizeOrder::Done(order)) = next else {
        panic!("the order is not finalized");
    };
    let (scope, post) = account(&key).download_certificate(order);
    assert_eq!(scope.object_type, "acme/certificate");
    assert_eq!(scope.object_id, "https://acme.example/cert/1");
    assert!(is_question(&post, "https://acme.example/cert/1"));
}

#[test]
fn finalizing_may_fail() {
    let key = key();
    let poll = || match account(&key).finalize_order(order_ready(), String::new()).next {
        FinalizeOrder::Poll(poll) => poll,
        _ => panic!("the order is not looked at"),
    };
    let (reports, next) = poll().received(Ok(OrderResponse::Pending(IgnoredAny)));
    assert_eq!(shown(&reports), [state("acme/order", ORDER, "Pending(IgnoredAny)")]);
    assert_eq!(next.unwrap_err().chain, ["order is still pending"]);
    let (reports, next) = poll().received(Err(Error::new("oh")));
    assert!(reports.is_empty());
    assert_eq!(next.unwrap_err().chain, ["could not get order", "oh"]);
    let ready = OrderObjReady { finalize_url: uri("https://acme.example/finalize/1") };
    let Ok(FinalizeOrder::Send(send)) = poll().received(Ok(OrderResponse::Ready(ready))).1 else {
        panic!("nothing is sent");
    };
    assert_eq!(send.received(Err(Error::new("oh"))).unwrap_err().chain, ["could not finalize order", "oh"]);
}

#[test]
fn signing_requests_are_made_url_safe() {
    assert_eq!(completion::to_url_safe_csr(""), "");
    assert_eq!(completion::to_url_safe_csr("+/+/="), "-_-_");
    assert_eq!(completion::to_url_safe_csr("a=b=="), "a=b");
    assert_eq!(completion::to_url_safe_csr("===="), "");
}

#[test]
fn a_certificate_is_downloaded() {
    let response = CertificateResponse { certificate: "chain".to_owned() };
    assert_eq!(completion::certificate_received(Ok(response)).unwrap(), "chain");
    assert_eq!(
        completion::certificate_received(Err(Error::new("oh"))).unwrap_err().chain,
        ["could not download certificate", "oh"]
    );
}
