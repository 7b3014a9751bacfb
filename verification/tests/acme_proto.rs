use acme_azure_function::acme::account::ResponseWithNewNonce;
use acme_azure_function::acme::proto::{
    self, Account, AuthorizationObject, AuthorizationResponse, AwaitAuthorization,
    CertificateResponse, ChallengeObject, ChallengeResponse, CompleteAuthorization,
    DirectoryResponse, FinalizeOrder, MeetChallenge, NewAccountResponse, NewNonceResponse, OpenStep,
    OpeningAccount, Order, OrderObject, OrderPending, OrderPoll, OrderReady, OrderResponse,
    PlaceOrder, Post,
};
use acme_azure_function::acme::{progress, AccountKey, EcCurve};
use acme_azure_function::azure::Call;
use acme_azure_function::azure::key_vault::key::{EcKty, Key, KeyResponse};
use acme_azure_function::encoding;
use acme_azure_function::error::Error;
use acme_azure_function::http_common::{
    FromResponse, HeaderValue, Method, RequestBody, ResponseBody, ResponseHeaders,
    ResponseWithLocation, StatusCode, Uri,
};
use acme_azure_function::log2::Shown;
use acme_azure_function::time2::Duration;

const ORDER: &str = "https://acme.example/order/1";
const AUTHORIZATION: &str = "https://acme.example/authz/1";
const CHALLENGE: &str = "https://acme.example/chall/1";

fn key() -> Key {
    Key::new(KeyResponse {
        crv: EcCurve::P256,
        kid: "https://vault.vault.azure.net/keys/key/1".to_owned(),
        kty: EcKty::Ec,
        x: "MKBCTNIcKUSDii11ySs3526iDZ8AiTo7Tu6KPAqv7D4".to_owned(),
        y: "4Etl6SRW2YiLUrN5vfvVHuhp7x8PxltmWWlbbM4IFyM".to_owned(),
    })
    .unwrap()
}

fn nonce(s: &str) -> Option<HeaderValue> {
    Some(HeaderValue::from_text(s).unwrap())
}

fn directory() -> DirectoryResponse {
    DirectoryResponse {
        new_account_url: "https://acme.example/new-account".to_owned(),
        new_nonce_url: "https://acme.example/new-nonce".to_owned(),
        new_order_url: "https://acme.example/new-order".to_owned(),
    }
}

fn opening(key: &Key, new_nonce: Option<HeaderValue>) -> OpeningAccount<'_, Key> {
    OpeningAccount::directory_received(
        "mailto:admin@example.com",
        key,
        Ok(ResponseWithNewNonce { body: directory(), new_nonce }),
    )
    .unwrap()
}

fn account_response(
    status: &str,
    new_nonce: Option<HeaderValue>,
) -> ResponseWithNewNonce<ResponseWithLocation<NewAccountResponse>> {
    ResponseWithNewNonce {
        body: ResponseWithLocation {
            body: NewAccountResponse { status: status.to_owned() },
            location: Uri::from_text("https://acme.example/acct/1").unwrap(),
        },
        new_nonce,
    }
}

fn account(key: &Key) -> Account<'_, Key> {
    opening(key, nonce("n-1")).account_received(Ok(account_response("valid", nonce("n-2")))).unwrap()
}

#[test]
fn the_directory_is_queried_first() {
    let request = Account::<Key>::new("https://acme.example/directory").unwrap();
    assert_eq!(request.method, Method::Get);
    assert_eq!(request.uri.as_str(), "https://acme.example/directory");
    assert_eq!(
        Account::<Key>::new("").unwrap_err().chain,
        ["could not query ACME directory", "could not parse request URI", "empty string"]
    );
    let key = key();
    let failed = OpeningAccount::directory_received("mailto:a", &key, Err(Error::new("oh")));
    assert_eq!(
        failed.unwrap_err().chain,
        ["could not query ACME directory", "could not execute HTTP request", "oh"]
    );
}

#[test]
fn a_nonce_is_fetched_where_there_is_none() {
    let key = key();
    let account = opening(&key, None);
    let Ok(OpenStep::FetchNonce(request)) = account.step() else {
        panic!("there is a nonce");
    };
    assert_eq!(request.uri.as_str(), "https://acme.example/new-nonce");
    let none = ResponseWithNewNonce { body: NewNonceResponse, new_nonce: None };
    assert_eq!(
        account.nonce_received(Ok(none)).unwrap_err().chain,
        ["server did not return initial nonce"]
    );
    assert_eq!(
        opening(&key, None).nonce_received(Err(Error::new("oh"))).unwrap_err().chain,
        ["could not get initial nonce", "could not execute HTTP request", "oh"]
    );
    let some = ResponseWithNewNonce { body: NewNonceResponse, new_nonce: nonce("n-1") };
    let account = opening(&key, None).nonce_received(Ok(some)).unwrap();
    assert!(matches!(account.step(), Ok(OpenStep::Post(_))));
}

#[test]
fn posts_are_signed_with_the_key_of_the_account() {
    let key = key();
    let opening = opening(&key, nonce("n-1"));
    let Ok(OpenStep::Post(unsigned)) = opening.step() else {
        panic!("there is no nonce");
    };
    let same = |one: &Call, other: &Call| format!("{one:?}") == format!("{other:?}");
    assert!(same(&opening.signing(&unsigned), &key.sign(&unsigned.message())));
    let account = account(&key);
    let unsigned =
        account.post(Post { url: ORDER.to_owned(), body: None }).unwrap();
    let signing = account.signing(&unsigned);
    assert!(same(&signing, &key.sign(&unsigned.message())));
    assert!(!same(&signing, &key.sign(b"")));
}

#[test]
fn a_person_who_watches_is_told_about_accounts() {
    let key = key();
    assert_eq!(progress::getting_directory("u"), "Getting directory u ...");
    assert_eq!(progress::got_directory("u"), "Got directory u");
    assert_eq!(opening(&key, None).announcement(), "Getting initial nonce...");
    assert_eq!(opening(&key, nonce("n-1")).announcement(), "Already have initial nonce");
    assert_eq!(
        progress::say_account_found(&Ok(account_response("revoked", nonce("n-2")))).as_deref(),
        Some("Created / got account https://acme.example/acct/1 with status revoked")
    );
    assert_eq!(progress::say_account_found(&Ok(account_response("valid", None))), None);
    assert_eq!(progress::say_account_found(&Err(Error::new("oh"))), None);
}

#[test]
fn an_account_is_posted() {
    let key = key();
    let Ok(OpenStep::Post(unsigned)) = opening(&key, nonce("n-1")).step() else {
        panic!("there is no nonce");
    };
    let protected = "eyJhbGciOiJFUzI1NiIsImp3ayI6eyJjcnYiOiJQLTI1NiIsImt0eSI6IkVDIiwieCI6Ik1LQkNUTkljS1VTRGlpMTF5U3MzNTI2aURaOEFpVG83VHU2S1BBcXY3RDQiLCJ5IjoiNEV0bDZTUlcyWWlMVXJONXZmdlZIdWhwN3g4UHhsdG1XV2xiYk00SUZ5TSJ9LCJub25jZSI6Im4tMSIsInVybCI6Imh0dHBzOi8vYWNtZS5leGFtcGxlL25ldy1hY2NvdW50In0";
    let payload = "eyJjb250YWN0IjpbIm1haWx0bzphZG1pbkBleGFtcGxlLmNvbSJdLCJ0ZXJtc09mU2VydmljZUFncmVlZCI6dHJ1ZX0";
    assert_eq!(unsigned.message(), format!("{protected}.{payload}").into_bytes());
    let request = unsigned.signed("c2ln").unwrap();
    let RequestBody::Stream(parts) = request.body else {
        panic!("the body is not a stream");
    };
    assert_eq!(
        parts.concat(),
        format!(r#"{{"payload":"{payload}","protected":"{protected}","signature":"c2ln"}}"#).into_bytes()
    );
}

#[test]
fn only_a_valid_account_is_opened() {
    let key = key();
    let receive = |response| opening(&key, nonce("n-1")).account_received(response).map(|_| ());
    assert!(receive(Ok(account_response("valid", nonce("n-2")))).is_ok());
    assert_eq!(
        receive(Ok(account_response("revoked", nonce("n-2")))).unwrap_err().chain,
        ["Account has revoked status"]
    );
    assert_eq!(
        receive(Ok(account_response("valid", None))).unwrap_err().chain,
        ["could not create / get account", "server did not return new nonce"]
    );
    assert_eq!(
        receive(Err(Error::new("oh"))).unwrap_err().chain,
        ["could not create / get account", "could not execute HTTP request", "oh"]
    );
}

#[test]
fn each_post_has_the_nonce_of_the_response_before() {
    let key = key();
    let mut account = account(&key);
    let post = || Post { url: ORDER.to_owned(), body: None };
    let protected = "eyJhbGciOiJFUzI1NiIsImtpZCI6Imh0dHBzOi8vYWNtZS5leGFtcGxlL2FjY3QvMSIsIm5vbmNlIjoibi0yIiwidXJsIjoiaHR0cHM6Ly9hY21lLmV4YW1wbGUvb3JkZXIvMSJ9";
    assert_eq!(account.post(post()).unwrap().message(), format!("{protected}.").into_bytes());
    let response = ResponseWithNewNonce { body: NewNonceResponse, new_nonce: nonce("n-3") };
    account.response_received(Ok(response)).unwrap();
    assert_ne!(account.post(post()).unwrap().message(), format!("{protected}.").into_bytes());
    let none = ResponseWithNewNonce { body: NewNonceResponse, new_nonce: None };
    assert_eq!(
        account.response_received(Ok(none)).unwrap_err().chain,
        ["server did not return new nonce"]
    );
    let failed: Result<ResponseWithNewNonce<NewNonceResponse>, Error> = Err(Error::new("oh"));
    assert_eq!(
        account.response_received(failed).unwrap_err().chain,
        ["could not execute HTTP request", "oh"]
    );
    let unsigned = account.post(Post { url: "a b".to_owned(), body: None }).unwrap();
    assert_eq!(
        unsigned.signed("c2ln").unwrap_err().chain,
        ["could not parse request URI", "invalid uri character"]
    );
}

#[test]
fn an_order_for_one_name_is_placed() {
    let key = key();
    let account = account(&key);
    let post = account.place_order("*.example.com");
    assert_eq!(post.url, "https://acme.example/new-order");
    assert_eq!(
        post.body.as_deref(),
        Some(r#"{"identifiers":[{"type":"dns","value":"*.example.com"}]}"#)
    );
    let poll = poll(&account);
    assert!(poll.retry_after().is_none());
    assert_eq!((poll.post().url.as_str(), poll.post().body), (ORDER, None));
    assert_eq!(
        account.order_placed(Err(Error::new("oh"))).unwrap_err().chain,
        ["could not create / get order", "oh"]
    );
}

/// An order that has just been placed.
fn poll(account: &Account<'_, Key>) -> OrderPoll {
    let placed = account.order_placed(Ok(ResponseWithLocation {
        body: OrderResponse::Invalid { body: "b".to_owned() },
        location: Uri::from_text(ORDER).unwrap(),
    }));
    let Ok(PlaceOrder::Poll(poll)) = placed else {
        panic!("the order is not looked at");
    };
    poll
}

#[test]
fn an_order_has_one_authorization() {
    let key = key();
    let account = account(&key);
    let poll = |response| poll(&account).received(response).map_err(|err| err.chain);
    let pending = |urls: &[&str]| {
        Ok(OrderResponse::Pending {
            authorization_urls: urls.iter().map(|&url| url.to_owned()).collect(),
        })
    };
    assert_eq!(poll(pending(&[])).unwrap_err(), ["no authorizations"]);
    assert_eq!(poll(pending(&["a", "b"])).unwrap_err(), ["more than one authorization"]);
    assert!(matches!(
        poll(pending(&["a"])),
        Ok(PlaceOrder::Authorize(authorizing)) if authorizing.post().url == "a"
    ));
    assert_eq!(poll(Ok(OrderResponse::Invalid { body: "b".to_owned() })).unwrap_err(), ["order failed"]);
    assert_eq!(poll(Err(Error::new("oh"))).unwrap_err(), ["could not get order", "oh"]);
    assert!(matches!(
        poll(Ok(OrderResponse::Processing { retry_after: Duration::from_secs(2) })),
        Ok(PlaceOrder::Poll(poll)) if poll.retry_after() == Some(Duration::from_secs(2))
    ));
    assert!(matches!(
        poll(Ok(OrderResponse::Ready { finalize_url: "f".to_owned() })),
        Ok(PlaceOrder::Done(Order::Ready(_)))
    ));
    assert!(matches!(
        poll(Ok(OrderResponse::Valid { certificate_url: "c".to_owned() })),
        Ok(PlaceOrder::Done(Order::Valid(_)))
    ));
}

fn challenges(kinds: &[&str]) -> Vec<ChallengeObject> {
    let mut challenges = vec![ChallengeObject::Valid];
    challenges.extend(kinds.iter().map(|&kind| ChallengeObject::Pending {
        token: "evaGxfADs6pSRb2LAv9IZf17Dt3juxGJ-PCt92wr-oA".to_owned(),
        kind: kind.to_owned(),
        url: CHALLENGE.to_owned(),
    }));
    challenges
}

/// What becomes of an order after a look at its authorization.
fn authorized(
    account: &Account<'_, Key>,
    response: Result<AuthorizationResponse, Error>,
) -> Result<PlaceOrder, Error> {
    let urls = vec![AUTHORIZATION.to_owned()];
    let pending = OrderResponse::Pending { authorization_urls: urls };
    let Ok(PlaceOrder::Authorize(authorizing)) = poll(account).received(Ok(pending)) else {
        panic!("the authorization is not looked at");
    };
    authorizing.received(account, response)
}

fn order_pending(key: &Key) -> OrderPending {
    let response = AuthorizationResponse::Pending {
        challenges: challenges(&["http-01", "dns-01"]),
        retry_after: Duration::from_secs(1),
    };
    let Ok(PlaceOrder::Done(Order::Pending(order))) = authorized(&account(key), Ok(response)) else {
        panic!("the order is not pending");
    };
    order
}

#[test]
fn the_challenge_of_an_authorization_is_answered() {
    let key = key();
    assert_eq!(
        order_pending(&key).dns_txt_record_content,
        "1fCS1lh6WLuBWbvkmdEhdymEvTR8MuI63XqlRVleM9Q"
    );
    let account = account(&key);
    let poll = |response| authorized(&account, response).map(|_| ()).unwrap_err().chain;
    let none = AuthorizationResponse::Pending {
        challenges: challenges(&["http-01"]),
        retry_after: Duration::from_secs(1),
    };
    assert_eq!(poll(Ok(none)), ["did not find any pending dns-01 challenges"]);
    assert_eq!(poll(Ok(AuthorizationResponse::Valid)), ["authorization has unexpected status"]);
    assert_eq!(poll(Err(Error::new("oh"))), ["could not get authorization", "oh"]);
}

/// A challenge that has been answered, or has not.
fn challenge(key: &Key, answered: bool) -> MeetChallenge {
    let CompleteAuthorization::Challenge(challenge) =
        account(key).complete_authorization(order_pending(key))
    else {
        panic!("the challenge is not met");
    };
    if !answered {
        return challenge;
    }
    let Ok(CompleteAuthorization::Challenge(challenge)) =
        challenge.received(Ok(ChallengeResponse::Invalid { body: "b".to_owned() }))
    else {
        panic!("the challenge is not looked at");
    };
    challenge
}

/// An authorization whose challenge has been met.
fn authorization(key: &Key) -> AwaitAuthorization {
    let Ok(CompleteAuthorization::Authorization(authorization)) =
        challenge(key, true).received(Ok(ChallengeResponse::Valid))
    else {
        panic!("the authorization is not looked at");
    };
    authorization
}

fn order_ready(key: &Key) -> OrderReady {
    let Ok(CompleteAuthorization::Done(order)) =
        authorization(key).received(Ok(AuthorizationResponse::Valid))
    else {
        panic!("the order is not ready");
    };
    order
}

fn pending_challenge() -> ChallengeResponse {
    ChallengeResponse::Pending {
        token: "t".to_owned(),
        kind: "dns-01".to_owned(),
        url: CHALLENGE.to_owned(),
    }
}

#[test]
fn a_person_who_watches_is_told_about_orders() {
    let key = key();
    let account = account(&key);
    let poll = poll(&account);
    assert_eq!(poll.created("*.example.com"), format!("Created order for *.example.com : {ORDER}"));
    assert_eq!(poll.announcement(), None);
    let processing =
        || Ok(OrderResponse::Processing { retry_after: Duration::from_millis(1500) });
    for (response, shown) in [
        (OrderResponse::Invalid { body: "Null".to_owned() }, "Invalid { body: Null }"),
        (
            OrderResponse::Pending { authorization_urls: vec!["a".to_owned(), "b".to_owned()] },
            r#"Pending { authorization_urls: ["a", "b"] }"#,
        ),
        (processing().unwrap(), "Processing { retry_after: 1.5s }"),
        (
            OrderResponse::Ready { finalize_url: "f".to_owned() },
            r#"Ready { finalize_url: "f" }"#,
        ),
        (
            OrderResponse::Valid { certificate_url: "c".to_owned() },
            r#"Valid { certificate_url: "c" }"#,
        ),
    ] {
        assert_eq!(response.show(), shown);
        assert_eq!(poll.found(&Ok(response)), Some(format!("Order {ORDER} is {shown}")));
    }
    assert_eq!(poll.found(&Err(Error::new("oh"))), None);
    let Ok(PlaceOrder::Poll(poll)) = poll.received(processing()) else {
        panic!("the order is not looked at");
    };
    assert_eq!(
        poll.announcement().as_deref(),
        Some("Waiting for 1.5s before rechecking order...")
    );

    let ready = order_ready(&key);
    assert_eq!(ready.announcement(), format!("Finalizing order {ORDER} ..."));
    let FinalizeOrder::Poll(poll) = account.finalize_order(ready, vec![]) else {
        panic!("the order is not looked at");
    };
    assert_eq!(poll.announcement(), None);
    assert_eq!(
        poll.found(&processing()),
        Some(format!("Order {ORDER} is Processing {{ retry_after: 1.5s }}"))
    );
    let valid = OrderResponse::Valid { certificate_url: "c".to_owned() };
    let Ok(FinalizeOrder::Done(order)) = poll.received(Ok(valid)) else {
        panic!("the order is not finalized");
    };
    assert_eq!(order.announcement(), "Downloading certificate c ...");
    assert_eq!(order.conclusion(), "Downloaded certificate c");
    assert_eq!(progress::creating_order("*.a"), "Creating order for *.a ...");
}

#[test]
fn a_person_who_watches_is_told_about_authorizations() {
    let key = key();
    let first = challenge(&key, false);
    assert_eq!(first.announcement(), Some(format!("Completing challenge {CHALLENGE} ...")));
    assert_eq!(first.found(&Ok(pending_challenge())), None);
    let again = challenge(&key, true);
    assert_eq!(again.announcement(), None);
    assert_eq!(
        again.found(&Ok(pending_challenge())),
        Some(format!(
            r#"Challenge {CHALLENGE} is Pending {{ token: "t", type: "dns-01", url: "{CHALLENGE}" }}"#
        ))
    );
    assert_eq!(again.found(&Err(Error::new("oh"))), None);
    let Ok(CompleteAuthorization::Challenge(again)) = again.received(Ok(pending_challenge())) else {
        panic!("the challenge is not looked at");
    };
    assert_eq!(
        again.announcement().as_deref(),
        Some("Waiting for 1s before rechecking challenge...")
    );
    let authorization = authorization(&key);
    assert_eq!(
        authorization.announcement(),
        format!("Waiting for authorization {AUTHORIZATION} ...")
    );
    let pending = || AuthorizationResponse::Pending {
        challenges: vec![
            ChallengeObject::Invalid { body: "Null".to_owned() },
            ChallengeObject::Processing,
            ChallengeObject::Valid,
        ],
        retry_after: Duration::from_secs(4),
    };
    assert_eq!(
        authorization.found(&Ok(pending())),
        Some(format!(
            "Authorization {AUTHORIZATION} is Pending {{ challenges: [Invalid {{ body: Null }}, \
             Processing {{ retry_after: 0ns }}, Valid], retry_after: 4s }}"
        ))
    );
    let Ok(CompleteAuthorization::Authorization(authorization)) =
        authorization.received(Ok(pending()))
    else {
        panic!("the authorization is not looked at");
    };
    assert_eq!(
        authorization.announcement(),
        "Waiting for 4s before rechecking authorization..."
    );
}

#[test]
fn an_authorization_is_completed() {
    let key = key();
    let post = challenge(&key, false).post();
    assert_eq!((post.url.as_str(), post.body.as_deref()), (CHALLENGE, Some("{}")));
    let post = challenge(&key, true).post();
    assert_eq!((post.url.as_str(), post.body), (CHALLENGE, None));
    assert!(challenge(&key, true).retry_after().is_none());
    assert!(matches!(
        challenge(&key, true).received(Ok(pending_challenge())),
        Ok(CompleteAuthorization::Challenge(next))
            if next.retry_after() == Some(Duration::from_secs(1)) && next.post().body.is_none()
    ));
    let processing = ChallengeResponse::Processing { retry_after: Duration::from_secs(9) };
    assert!(matches!(
        challenge(&key, true).received(Ok(processing)),
        Ok(CompleteAuthorization::Challenge(next))
            if next.retry_after() == Some(Duration::from_secs(9))
    ));
    let post = authorization(&key).post();
    assert_eq!((post.url.as_str(), post.body), (AUTHORIZATION, None));
    let pending = AuthorizationResponse::Pending { challenges: vec![], retry_after: Duration::from_secs(4) };
    assert!(matches!(
        authorization(&key).received(Ok(pending)),
        Ok(CompleteAuthorization::Authorization(next))
            if next.retry_after() == Some(Duration::from_secs(4))
    ));
    let FinalizeOrder::Poll(poll) = account(&key).finalize_order(order_ready(&key), b"csr".to_vec())
    else {
        panic!("the order is not looked at");
    };
    assert_eq!(poll.post().url, ORDER);
}

#[test]
fn an_authorization_may_not_be_completed() {
    let key = key();
    let chain = |r: Result<CompleteAuthorization, Error>| r.map(|_| ()).unwrap_err().chain;
    assert_eq!(
        chain(challenge(&key, false).received(Err(Error::new("oh")))),
        ["could not complete challenge", "oh"]
    );
    assert_eq!(
        chain(challenge(&key, true).received(Ok(ChallengeResponse::Invalid { body: "b".to_owned() }))),
        ["challenge has unexpected status"]
    );
    assert_eq!(
        chain(challenge(&key, true).received(Err(Error::new("oh")))),
        ["could not get challenge", "oh"]
    );
    assert_eq!(
        chain(authorization(&key).received(Ok(AuthorizationResponse::Revoked))),
        ["authorization has unexpected status"]
    );
    assert_eq!(
        chain(authorization(&key).received(Err(Error::new("oh")))),
        ["could not get authorization", "oh"]
    );
}

#[test]
fn an_order_is_finalized_with_a_signing_request() {
    let key = key();
    let account = account(&key);
    let csr = encoding::decode_base64("+/8=").unwrap();
    assert_eq!(encoding::decode_base64("+/8").unwrap_err().chain, ["Invalid padding"]);
    let poll = || match account.finalize_order(order_ready(&key), csr.clone()) {
        FinalizeOrder::Poll(poll) => poll,
        _ => panic!("the order is not looked at"),
    };
    assert!(poll().retry_after().is_none());
    let send = || match poll().received(Ok(OrderResponse::Ready { finalize_url: "f".to_owned() })) {
        Ok(FinalizeOrder::Send(send)) => send,
        _ => panic!("the signing request is not sent"),
    };
    let post = send().post();
    assert_eq!(post.url, "f");
    assert_eq!(post.body.as_deref(), Some(r#"{"csr":"-_8"}"#));
    assert!(matches!(
        send().received(Ok(OrderResponse::Invalid { body: "b".to_owned() })),
        Ok(FinalizeOrder::Poll(poll)) if poll.post().url == ORDER
    ));
    assert!(matches!(
        poll().received(Ok(OrderResponse::Processing { retry_after: Duration::from_secs(3) })),
        Ok(FinalizeOrder::Poll(poll)) if poll.retry_after() == Some(Duration::from_secs(3))
    ));
    let valid = OrderResponse::Valid { certificate_url: "c".to_owned() };
    let Ok(FinalizeOrder::Done(order)) = poll().received(Ok(valid)) else {
        panic!("the order is not finalized");
    };
    let post = account.download_certificate(&order);
    assert_eq!((post.url.as_str(), post.body), ("c", None));
    let chain = |r: Result<FinalizeOrder, Error>| r.map(|_| ()).unwrap_err().chain;
    assert_eq!(chain(poll().received(Ok(OrderResponse::Invalid { body: "b".to_owned() }))), ["order failed"]);
    let pending = OrderResponse::Pending { authorization_urls: vec![] };
    assert_eq!(chain(poll().received(Ok(pending))), ["order is still pending"]);
    assert_eq!(chain(poll().received(Err(Error::new("oh")))), ["could not get order", "oh"]);
    assert_eq!(chain(send().received(Err(Error::new("oh")))), ["could not finalize order", "oh"]);
}

fn read<T: FromResponse>(status: u16, content_type: &str, content: T::Content) -> Result<Option<T>, Vec<String>> {
    let headers = ResponseHeaders { location: None, replay_nonce: None, retry_after: nonce("5") };
    let body = ResponseBody { in_one_piece: true, content_type: HeaderValue::from_text(content_type).unwrap(), content };
    T::from_response(StatusCode::from_u16(status).unwrap(), Some(body), &headers, 0)
        .map_err(|err| err.chain)
}

#[test]
fn responses_of_other_types_are_not_read() {
    let json = "application/json";
    assert!(read::<DirectoryResponse>(200, json, Ok(directory())).unwrap().is_some());
    assert!(read::<DirectoryResponse>(200, "text/html", Ok(directory())).unwrap().is_none());
    assert!(read::<DirectoryResponse>(404, json, Ok(directory())).unwrap().is_none());
    assert_eq!(read::<DirectoryResponse>(200, json, Err("oh".to_owned())).unwrap_err(), ["oh"]);
    assert!(read::<NewNonceResponse>(204, json, ()).unwrap().is_some());
    assert!(read::<NewNonceResponse>(200, json, ()).unwrap().is_none());
    let valid = || Ok(NewAccountResponse { status: "valid".to_owned() });
    assert!(read::<NewAccountResponse>(201, json, valid()).unwrap().is_some());
    assert!(read::<NewAccountResponse>(202, json, valid()).unwrap().is_none());
    assert!(matches!(
        read::<OrderResponse>(201, json, Ok(OrderObject::Processing)),
        Ok(Some(OrderResponse::Processing { retry_after })) if retry_after == Duration::from_secs(5)
    ));
    assert!(matches!(
        read::<ChallengeResponse>(200, json, Ok(ChallengeObject::Processing)),
        Ok(Some(ChallengeResponse::Processing { retry_after })) if retry_after == Duration::from_secs(5)
    ));
    assert!(matches!(
        read::<AuthorizationResponse>(200, json, Ok(AuthorizationObject::Pending { challenges: vec![] })),
        Ok(Some(AuthorizationResponse::Pending { retry_after, .. })) if retry_after == Duration::from_secs(5)
    ));
    for (object, shown) in [
        (AuthorizationObject::Deactivated, "Deactivated"),
        (AuthorizationObject::Expired, "Expired"),
        (AuthorizationObject::Invalid, "Invalid"),
        (AuthorizationObject::Revoked, "Revoked"),
        (AuthorizationObject::Valid, "Valid"),
    ] {
        let response = read::<AuthorizationResponse>(200, json, Ok(object)).unwrap().unwrap();
        assert_eq!(response.show(), shown);
    }
}

#[test]
fn a_certificate_chain_is_read() {
    let chain = "application/pem-certificate-chain";
    let response = read::<CertificateResponse>(200, chain, b"abc".to_vec()).unwrap().unwrap();
    assert_eq!(proto::certificate_received(Ok(response)).unwrap(), "abc");
    assert!(read::<CertificateResponse>(200, "text/plain", b"abc".to_vec()).unwrap().is_none());
    assert_eq!(
        read::<CertificateResponse>(200, chain, b"\xff".to_vec()).unwrap_err(),
        ["stream did not contain valid UTF-8"]
    );
    assert_eq!(
        proto::certificate_received(Err(Error::new("oh"))).unwrap_err().chain,
        ["could not download certificate", "oh"]
    );
}
