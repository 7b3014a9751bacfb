use acme_azure_function::acme::account::{
    take_new_nonce, Account, AccountStatus, Client, DirectoryResponse, NewAccountResponse, NewNonceResponse, Post,
    PostStep, RenewalInfo, ResponseWithNewNonce,
};
use acme_azure_function::acme::{self, AccountKey, EcCurve, Jwk};
use acme_azure_function::azure::key_vault::key::{EcKty, Key, KeyResponse};
use acme_azure_function::error::Error;
use acme_azure_function::http_common::{
    HeaderValue, Method, Request, RequestBody, ResponseWithLocation, Uri,
};
use acme_azure_function::log2::Shown;

const X: &str = "MKBCTNIcKUSDii11ySs3526iDZ8AiTo7Tu6KPAqv7D4";
const Y: &str = "4Etl6SRW2YiLUrN5vfvVHuhp7x8PxltmWWlbbM4IFyM";

fn uri(s: &str) -> Uri {
    Uri::from_text(s).unwrap()
}

fn key() -> Key {
    Key::new(KeyResponse {
        crv: EcCurve::P256,
        kid: "https://vault.vault.azure.net/keys/key/1".to_owned(),
        kty: EcKty::Ec,
        x: X.to_owned(),
        y: Y.to_owned(),
    })
    .unwrap()
}

fn client(renewal_info_url: Option<&str>) -> Client {
    Client::new(Ok(DirectoryResponse {
        new_account_url: uri("https://acme.example/new-account"),
        new_nonce_url: uri("https://acme.example/new-nonce"),
        new_order_url: uri("https://acme.example/new-order"),
        renewal_info_url: renewal_info_url.map(uri),
    }))
    .unwrap()
}

fn opened(key: &Key) -> Account<'_, Key> {
    let (mut account, _, _) = client(None).new_account("mailto:admin@example.com", key);
    let (_, outcome) = account.account_received(Ok(ResponseWithLocation {
        body: NewAccountResponse { status: AccountStatus::Valid },
        location: uri("https://acme.example/acct/1"),
    }));
    outcome.unwrap();
    account
}

fn with_nonce<T>(body: T, nonce: &str) -> Result<ResponseWithNewNonce<T>, Error> {
    Ok(ResponseWithNewNonce { body, new_nonce: Some(HeaderValue::from_text(nonce).unwrap()) })
}

fn body(request: &Request) -> String {
    let bytes = match &request.body {
        RequestBody::Single(bytes) => bytes.clone(),
        RequestBody::Stream(parts) => parts.concat(),
    };
    String::from_utf8(bytes).unwrap()
}

#[test]
fn keys_have_thumbprints() {
    let jwk = Jwk { crv: EcCurve::P256, kty: "EC", x: X, y: Y };
    assert_eq!(jwk.to_json(), format!(r#"{{"crv":"P-256","kty":"EC","x":"{X}","y":"{Y}"}}"#));
    assert_eq!(jwk.thumbprint(), "cn-I_WNMClehiVp51i_0VpOENW1upEerA8sEam5hn-s");
    assert_eq!(
        acme::dns_txt_record_content("evaGxfADs6pSRb2LAv9IZf17Dt3juxGJ-PCt92wr-oA", &jwk),
        "1fCS1lh6WLuBWbvkmdEhdymEvTR8MuI63XqlRVleM9Q"
    );
}

#[test]
fn curves_have_algorithms() {
    assert_eq!(EcCurve::P256.jws_sign_alg(), "ES256");
    assert_eq!(EcCurve::P384.jws_sign_alg(), "ES384");
    assert_eq!(EcCurve::P521.jws_sign_alg(), "ES512");
    assert_eq!(EcCurve::P256.digest(b"abc"), "ungWv48Bz-pBQUDeXa4iI7ADYaOWF3qctBD_YfIAFa0");
    assert_eq!(
        EcCurve::P384.digest(b"abc"),
        "ywB1P0WjXou1oD1pmsZQBycsMqsO3tFjGotgWkP_W-2AhgcroefMI1i67KE0yCWn"
    );
    assert_eq!(
        EcCurve::P521.digest(b"abc"),
        "3a81oZNherrMQXNJriBBMRLm-k6JqX6iCp7u5ktV05ohkpkqJ0_BqDa6PCOj_uu9RU1EI2Q86A4qmslPpUyknw"
    );
}

#[test]
fn the_directory_is_asked_for() {
    let (scope, request) = Client::directory_request(uri("https://acme.example/directory"));
    assert_eq!(scope.object_type, "acme/directory");
    assert_eq!(scope.object_id, "https://acme.example/directory");
    assert_eq!(request.method, Method::Get);
    assert_eq!(
        Client::new(Err(Error::new("oh"))).unwrap_err().chain,
        ["could not query ACME directory", "could not execute HTTP request", "oh"]
    );
}

#[test]
fn renewal_suggestions_are_asked_for() {
    assert!(client(None).renewal_suggested_window_start("a.b").unwrap().is_none());
    for url in ["https://acme.example/renewal", "https://acme.example/renewal/"] {
        let (scope, request) =
            client(Some(url)).renewal_suggested_window_start("a.b").unwrap().unwrap();
        assert_eq!(scope.object_type, "acme/renewalInfo");
        assert_eq!(request.uri.as_str(), "https://acme.example/renewal/a.b");
    }
    assert_eq!(
        client(Some("https://acme.example/")).renewal_suggested_window_start("a b").unwrap_err().chain,
        ["could not construct renewal info URL", "invalid uri character"]
    );
    let info = RenewalInfo::from_text("2021-01-03T01:00:00.5+01:00").unwrap();
    assert_eq!((info.start, info.offset), (1_609_632_000_500_000_000, 3600));
    let renewal = Client::renewal_info_received(Ok(info));
    assert_eq!(
        renewal.show(),
        "Some(Response { suggested_window: SuggestedWindow { start: 2021-01-03 1:00:00.5 +01:00:00 } })"
    );
    assert!(renewal.info.is_some());
    let renewal = Client::renewal_info_received(Err(Error::new("oh")));
    assert_eq!(renewal.show(), "None");
    assert!(renewal.info.is_none());
    let format = time::format_description::well_known::Rfc3339;
    assert_eq!(
        RenewalInfo::from_text("soon").unwrap_err().chain,
        [time::OffsetDateTime::parse("soon", &format).unwrap_err().to_string()]
    );
}

#[test]
fn an_account_is_opened() {
    let key = key();
    let (mut account, scope, post) = client(None).new_account("mailto:admin@example.com", &key);
    assert_eq!(scope.object_type, "acme/account");
    assert_eq!(post.url.as_str(), "https://acme.example/new-account");
    assert_eq!(
        post.body.as_deref(),
        Some(r#"{"contact":["mailto:admin@example.com"],"termsOfServiceAgreed":true}"#)
    );

    let Ok(PostStep::FetchNonce(pending)) = account.post(post) else {
        panic!("there is a nonce");
    };
    let (scope, request) = account.nonce_request();
    assert_eq!(scope.object_type, "acme/nonce");
    assert_eq!(request.method, Method::Head);
    assert_eq!(request.uri.as_str(), "https://acme.example/new-nonce");
    let unsigned = account
        .nonce_received(pending, take_new_nonce(with_nonce(NewNonceResponse, "n-1")))
        .unwrap();
    let protected = "eyJhbGciOiJFUzI1NiIsImp3ayI6eyJjcnYiOiJQLTI1NiIsImt0eSI6IkVDIiwieCI6Ik1LQkNUTkljS1VTRGlpMTF5U3MzNTI2aURaOEFpVG83VHU2S1BBcXY3RDQiLCJ5IjoiNEV0bDZTUlcyWWlMVXJONXZmdlZIdWhwN3g4UHhsdG1XV2xiYk00SUZ5TSJ9LCJub25jZSI6Im4tMSIsInVybCI6Imh0dHBzOi8vYWNtZS5leGFtcGxlL25ldy1hY2NvdW50In0";
    let payload = "eyJjb250YWN0IjpbIm1haWx0bzphZG1pbkBleGFtcGxlLmNvbSJdLCJ0ZXJtc09mU2VydmljZUFncmVlZCI6dHJ1ZX0";
    assert_eq!(unsigned.message(), format!("{protected}.{payload}").into_bytes());
    let request = unsigned.signed("c2ln");
    assert_eq!(request.method, Method::Post);
    assert_eq!(request.headers[0].0, "content-type");
    assert_eq!(request.headers[0].1.as_bytes(), b"application/jose+json");
    assert_eq!(
        body(&request),
        format!(r#"{{"payload":"{payload}","protected":"{protected}","signature":"c2ln"}}"#)
    );
}

#[test]
fn an_account_is_valid_or_refused() {
    let key = key();
    let receive = |status: AccountStatus| {
        let (mut account, _, _) = client(None).new_account("mailto:admin@example.com", &key);
        let (reports, outcome) = account.account_received(Ok(ResponseWithLocation {
            body: NewAccountResponse { status },
            location: uri("https://acme.example/acct/1"),
        }));
        let reports: Vec<String> = reports.iter().map(|report| report.debug_text()).collect();
        (reports.join(""), outcome.map_err(|err| err.chain))
    };
    assert_eq!(
        receive(AccountStatus::Valid),
        (
            "ObjectState { object_type: acme/account, object_id: https://acme.example/acct/1, state: Valid }".to_owned(),
            Ok(())
        )
    );
    assert_eq!(
        receive(AccountStatus::Revoked).1,
        Err(vec!["Account has Revoked status".to_owned()])
    );
    assert_eq!(
        receive(AccountStatus::Deactivated).1,
        Err(vec!["Account has Deactivated status".to_owned()])
    );
    let (mut account, _, _) = client(None).new_account("mailto:admin@example.com", &key);
    let (reports, outcome) = account.account_received(Err(Error::new("oh")));
    assert!(reports.is_empty());
    assert_eq!(outcome.unwrap_err().chain, ["could not create / get account", "oh"]);
}

#[test]
fn a_nonce_is_used_once() {
    let key = key();
    let mut account = opened(&key);
    let post = || Post { url: uri("https://acme.example/order/1"), body: None };
    account.response_received(with_nonce(NewNonceResponse, "n-2")).unwrap();
    let Ok(PostStep::Sign(unsigned)) = account.post(post()) else {
        panic!("there is no nonce");
    };
    let protected = "eyJhbGciOiJFUzI1NiIsImtpZCI6Imh0dHBzOi8vYWNtZS5leGFtcGxlL2FjY3QvMSIsIm5vbmNlIjoibi0yIiwidXJsIjoiaHR0cHM6Ly9hY21lLmV4YW1wbGUvb3JkZXIvMSJ9";
    assert_eq!(unsigned.message(), format!("{protected}.").into_bytes());
    assert_eq!(
        format!("{:?}", account.signing(&unsigned)),
        format!("{:?}", key.sign(format!("{protected}.").as_bytes()))
    );
    assert_eq!(
        body(&unsigned.signed("c2ln")),
        format!(r#"{{"payload":"","protected":"{protected}","signature":"c2ln"}}"#)
    );
    assert!(matches!(account.post(post()), Ok(PostStep::FetchNonce(_))));
}

#[test]
fn a_nonce_may_be_missing_or_unreadable() {
    let key = key();
    let mut account = opened(&key);
    let mut pending = || match account.post(Post { url: uri("https://acme.example/order/1"), body: None }) {
        Ok(PostStep::FetchNonce(pending)) => pending,
        _ => panic!("there is a nonce"),
    };
    let (first, second, third) = (pending(), pending(), pending());
    let none = ResponseWithNewNonce { body: NewNonceResponse, new_nonce: None };
    assert_eq!(
        account.nonce_received(first, take_new_nonce(Ok(none))).unwrap_err().chain,
        ["newNonce URL did not return new nonce"]
    );
    assert_eq!(
        account.nonce_received(second, take_new_nonce(Err(Error::new("oh")))).unwrap_err().chain,
        ["newNonce URL did not return new nonce", "could not execute HTTP request", "oh"]
    );
    let odd = ResponseWithNewNonce {
        body: NewNonceResponse,
        new_nonce: HeaderValue::from_bytes(b"\xff"),
    };
    assert_eq!(
        account.nonce_received(third, take_new_nonce(Ok(odd))).unwrap_err().chain.last().unwrap(),
        "failed to convert header to a str"
    );
}

#[test]
fn a_failed_post_says_so() {
    let key = key();
    let mut account = opened(&key);
    let response: Result<ResponseWithNewNonce<NewNonceResponse>, Error> = Err(Error::new("oh"));
    assert_eq!(
        account.response_received(response).unwrap_err().chain,
        ["could not execute HTTP request", "oh"]
    );
}

#[test]
fn an_account_key_signs_in_its_vault() {
    let key = key();
    let call = key.sign(b"abc");
    assert_eq!(call.method, Method::Post);
    assert_eq!(
        call.body.as_deref(),
        Some(r#"{"alg":"ES256","value":"ungWv48Bz-pBQUDeXa4iI7ADYaOWF3qctBD_YfIAFa0"}"#)
    );
    assert_eq!(key.as_jwk().crv, EcCurve::P256);
    assert_eq!(key.as_jwk().kty, "EC");
}

#[test]
fn responses_have_a_form_in_the_log() {
    let directory = |renewal_info_url: Option<&str>| DirectoryResponse {
        new_account_url: uri("https://a.example/1"),
        new_nonce_url: uri("https://a.example/2"),
        new_order_url: uri("https://a.example/3"),
        renewal_info_url: renewal_info_url.map(uri),
    };
    assert_eq!(
        directory(None).show(),
        "DirectoryResponse { new_account_url: https://a.example/1, new_nonce_url: https://a.example/2, new_order_url: https://a.example/3, renewal_info_url: None }"
    );
    assert!(directory(Some("https://a.example/4"))
        .show()
        .ends_with("renewal_info_url: Some(https://a.example/4) }"));
    let account = ResponseWithLocation {
        body: NewAccountResponse { status: AccountStatus::Valid },
        location: uri("https://a.example/5"),
    };
    assert_eq!(account.show(), r#"("https://a.example/5", Valid)"#);
    assert_eq!(take_new_nonce(with_nonce(NewNonceResponse, "n-1")).ok().unwrap().show(), "******");
}
