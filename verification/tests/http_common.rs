use acme_azure_function::acme::completion::CertificateResponse;
use acme_azure_function::acme::NewAccountResponse;
use acme_azure_function::azure::key_vault::certificate::CsrResponse;
use acme_azure_function::azure::log_analytics::LogsResponse;
use acme_azure_function::http_common::{
    self, ArrivingBody, Client, DeserializableUri, FromResponse, HeaderValue, Method, Request, RequestBody, ResponseBody,
    ResponseHeaders, ResponseWithLocation, StatusCode, Uri,
};
use acme_azure_function::time2::Duration;

/// Sat, 05 Dec 2020 11:00:00 GMT.
const NOW: i128 = 1_607_166_000_000_000_000;

fn no_headers() -> ResponseHeaders {
    ResponseHeaders { location: None, replay_nonce: None, retry_after: None }
}

fn retry_after(value: &[u8]) -> Result<Duration, Vec<String>> {
    let headers = ResponseHeaders { retry_after: HeaderValue::from_bytes(value), ..no_headers() };
    http_common::get_retry_after_at(&headers, Duration::from_secs(1), Duration::from_secs(30), NOW)
        .map_err(|err| err.chain)
}

#[test]
fn retry_after_defaults_to_the_minimum() {
    let wait = http_common::get_retry_after(
        &no_headers(),
        Duration::from_secs(1),
        Duration::from_secs(30),
    );
    assert_eq!(wait.map_err(|err| err.chain), Ok(Duration::from_secs(1)));
}

#[test]
fn retry_after_is_a_number_of_seconds() {
    assert_eq!(retry_after(b"5"), Ok(Duration::from_secs(5)));
    assert_eq!(retry_after(b"+5"), Ok(Duration::from_secs(5)));
    assert_eq!(retry_after(b"0"), Ok(Duration::from_secs(1)));
    assert_eq!(retry_after(b"31"), Ok(Duration::from_secs(30)));
}

#[test]
fn retry_after_is_a_date() {
    assert_eq!(retry_after(b"Sat, 05 Dec 2020 11:00:07 GMT"), Ok(Duration::from_secs(7)));
    assert_eq!(retry_after(b"Sat, 05 Dec 2020 12:00:00 GMT"), Ok(Duration::from_secs(30)));
    assert_eq!(
        retry_after(b"Sat, 05 Dec 2020 10:59:59 GMT"),
        Err(vec![
            "could not parse retry-after header as HTTP-date".to_owned(),
            "Source value is out of range for the target type".to_owned(),
        ])
    );
}

#[test]
fn retry_after_is_neither() {
    assert_eq!(
        retry_after(b"soon"),
        Err(vec!["could not parse retry-after header as delay-seconds or HTTP-date".to_owned()])
    );
    assert_eq!(
        retry_after(b"\xff"),
        Err(vec![
            "could not parse retry-after header".to_owned(),
            "failed to convert header to a str".to_owned(),
        ])
    );
}

#[test]
fn spans_of_time_are_shown() {
    assert_eq!(Duration::from_secs(30).text(), "30s");
    assert_eq!(Duration::from_millis(1500).text(), "1.5s");
    assert_eq!(Duration::from_nanos(1_000).map(Duration::text).as_deref(), Some("1\u{b5}s"));
    assert_eq!(Duration::from_secs(3).double(), Duration::from_secs(6));
    assert_eq!(Duration::from_millis(1500).double(), Duration::from_secs(3));
    assert_eq!(Duration::from_secs(1 << 62).double(), Duration::from_secs(1 << 63));
    assert_eq!(Duration::from_secs(3).min(Duration::from_millis(2999)), Duration::from_millis(2999));
}

#[test]
fn header_values_are_checked() {
    assert_eq!(HeaderValue::from_bytes(b"a\tb\xff").unwrap().as_bytes(), b"a\tb\xff");
    assert!(HeaderValue::from_bytes(b"a\nb").is_none());
    assert!(HeaderValue::from_bytes(b"\x7f").is_none());
    assert_eq!(HeaderValue::from_text("a b").unwrap().to_str().unwrap(), "a b");
    assert_eq!(HeaderValue::from_text("\r").unwrap_err().chain, ["failed to parse header value"]);
    assert_eq!(HeaderValue::from_number(120).as_bytes(), b"120");
}

#[test]
fn header_values_agree_with_the_http_crate() {
    for b in 0..=255_u8 {
        let expected = http::HeaderValue::from_bytes(&[b]);
        let actual = HeaderValue::from_bytes(&[b]);
        assert_eq!(actual.is_some(), expected.is_ok(), "{b}");
        if let (Some(actual), Ok(expected)) = (actual, expected) {
            assert_eq!(actual.to_str().is_ok(), expected.to_str().is_ok(), "{b}");
        }
    }
}

#[test]
fn statuses_have_three_digits() {
    assert!(StatusCode::from_u16(99).is_none());
    assert!(StatusCode::from_u16(1000).is_none());
    assert_eq!(StatusCode::from_u16(999).unwrap().as_u16(), 999);
}

#[test]
fn uris_are_parsed() {
    assert_eq!(Uri::from_text("https://Example.com").unwrap().as_str(), "https://Example.com/");
    assert_eq!(Uri::from_text("https://example.com/a?b#c").unwrap().as_str(), "https://example.com/a?b");
    assert_eq!(Uri::from_text("").unwrap_err().chain, ["empty string"]);
    assert_eq!(Uri::from_bytes(b"https://exa mple.com/").unwrap_err().chain, ["invalid uri character"]);
    assert_eq!(Uri::https("example.com", "/a?b=c").unwrap().as_str(), "https://example.com/a?b=c");
    assert_eq!(Uri::https("exa mple", "/a").unwrap_err().chain, ["invalid uri character"]);
    let DeserializableUri(uri) = DeserializableUri::deserialize("https://example.com").unwrap();
    assert_eq!(uri.as_str(), "https://example.com/");
    assert_eq!(DeserializableUri::deserialize("").unwrap_err().chain, ["empty string"]);
}

#[test]
fn a_client_names_itself() {
    let client = Client::new(HeaderValue::from_static("me/1.0"));
    let mut request = Request::new(
        Method::Post,
        Uri::from_text("https://example.com/").unwrap(),
        RequestBody::from_bytes(b"x".to_vec()),
    );
    request.push_header("a", HeaderValue::from_static("b"));
    let request = client.prepare(request);
    let headers: Vec<(&str, &[u8])> =
        request.headers.iter().map(|(name, value)| (&**name, value.as_bytes())).collect();
    assert_eq!(headers, [("a", &b"b"[..]), ("user-agent", &b"me/1.0"[..])]);
}

#[test]
fn a_client_has_one_name() {
    let client = Client::new(HeaderValue::from_static("me/1.0"));
    let mut request = Request::new(
        Method::Get,
        Uri::from_text("https://example.com/").unwrap(),
        RequestBody::default(),
    );
    request.push_header("user-agent", HeaderValue::from_static("you"));
    request.push_header("a", HeaderValue::from_static("b"));
    let request = client.prepare(client.prepare(request));
    let headers: Vec<(&str, &[u8])> =
        request.headers.iter().map(|(name, value)| (&**name, value.as_bytes())).collect();
    assert_eq!(headers, [("a", &b"b"[..]), ("user-agent", &b"me/1.0"[..])]);
}

fn received<T: FromResponse>(
    status: u16,
    content_type: Option<&str>,
    pieces: &[&[u8]],
    read: impl Fn(&[u8]) -> (T::Content, usize),
) -> Result<T, Vec<String>> {
    let content_type = content_type.map(|content_type| HeaderValue::from_text(content_type).unwrap());
    let body =
        pieces.iter().fold(ArrivingBody::new(), |body, piece| body.data_received(piece));
    Client::new(HeaderValue::from_static("me"))
        .receive(StatusCode::from_u16(status).unwrap(), &no_headers(), content_type, body, read)
        .map_err(|err| err.chain)
}

#[test]
fn an_unexpected_response_is_quoted() {
    let ignore = |_: &[u8]| ((), 0);
    assert!(received::<LogsResponse>(200, None, &[], ignore).is_ok());
    assert_eq!(
        received::<LogsResponse>(404, None, &[], ignore).unwrap_err(),
        ["unexpected response 404 Not Found: None"]
    );
    assert_eq!(
        received::<LogsResponse>(599, None, &[], ignore).unwrap_err(),
        ["unexpected response 599 <unknown status code>: None"]
    );
    assert_eq!(
        received::<LogsResponse>(500, Some("text/plain"), &[b"o", b"h\n"], ignore).unwrap_err(),
        [r#"unexpected response 500 Internal Server Error: Some(("text/plain", b"oh\n"))"#]
    );
}

#[test]
fn what_is_special_in_a_response_is_escaped() {
    let body = b"\n\r\t\\\"\0 ~\x7f\xff\x1b";
    let content_type = HeaderValue::from_bytes(b"a\"b\tc\xfe").unwrap();
    let err = Client::new(HeaderValue::from_static("me"))
        .receive::<LogsResponse, _>(
            StatusCode::from_u16(404).unwrap(),
            &no_headers(),
            Some(content_type),
            ArrivingBody::new().data_received(body),
            |_: &[u8]| ((), 0),
        )
        .unwrap_err();
    assert_eq!(
        err.chain,
        ["unexpected response 404 Not Found: Some((\"a\\\"b\tc\\xfe\", \
          b\"\\n\\r\\t\\\\\\\"\\0 ~\\x7f\\xff\\x1b\"))"]
    );
}

#[test]
fn what_has_been_read_is_not_quoted() {
    let quoted = |status: u16, content_type: &str, pieces: &[&[u8]], taken: usize| {
        let read = |_: &[u8]| (Err::<CsrResponse, _>("oh".to_owned()), taken);
        let err = received::<CsrResponse>(status, Some(content_type), pieces, read).unwrap_err();
        let (_, quoted) = err[0].split_once(", b").unwrap();
        quoted.strip_suffix("))").unwrap().to_owned()
    };
    let json = "application/json";
    let pieces: &[&[u8]] = &[b"ab", b"cd", b"ef"];
    assert_eq!(quoted(202, json, pieces, 0), r#""abcdef""#);
    assert_eq!(quoted(202, json, pieces, 2), r#""abcdef""#);
    assert_eq!(quoted(202, json, pieces, 3), r#""abdef""#);
    assert_eq!(quoted(202, json, pieces, 6), r#""ab""#);
    assert_eq!(quoted(202, json, pieces, 7), r#""ab""#);
    // A body in one piece stays, and so does one that is not looked at.
    assert_eq!(quoted(202, json, &[b"abcdef"], 6), r#""abcdef""#);
    assert_eq!(quoted(200, json, pieces, 6), r#""abcdef""#);
    assert_eq!(quoted(202, "text/html", pieces, 6), r#""abcdef""#);
}

#[test]
fn a_body_is_read_where_it_counts() {
    let ok = StatusCode::from_u16(201).unwrap();
    let json = HeaderValue::from_static("application/json; charset=utf-8");
    let html = HeaderValue::from_static("text/html");
    let headers = no_headers();
    let located = ResponseHeaders {
        location: Some(HeaderValue::from_static("https://example.com/")),
        ..no_headers()
    };
    assert!(!LogsResponse::reads_body(ok, &json, &headers));
    assert!(NewAccountResponse::reads_body(ok, &json, &headers));
    assert!(!NewAccountResponse::reads_body(ok, &html, &headers));
    assert!(!NewAccountResponse::reads_body(StatusCode::from_u16(202).unwrap(), &json, &headers));
    assert!(!ResponseWithLocation::<NewAccountResponse>::reads_body(ok, &json, &headers));
    assert!(ResponseWithLocation::<NewAccountResponse>::reads_body(ok, &json, &located));
    assert!(ArrivingBody::new().data_received(b"a").is_in_one_piece());
    assert!(!ArrivingBody::new().data_received(b"a").data_received(b"").is_in_one_piece());
}

#[test]
fn a_body_without_a_type_is_not_read() {
    let json = |bytes: &[u8]| {
        assert_eq!(bytes, b"{}");
        (Ok(CsrResponse { csr: "csr".to_owned() }), bytes.len())
    };
    let never = |_: &[u8]| -> (Result<CsrResponse, String>, usize) { panic!("the body is read") };
    assert_eq!(
        received::<CsrResponse>(202, Some("application/json"), &[b"{", b"}"], json).unwrap().csr,
        "csr"
    );
    assert_eq!(
        received::<CsrResponse>(202, None, &[b"{", b"}"], never).unwrap_err(),
        ["unexpected response 202 Accepted: None"]
    );
}

#[test]
fn a_body_starts_with_data() {
    let body = ArrivingBody::new();
    let err = || vec!["could not read response body: not a data frame".to_owned()];
    assert_eq!(body.other_received().unwrap_err().chain, err());
    let body = body.data_received(b"a");
    assert_eq!(body.other_received().unwrap_err().chain, err());
    let body = body.data_received(b"b").data_received(b"c");
    assert!(body.other_received().is_ok());
}

#[test]
fn text_bodies_are_read() {
    let read = |content_type: &str, pieces: &[&[u8]]| {
        let read = |bytes: &[u8]| (bytes.to_vec(), bytes.len());
        received::<CertificateResponse>(200, Some(content_type), pieces, read)
            .map(|response| response.certificate)
    };
    let chain = "application/pem-certificate-chain";
    assert_eq!(read(chain, &[b"abc"]).unwrap(), "abc");
    assert_eq!(read(chain, &[b"a", b"", b"bc"]).unwrap(), "abc");
    assert_eq!(
        read("text/plain", &[b"abc"]).unwrap_err()[1],
        "response body does not have content-type:application/pem-certificate-chain"
    );
    assert_eq!(
        read(chain, &[b"a\xff"]).unwrap_err()[1],
        "invalid utf-8 sequence of 1 bytes from index 1"
    );
    assert_eq!(read(chain, &[b"a", b"\xff"]).unwrap_err()[1], "stream did not contain valid UTF-8");
}

#[test]
fn json_bodies_are_guarded_by_their_type() {
    let read = |content_type: &[u8]| {
        let body = ResponseBody {
            in_one_piece: true,
            content_type: HeaderValue::from_bytes(content_type).unwrap(),
            content: Ok::<u8, String>(1),
        };
        body.as_json().map_err(|err| err.chain)
    };
    assert_eq!(read(b"application/json"), Ok(1));
    assert_eq!(read(b"application/json; charset=utf-8"), Ok(1));
    let wrong = Err(vec!["response body does not have content-type:application/json".to_owned()]);
    assert_eq!(read(b"application/jsonx"), wrong);
    assert_eq!(read(b"application/json;\xff"), wrong);
    let body = ResponseBody {
        in_one_piece: true,
        content_type: HeaderValue::from_static("application/json"),
        content: Err::<u8, String>("EOF".to_owned()),
    };
    assert_eq!(body.as_json().unwrap_err().chain, ["EOF"]);
}

#[test]
fn a_location_is_needed() {
    let receive = |location: Option<&str>| {
        let headers = ResponseHeaders {
            location: location.map(|location| HeaderValue::from_text(location).unwrap()),
            ..no_headers()
        };
        ResponseWithLocation::<LogsResponse>::from_response(
            StatusCode::from_u16(200).unwrap(),
            None,
            &headers,
            NOW,
        )
        .map(|response| response.unwrap().location.as_str().to_owned())
        .map_err(|err| err.chain)
    };
    assert_eq!(receive(Some("https://example.com/1")).unwrap(), "https://example.com/1");
    assert_eq!(receive(None).unwrap_err(), ["missing location header"]);
    assert_eq!(receive(Some("")).unwrap_err(), ["could not parse location header", "empty string"]);
}
