use acme_azure_function::azure::log_analytics::LogSender;
use acme_azure_function::function_worker::{
    self, Head, IncomingRequest, Invocation, MessageLevel, RequestReader, Response, BUFFER_SIZE,
};
use acme_azure_function::http_common::RequestBody;
use acme_azure_function::log2::{Logger, ScopedObjectOperation, Shown};

fn head(path: Option<&str>, headers: &[(&str, &[u8])]) -> Head {
    Head {
        method: Some("POST".to_owned()),
        path: path.map(ToOwned::to_owned),
        version: Some(1),
        headers: headers.iter().map(|&(name, value)| (name.to_owned(), value.to_vec())).collect(),
        body_start: 100,
    }
}

/// A request with these headers, where five bytes of its body have been read with its head.
fn request(headers: &[(&str, &[u8])]) -> IncomingRequest {
    IncomingRequest::new(head(Some("/renew-cert"), headers), 105).unwrap()
}

#[test]
fn the_port_is_read_from_the_environment() {
    let parse = |value: Option<&str>| {
        function_worker::parse_port(&value.map(ToOwned::to_owned)).map_err(|err| err.chain)
    };
    assert_eq!(parse(None), Ok(8080));
    assert_eq!(parse(Some("7071")), Ok(7071));
    assert_eq!(parse(Some("65535")), Ok(65535));
    assert_eq!(
        parse(Some("65536")),
        Err(vec![
            r#"could not parse FUNCTIONS_CUSTOMHANDLER_PORT value "65536""#.to_owned(),
            "number too large to fit in target type".to_owned(),
        ])
    );
    assert_eq!(
        parse(Some("\"\n")),
        Err(vec![
            r#"could not parse FUNCTIONS_CUSTOMHANDLER_PORT value "\"\n""#.to_owned(),
            "invalid digit found in string".to_owned(),
        ])
    );
}

#[test]
fn a_request_is_read_piece_by_piece() {
    let mut reader = RequestReader::new();
    assert_eq!(reader.room().unwrap(), BUFFER_SIZE);
    assert!(reader.received(b"POST /renew-cert HTTP/1.1\r\nX-Azure-Functions-").unwrap().is_none());
    assert_eq!(reader.room().unwrap(), BUFFER_SIZE - 45);
    let request =
        reader.received(b"InvocationId: abc\r\ncontent-length: 7\r\n\r\n{}").unwrap().unwrap();
    assert!(request.is_consistent());
    let request = request.heed_headers().unwrap();
    assert_eq!(request.remaining(), 5);
    assert!(!request.is_complete());
    let request = request.body_received(3).unwrap();
    assert_eq!(request.remaining(), 2);
    let request = request.body_received(3).unwrap();
    assert!(request.is_complete());
    let mut invocation = request.into_invocation();
    assert_eq!(invocation.method, "POST");
    assert_eq!(invocation.path, "renew-cert");
    let _ = invocation.logger.report_message("hello");
    let records = String::from_utf8(invocation.logger.take_records()).unwrap();
    assert!(records.contains(r#""FunctionInvocationId":"abc""#), "{records}");
}

#[test]
fn a_stream_may_end_early() {
    let mut reader = RequestReader::new();
    assert_eq!(reader.received(b"").unwrap_err().chain, ["malformed request: EOF"]);
    let request = request(&[("content-length", b"6")]).heed_headers().unwrap();
    assert_eq!(request.body_received(0).unwrap_err().chain, ["malformed request: EOF"]);
}

#[test]
fn a_head_may_be_too_large() {
    let mut reader = RequestReader::new();
    let mut start = b"POST /".to_vec();
    start.resize(BUFFER_SIZE, b'a');
    assert!(reader.received(&start).unwrap().is_none());
    assert_eq!(reader.room().unwrap_err().chain, ["request headers too large"]);
}

#[test]
fn malformed_heads_are_refused() {
    let read = |bytes: &[u8]| RequestReader::new().received(bytes).map(|_| ()).unwrap_err().chain;
    assert_eq!(read(b"\x01"), ["malformed request", "invalid token"]);
    assert_eq!(read(b"POST / HTTP/1.0\r\n\r\n"), ["malformed request: not HTTP/1.1"]);
    assert_eq!(read(b"POST renew-cert HTTP/1.1\r\n\r\n"), ["malformed request: no path"]);
    let mut many = b"POST / HTTP/1.1\r\n".to_vec();
    for _ in 0..16 {
        many.extend_from_slice(b"a: b\r\n");
    }
    let mut sixteen = many.clone();
    sixteen.extend_from_slice(b"\r\n");
    assert!(RequestReader::new().received(&sixteen).unwrap().is_some());
    many.extend_from_slice(b"a: b\r\n\r\n");
    assert_eq!(read(&many), ["malformed request", "too many headers"]);
}

#[test]
fn a_head_has_a_method_and_a_path() {
    let new = |head: Head| IncomingRequest::new(head, 100).map(|_| ()).map_err(|err| err.chain);
    assert_eq!(new(head(Some("/"), &[])), Ok(()));
    assert_eq!(
        new(Head { method: None, ..head(Some("/"), &[]) }),
        Err(vec!["malformed request: no method".to_owned()])
    );
    assert_eq!(new(head(None, &[])), Err(vec!["malformed request: no path".to_owned()]));
    assert_eq!(new(head(Some("a"), &[])), Err(vec!["malformed request: no path".to_owned()]));
    assert_eq!(
        new(Head { version: None, ..head(Some("/"), &[]) }),
        Err(vec!["malformed request: not HTTP/1.1".to_owned()])
    );
}

#[test]
fn a_request_without_a_length_has_no_body() {
    let request = request(&[("host", b"localhost"), ("x-azure-functions-invocationid", b"\xff")]);
    assert!(request.is_consistent());
    let request = request.heed_headers().unwrap();
    assert!(request.is_complete());
    let mut invocation = request.into_invocation();
    let _ = invocation.logger.report_message("hello");
    let records = String::from_utf8(invocation.logger.take_records()).unwrap();
    assert!(!records.contains("FunctionInvocationId"), "{records}");
}

#[test]
fn a_length_is_a_number() {
    let heed = |value: &[u8]| {
        let request = request(&[("Content-Length", value)]);
        request.heed_headers().map(|request| request.remaining()).map_err(|err| err.chain)
    };
    let context = "malformed request: malformed content-length header".to_owned();
    assert_eq!(heed(b"5"), Ok(0));
    assert_eq!(heed(b"1005"), Ok(1000));
    assert_eq!(heed(b""), Err(vec![context.clone(), "cannot parse integer from empty string".to_owned()]));
    assert_eq!(heed(b"a"), Err(vec![context.clone(), "invalid digit found in string".to_owned()]));
    assert_eq!(
        heed(b"99999999999999999999"),
        Err(vec![context.clone(), "number too large to fit in target type".to_owned()])
    );
    assert_eq!(
        heed(b"1\xff"),
        Err(vec![context, "invalid utf-8 sequence of 1 bytes from index 1".to_owned()])
    );
}

#[test]
fn a_length_below_what_was_read_is_noticed() {
    assert!(!request(&[("content-length", b"4")]).is_consistent());
    assert!(request(&[("content-length", b"5")]).is_consistent());
    assert!(!request(&[("content-length", b"5"), ("content-length", b"4")]).is_consistent());
    assert!(request(&[("content-length", b"6"), ("content-length", b"4")]).is_consistent());
    assert!(request(&[("content-length", b"x"), ("content-length", b"4")]).is_consistent());
}

fn invocation(method: &str) -> Invocation {
    Invocation {
        method: method.to_owned(),
        path: "renew-cert".to_owned(),
        logger: Logger::new(None, true),
    }
}

#[test]
fn only_a_post_runs_a_function() {
    assert!(invocation("POST").refusal().is_none());
    assert!(matches!(invocation("GET").refusal(), Some(Response::MethodNotAllowed)));
    assert!(matches!(invocation("post").refusal(), Some(Response::MethodNotAllowed)));
    let scope = invocation("POST").scope();
    assert_eq!(scope.object_type, "function_invocation/request");
    assert_eq!(scope.object_id, "POST/renew-cert");
    assert!(matches!(scope.operation, ScopedObjectOperation::Get));
}

#[test]
fn answers_are_written() {
    let write = |response: &Response| String::from_utf8(response.write_to()).unwrap();
    let done = Response::from_handled(Ok(true));
    assert_eq!(
        write(&done),
        "HTTP/1.1 200 \r\ncontent-type:application/json\r\n\r\n{\"Outputs\":{\"\":\"\"},\"Logs\":null,\"ReturnValue\":\"\"}"
    );
    assert_eq!(done.show(), "Ok");
    let unknown = Response::from_handled(Ok(false));
    assert_eq!(write(&unknown), "HTTP/1.1 404 \r\n\r\n");
    assert_eq!(unknown.show(), "UnknownFunction");
    assert_eq!(write(&Response::MethodNotAllowed), "HTTP/1.1 405 \r\nallow:POST\r\n\r\n");
    assert_eq!(Response::MethodNotAllowed.show(), "MethodNotAllowed");
    let failed = Response::from_handled(Err("oh \"no\"".to_owned()));
    assert_eq!(write(&failed), "HTTP/1.1 500 \r\ncontent-type:text/plain\r\n\r\noh \"no\"");
    assert_eq!(failed.show(), r#"Error("oh \"no\"")"#);
}

#[test]
fn answers_are_written_in_one_go() {
    assert!(function_worker::response_written(10, 10).is_ok());
    assert_eq!(
        function_worker::response_written(3, 10).unwrap_err().chain,
        ["could not write response: short write from writev (3/10)"]
    );
}

#[test]
fn messages_of_the_program_have_levels() {
    // 2024-01-02T03:04:05.678Z
    let now = 1_704_164_645_678_000_000;
    let line = |level: MessageLevel| level.line_at(now, "hello").unwrap();
    assert_eq!(line(MessageLevel::Error), "[2024-01-02T03:04:05.678Z] ERROR hello");
    assert_eq!(line(MessageLevel::Warn), "[2024-01-02T03:04:05.678Z] WARN  hello");
    assert_eq!(line(MessageLevel::Info), "[2024-01-02T03:04:05.678Z] INFO  hello");
    assert!(MessageLevel::Info.line("hello").unwrap().ends_with("Z] INFO  hello"));
    assert!(MessageLevel::Debug.line("hello").is_none());
    assert!(!MessageLevel::Trace.enabled());
    assert_eq!(
        MessageLevel::Info.line_at(i128::MAX, "hello").unwrap_err().chain[0],
        "could not format time"
    );
}

#[test]
fn every_time_that_is_held_has_a_line() {
    let line = |now: i128| MessageLevel::Error.line_at(now, "hello").map_err(|err| err.chain.len());
    let (first, last) = (-377_705_116_800_000_000_000, 253_402_300_799_999_999_999);
    assert_eq!(line(first).unwrap(), "[-9999-01-01T00:00:00.000Z] ERROR hello");
    assert_eq!(line(last).unwrap(), "[9999-12-31T23:59:59.999Z] ERROR hello");
    assert_eq!((line(first - 1), line(last + 1)), (Err(2), Err(2)));
}

#[test]
fn logs_are_pushed_when_there_are_any() {
    let sender = LogSender::new("cid".to_owned(), b"some key".to_vec()).unwrap();
    let mut logger = Logger::new(None, true);
    assert!(function_worker::push_logs(&mut logger, &sender).is_none());
    let _ = logger.report_message("hello");
    let (scope, request) = function_worker::push_logs(&mut logger, &sender).unwrap();
    assert_eq!(scope.object_type, "azure/log_analytics/logs");
    let request = request.unwrap();
    let log_type = request.headers.iter().find(|(name, _)| name == "log-type").unwrap();
    assert_eq!(log_type.1.as_bytes(), b"FunctionAppLogs");
    assert!(matches!(request.body, RequestBody::Stream(_)));
    assert!(function_worker::push_logs(&mut logger, &sender).is_none());
}
