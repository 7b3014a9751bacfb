//! The server that the function host sends its invocations to: reading requests, answering them, and
//! sending the log of an invocation while it runs.

use vstd::prelude::*;
use vstd::utf8;

use crate::azure::log_analytics;
use crate::azure::log_analytics::LogSender;
use crate::error;
use crate::error::Error;
use crate::http_common;
use crate::http_common::{HeaderValue, Request};
use crate::log2;
use crate::log2::object_id;
use crate::log2::{Logger, LoggerView, ObjectId, Scope, ScopeView, ScopedObjectOperation, Shown};
use crate::text;
use crate::time2;

verus! {

/// How many bytes the head of a request may have.
pub const BUFFER_SIZE: usize = 8192;

/// How many headers a request may have.
pub const MAX_HEADERS: usize = 16;

/// The kind of log that the records of invocations go to.
pub const LOG_TYPE: &'static str = "FunctionAppLogs";

/// The port that the server listens on where the environment names none.
pub const DEFAULT_PORT: u16 = 8080;

/// The port that the environment names.
pub open spec fn port_named(value: Option<Seq<char>>) -> Result<u16, Seq<Seq<char>>> {
    match value {
        None => Ok(DEFAULT_PORT),
        Some(value) => match text::parsed_unsigned(value, u16::MAX as nat) {
            Ok(port) => Ok(port as u16),
            Err(err) => Err(
                seq![
                    "could not parse FUNCTIONS_CUSTOMHANDLER_PORT value "@ + text::quoted(value),
                    err,
                ],
            ),
        },
    }
}

/// The port that the environment names.
pub fn parse_port(value: &Option<String>) -> (r: Result<u16, Error>)
    ensures
        http_common::plain_view(r) == port_named(text::optional(*value)),
{
    match value {
        None => Ok(DEFAULT_PORT),
        Some(value) => match text::parse_unsigned(value.as_str(), u16::MAX as u64) {
            Ok(port) => Ok(port as u16),
            Err(err) => {
                let mut head = "could not parse FUNCTIONS_CUSTOMHANDLER_PORT value ".to_owned();
                head.append(text::quote(value.as_str()).as_str());
                let r = Error::new(err).context(head.as_str());
                assert(r@ =~= seq![head@, err@]);
                Err(r)
            },
        },
    }
}

/// How grave a message of the program itself is.
#[derive(Clone, Copy, Debug, PartialEq, Eq, Structural)]
pub enum MessageLevel {
    Error,
    Warn,
    Info,
    Debug,
    Trace,
}

/// A level, filled up to five characters.
pub open spec fn padded_level(level: MessageLevel) -> Seq<char> {
    match level {
        MessageLevel::Error => "ERROR"@,
        MessageLevel::Warn => "WARN "@,
        MessageLevel::Info => "INFO "@,
        MessageLevel::Debug => "DEBUG"@,
        MessageLevel::Trace => "TRACE"@,
    }
}

/// The line that a message of the program becomes.
pub open spec fn message_line(
    now: i128,
    level: MessageLevel,
    message: Seq<char>,
) -> Result<Seq<char>, Seq<Seq<char>>> {
    match time2::formatted(now, time2::RFC3339_MILLISECONDS@) {
        Ok(timestamp) => Ok("["@ + timestamp + "] "@ + padded_level(level) + " "@ + message),
        Err(err) => Err(err),
    }
}

impl MessageLevel {
    /// Whether messages of this level are written.
    pub fn enabled(self) -> (r: bool)
        ensures
            r <==> self is Error || self is Warn || self is Info,
    {
        match self {
            MessageLevel::Error | MessageLevel::Warn | MessageLevel::Info => true,
            MessageLevel::Debug | MessageLevel::Trace => false,
        }
    }

    /// The level, filled up to five characters.
    fn padded(self) -> (r: &'static str)
        ensures
            r@ == padded_level(self),
    {
        match self {
            MessageLevel::Error => "ERROR",
            MessageLevel::Warn => "WARN ",
            MessageLevel::Info => "INFO ",
            MessageLevel::Debug => "DEBUG",
            MessageLevel::Trace => "TRACE",
        }
    }

    /// The line that a message of this level becomes, at the time `now`.
    pub fn line_at(self, now: i128, message: &str) -> (r: Result<String, Error>)
        ensures
            error::result_view(r) == message_line(now, self, message@),
            r is Ok <==> time2::is_held(now as int),
    {
        proof {
            reveal_strlit(
                "[year]-[month]-[day]T[hour]:[minute]:[second].[subsecond digits:3]Z",
            );
        }
        match time2::format(now, time2::RFC3339_MILLISECONDS) {
            Ok(timestamp) => {
                let mut line = "[".to_owned();
                line.append(timestamp.as_str());
                line.append("] ");
                line.append(self.padded());
                line.append(" ");
                line.append(message);
                Ok(line)
            },
            Err(err) => Err(err),
        }
    }

    /// The line that a message of this level becomes now; none, if messages of this level are not
    /// written.
    pub fn line(self, message: &str) -> (r: Option<String>)
        ensures
            r is Some <==> self is Error || self is Warn || self is Info,
            r matches Some(line) ==> exists|now: i128|
                time2::is_held(now as int) && #[trigger] message_line(now, self, message@) == Ok::<
                    Seq<char>,
                    Seq<Seq<char>>,
                >(line@),
    {
        if self.enabled() {
            let now: i128 = time2::now();
            let line = self.line_at(now, message).unwrap();
            assert(message_line(now, self, message@) == Ok::<Seq<char>, Seq<Seq<char>>>(line@));
            Some(line)
        } else {
            None
        }
    }
}

/// The head of an HTTP request.
#[derive(Debug)]
pub struct Head {
    pub method: Option<String>,
    pub path: Option<String>,
    /// The minor version of HTTP, whose major version is 1.
    pub version: Option<u8>,
    pub headers: Vec<(String, Vec<u8>)>,
    /// How many bytes the head has.
    pub body_start: usize,
}

/// The head of an HTTP request.
#[verifier::ext_equal]
pub struct HeadView {
    pub method: Option<Seq<char>>,
    pub path: Option<Seq<char>>,
    pub version: Option<u8>,
    pub headers: Seq<(Seq<char>, Seq<u8>)>,
    pub body_start: nat,
}

/// The views of some headers.
pub open spec fn headers_view(headers: Seq<(String, Vec<u8>)>) -> Seq<(Seq<char>, Seq<u8>)> {
    headers.map_values(|h: (String, Vec<u8>)| (h.0@, h.1@))
}

impl View for Head {
    type V = HeadView;

    open spec fn view(&self) -> HeadView {
        HeadView {
            method: text::optional(self.method),
            path: text::optional(self.path),
            version: self.version,
            headers: headers_view(self.headers@),
            body_start: self.body_start as nat,
        }
    }
}

/// What parsing the head of an HTTP request with at most `max_headers` headers gives: the head, or
/// nothing yet where the bytes are the start of one, or what is wrong with them.
pub uninterp spec fn head_parsed(buffer: Seq<u8>, max_headers: usize) -> Result<
    Option<HeadView>,
    Seq<char>,
>;

/// `httparse::Request::parse_with_uninit_headers`, with room for `max_headers` headers, the parts of
/// the head copied, and the error as a text. A head lies within the bytes that it was parsed from.
#[verifier::external_body]
fn parse_head(buffer: &[u8], max_headers: usize) -> (r: Result<Option<Head>, String>)
    ensures
        match r {
            Ok(Some(head)) => head_parsed(buffer@, max_headers) == Ok::<
                Option<HeadView>,
                Seq<char>,
            >(Some(head@)) && head.body_start <= buffer@.len(),
            Ok(None) => head_parsed(buffer@, max_headers) == Ok::<Option<HeadView>, Seq<char>>(
                None,
            ),
            Err(err) => head_parsed(buffer@, max_headers) == Err::<Option<HeadView>, Seq<char>>(
                err@,
            ),
        },
{
    let mut headers = vec![std::mem::MaybeUninit::uninit(); max_headers];
    let mut req = httparse::Request::new(&mut []);
    match req.parse_with_uninit_headers(buffer, &mut headers) {
        Ok(httparse::Status::Complete(body_start)) => Ok(Some(Head {
            method: req.method.map(str::to_owned),
            path: req.path.map(str::to_owned),
            version: req.version,
            headers: req.headers.iter().map(|h| (h.name.to_owned(), h.value.to_vec())).collect(),
            body_start,
        })),
        Ok(httparse::Status::Partial) => Ok(None),
        Err(err) => Err(err.to_string()),
    }
}

/// A request whose head has been read, and whose body is being read past. Its headers are looked at
/// one after the other.
#[derive(Debug)]
pub struct IncomingRequest {
    method: String,
    path: String,
    headers: Vec<(String, Vec<u8>)>,
    next: usize,
    buffered: usize,
    remaining: usize,
    function_invocation_id: Option<String>,
}

/// A request whose head has been read.
#[verifier::ext_equal]
pub struct IncomingView {
    pub method: Seq<char>,
    pub path: Seq<char>,
    /// The headers that have not been looked at.
    pub headers: Seq<(Seq<char>, Seq<u8>)>,
    /// How much of the body was read together with the head.
    pub buffered: nat,
    /// How much of the body has still to be read.
    pub remaining: nat,
    pub function_invocation_id: Option<Seq<char>>,
}

impl View for IncomingRequest {
    type V = IncomingView;

    closed spec fn view(&self) -> IncomingView {
        IncomingView {
            method: self.method@,
            path: self.path@,
            headers: headers_view(self.headers@).skip(self.next as int),
            buffered: self.buffered as nat,
            remaining: self.remaining as nat,
            function_invocation_id: text::optional(self.function_invocation_id),
        }
    }
}

/// The request that has a certain head, where `read` bytes have been read.
pub open spec fn request_headed(head: HeadView, read: nat) -> Result<IncomingView, Seq<Seq<char>>> {
    match (head.method, head.path) {
        (None, _) => Err(error::message("malformed request: no method"@)),
        (Some(method), path) => if path is None || text::without_first(path->0, '/') is None {
            Err(error::message("malformed request: no path"@))
        } else if head.version != Some(1u8) {
            Err(error::message("malformed request: not HTTP/1.1"@))
        } else {
            Ok(
                IncomingView {
                    method,
                    path: text::without_first(path->0, '/')->0,
                    headers: head.headers,
                    buffered: (read - head.body_start) as nat,
                    remaining: 0,
                    function_invocation_id: None,
                },
            )
        },
    }
}

/// The request that starts with certain bytes, where they hold its whole head.
pub open spec fn request_started(buffer: Seq<u8>) -> Result<Option<IncomingView>, Seq<Seq<char>>> {
    match head_parsed(buffer, MAX_HEADERS) {
        Err(err) => Err(error::in_context("malformed request"@, error::message(err))),
        Ok(None) => Ok(None),
        Ok(Some(head)) => match request_headed(head, buffer.len()) {
            Ok(request) => Ok(Some(request)),
            Err(err) => Err(err),
        },
    }
}

/// The view of an optional request.
pub open spec fn optional_request(r: Result<Option<IncomingRequest>, Error>) -> Result<
    Option<IncomingView>,
    Seq<Seq<char>>,
> {
    match r {
        Ok(Some(request)) => Ok(Some(request@)),
        Ok(None) => Ok(None),
        Err(err) => Err(err@),
    }
}

/// The start of a request, as far as it has been read.
#[derive(Debug)]
pub struct RequestReader {
    buffer: Vec<u8>,
}

impl View for RequestReader {
    type V = Seq<u8>;

    closed spec fn view(&self) -> Seq<u8> {
        self.buffer@
    }
}

impl RequestReader {
    #[verifier::type_invariant]
    spec fn fits(self) -> bool {
        self.buffer@.len() <= BUFFER_SIZE
    }

    /// Nothing has been read yet.
    pub fn new() -> (r: RequestReader)
        ensures
            r@ == Seq::<u8>::empty(),
    {
        RequestReader { buffer: Vec::new() }
    }

    /// How much can be read next.
    pub fn room(&self) -> (r: Result<usize, Error>)
        ensures
            http_common::plain_view(r) == (if self@.len() == BUFFER_SIZE {
                Err::<usize, Seq<Seq<char>>>(error::message("request headers too large"@))
            } else {
                Ok::<usize, Seq<Seq<char>>>((BUFFER_SIZE - self@.len()) as usize)
            }),
            self@.len() <= BUFFER_SIZE,
    {
        proof {
            use_type_invariant(self);
        }
        if self.buffer.len() == BUFFER_SIZE {
            Err(Error::new("request headers too large"))
        } else {
            Ok(BUFFER_SIZE - self.buffer.len())
        }
    }

    /// Takes what has been read, which is nothing at the end of the stream.
    pub fn received(&mut self, bytes: &[u8]) -> (r: Result<Option<IncomingRequest>, Error>)
        requires
            old(self)@.len() + bytes@.len() <= BUFFER_SIZE,
        ensures
            final(self)@ == old(self)@ + bytes@,
            optional_request(r) == (if bytes@.len() == 0 {
                Err(error::message("malformed request: EOF"@))
            } else {
                request_started(old(self)@ + bytes@)
            }),
    {
        let mut buffer: Vec<u8> = Vec::new();
        std::mem::swap(&mut buffer, &mut self.buffer);
        let ghost before = buffer@;
        buffer.extend_from_slice(bytes);
        assert(buffer@ =~= before + bytes@);
        self.buffer = buffer;
        if bytes.len() == 0 {
            return Err(Error::new("malformed request: EOF"));
        }
        match parse_head(self.buffer.as_slice(), MAX_HEADERS) {
            Err(err) => Err(Error::new(err.as_str()).context("malformed request")),
            Ok(None) => Ok(None),
            Ok(Some(head)) => match IncomingRequest::new(head, self.buffer.len()) {
                Ok(request) => Ok(Some(request)),
                Err(err) => Err(err),
            },
        }
    }
}

/// What a header has to say to the server.
pub enum Heeded {
    /// How long the body is.
    BodyLength(nat),
    /// Which invocation the request is about, if that is a text.
    InvocationId(Option<Seq<char>>),
    /// Nothing.
    Nothing,
}

/// The length of the body that a header gives.
pub open spec fn content_length(value: Seq<u8>) -> Result<nat, Seq<Seq<char>>> {
    let err = match text::utf8_text(value) {
        None => Err(text::utf8_error(value)),
        Some(s) => text::parsed_unsigned(s, usize::MAX as nat),
    };
    match err {
        Ok(length) => Ok(length),
        Err(err) => Err(
            error::in_context(
                "malformed request: malformed content-length header"@,
                error::message(err),
            ),
        ),
    }
}

/// What a header has to say to the server.
pub open spec fn heeded(header: (Seq<char>, Seq<u8>)) -> Result<Heeded, Seq<Seq<char>>> {
    if text::same_but_for_case(header.0, "content-length"@) {
        match content_length(header.1) {
            Ok(length) => Ok(Heeded::BodyLength(length)),
            Err(err) => Err(err),
        }
    } else if text::same_but_for_case(header.0, "x-azure-functions-invocationid"@) {
        Ok(Heeded::InvocationId(text::utf8_text(header.1)))
    } else {
        Ok(Heeded::Nothing)
    }
}

/// Whether no header says that the body is shorter than the `buffered` bytes that have been read of
/// it, up to the first one that is wrong or tells of more to read.
pub open spec fn are_consistent(headers: Seq<(Seq<char>, Seq<u8>)>, buffered: nat) -> bool
    decreases headers.len(),
{
    headers.len() == 0 || match heeded(headers[0]) {
        Err(_) => true,
        Ok(Heeded::BodyLength(length)) => length > buffered || (length == buffered
            && are_consistent(headers.skip(1), buffered)),
        Ok(_) => are_consistent(headers.skip(1), buffered),
    }
}

/// Whether no header that is looked at next says that the body is shorter than what has been read of
/// it.
pub open spec fn is_consistent(request: IncomingView) -> bool {
    request.remaining > 0 || are_consistent(request.headers, request.buffered)
}

/// A request after the headers that can be looked at without reading more of its body.
pub open spec fn headers_heeded(request: IncomingView) -> Result<IncomingView, Seq<Seq<char>>>
    decreases request.headers.len(),
{
    if request.remaining > 0 || request.headers.len() == 0 {
        Ok(request)
    } else {
        let rest = IncomingView { headers: request.headers.skip(1), ..request };
        match heeded(request.headers[0]) {
            Err(err) => Err(err),
            Ok(Heeded::BodyLength(length)) => headers_heeded(
                IncomingView { remaining: (length - request.buffered) as nat, ..rest },
            ),
            Ok(Heeded::InvocationId(id)) => headers_heeded(
                IncomingView { function_invocation_id: id, ..rest },
            ),
            Ok(Heeded::Nothing) => headers_heeded(rest),
        }
    }
}

/// A request after `read` more bytes of its body, of which there are none at the end of the stream.
pub open spec fn body_read(request: IncomingView, read: nat) -> Result<IncomingView, Seq<Seq<char>>> {
    if read == 0 {
        Err(error::message("malformed request: EOF"@))
    } else {
        Ok(
            IncomingView {
                remaining: if read < request.remaining {
                    (request.remaining - read) as nat
                } else {
                    0
                },
                ..request
            },
        )
    }
}

/// Reads the length of a body.
fn parse_content_length(value: &Vec<u8>) -> (r: Result<usize, Error>)
    ensures
        match r {
            Ok(length) => content_length(value@) == Ok::<nat, Seq<Seq<char>>>(length as nat),
            Err(err) => content_length(value@) == Err::<nat, Seq<Seq<char>>>(err@),
        },
{
    let err = match text::from_utf8(value.as_slice()) {
        None => text::describe_utf8_error(value.as_slice()),
        Some(s) => match text::parse_unsigned(s.as_str(), usize::MAX as u64) {
            Ok(length) => {
                return Ok(length as usize);
            },
            Err(err) => err.to_owned(),
        },
    };
    Err(
        Error::new(err.as_str()).context("malformed request: malformed content-length header"),
    )
}

impl IncomingRequest {
    #[verifier::type_invariant]
    spec fn in_range(self) -> bool {
        self.next <= self.headers@.len()
    }

    /// The request that has a certain head, where `read` bytes have been read.
    pub fn new(head: Head, read: usize) -> (r: Result<IncomingRequest, Error>)
        requires
            head.body_start <= read,
        ensures
            error::result_view(r) == request_headed(head@, read as nat),
    {
        let method = match head.method {
            Some(method) => method,
            None => {
                return Err(Error::new("malformed request: no method"));
            },
        };
        let path = match head.path {
            Some(path) => text::strip_first(path.as_str(), '/'),
            None => None,
        };
        let path = match path {
            Some(path) => path,
            None => {
                return Err(Error::new("malformed request: no path"));
            },
        };
        match head.version {
            Some(1) => {},
            _ => {
                return Err(Error::new("malformed request: not HTTP/1.1"));
            },
        }
        let buffered: usize = read - head.body_start;
        let r = IncomingRequest {
            method,
            path,
            headers: head.headers,
            next: 0,
            buffered,
            remaining: 0,
            function_invocation_id: None,
        };
        assert(headers_view(r.headers@).skip(0) =~= headers_view(r.headers@));
        Ok(r)
    }

    /// Whether no header that is looked at next says that the body is shorter than what has been read
    /// of it.
    pub fn is_consistent(&self) -> (r: bool)
        ensures
            r == is_consistent(self@),
    {
        proof {
            use_type_invariant(self);
        }
        if self.remaining > 0 {
            return true;
        }
        let ghost all = headers_view(self.headers@);
        let mut i: usize = self.next;
        while i < self.headers.len()
            invariant
                self.next <= i <= self.headers@.len(),
                self.remaining == 0,
                all == headers_view(self.headers@),
                is_consistent(self@) == are_consistent(all.skip(i as int), self.buffered as nat),
            decreases self.headers@.len() - i,
        {
            let header = &self.headers[i];
            assert(all.skip(i as int)[0] == (header.0@, header.1@));
            assert(all.skip(i as int).skip(1) =~= all.skip(i + 1));
            if text::eq_ignore_case(header.0.as_str(), "content-length") {
                match parse_content_length(&header.1) {
                    Err(_) => {
                        return true;
                    },
                    Ok(length) => {
                        if length > self.buffered {
                            return true;
                        }
                        if length < self.buffered {
                            return false;
                        }
                    },
                }
            }
            i = i + 1;
        }
        true
    }

    /// Looks at the headers, as far as that can be done without reading more of the body.
    pub fn heed_headers(self) -> (r: Result<IncomingRequest, Error>)
        requires
            is_consistent(self@),
        ensures
            error::result_view(r) == headers_heeded(self@),
    {
        let ghost start = self@;
        proof {
            use_type_invariant(&self);
        }
        let IncomingRequest {
            method,
            path,
            headers,
            next,
            buffered,
            remaining,
            function_invocation_id,
        } = self;
        let mut next: usize = next;
        let mut remaining: usize = remaining;
        let mut function_invocation_id: Option<String> = function_invocation_id;
        let ghost all = headers_view(headers@);
        while remaining == 0 && next < headers.len()
            invariant
                start == self@,
                next <= headers@.len(),
                all == headers_view(headers@),
                ({
                    let now = IncomingView {
                        method: method@,
                        path: path@,
                        headers: all.skip(next as int),
                        buffered: buffered as nat,
                        remaining: remaining as nat,
                        function_invocation_id: text::optional(function_invocation_id),
                    };
                    is_consistent(now) && headers_heeded(start) == headers_heeded(now)
                }),
            decreases headers@.len() - next,
        {
            let ghost before = IncomingView {
                method: method@,
                path: path@,
                headers: all.skip(next as int),
                buffered: buffered as nat,
                remaining: 0,
                function_invocation_id: text::optional(function_invocation_id),
            };
            let header = &headers[next];
            assert(before.headers[0] == (header.0@, header.1@));
            assert(before.headers.skip(1) =~= all.skip(next + 1));
            if text::eq_ignore_case(header.0.as_str(), "content-length") {
                match parse_content_length(&header.1) {
                    Err(err) => {
                        return Err(err);
                    },
                    Ok(length) => {
                        remaining = length - buffered;
                    },
                }
            } else if text::eq_ignore_case(
                header.0.as_str(),
                "x-azure-functions-invocationid",
            ) {
                function_invocation_id = text::from_utf8(header.1.as_slice());
            }
            next = next + 1;
            proof {
                let after = IncomingView {
                    method: method@,
                    path: path@,
                    headers: all.skip(next as int),
                    buffered: buffered as nat,
                    remaining: remaining as nat,
                    function_invocation_id: text::optional(function_invocation_id),
                };
                let rest = IncomingView { headers: before.headers.skip(1), ..before };
                assert(after =~= IncomingView {
                    remaining: remaining as nat,
                    function_invocation_id: text::optional(function_invocation_id),
                    ..rest
                });
                assert(headers_heeded(before) == headers_heeded(after));
                assert(is_consistent(after));
            }
        }
        Ok(
            IncomingRequest {
                method,
                path,
                headers,
                next,
                buffered,
                remaining,
                function_invocation_id,
            },
        )
    }

    /// How much of the body has still to be read before the headers can be looked at again.
    pub fn remaining(&self) -> (r: usize)
        ensures
            r == self@.remaining,
    {
        self.remaining
    }

    /// Whether all the headers have been looked at, and the body has been read.
    pub fn is_complete(&self) -> (r: bool)
        ensures
            r == (self@.remaining == 0 && self@.headers.len() == 0),
    {
        proof {
            use_type_invariant(self);
        }
        self.remaining == 0 && self.next == self.headers.len()
    }

    /// Takes the length of what has been read of the body, which is nothing at the end of the stream.
    pub fn body_received(self, read: usize) -> (r: Result<IncomingRequest, Error>)
        ensures
            error::result_view(r) == (if read == 0 {
                Err(error::message("malformed request: EOF"@))
            } else {
                Ok(
                    IncomingView {
                        remaining: if read < self@.remaining {
                            (self@.remaining - read) as nat
                        } else {
                            0
                        },
                        ..self@
                    },
                )
            }),
            error::result_view(r) == body_read(self@, read as nat),
    {
        if read == 0 {
            return Err(Error::new("malformed request: EOF"));
        }
        let mut request = self;
        proof {
            use_type_invariant(&request);
        }
        request.remaining = if read < request.remaining {
            request.remaining - read
        } else {
            0
        };
        Ok(request)
    }

    /// The invocation that the request is about, with an empty log that keeps records.
    pub fn into_invocation(self) -> (r: Invocation)
        requires
            self@.remaining == 0,
            self@.headers.len() == 0,
        ensures
            r.method@ == self@.method,
            r.path@ == self@.path,
            r.logger@ == (LoggerView {
                function_invocation_id: self@.function_invocation_id,
                sequence_number: 0,
                records: Some(Seq::empty()),
            }),
    {
        let logger = Logger::new(self.function_invocation_id, true);
        Invocation { method: self.method, path: self.path, logger }
    }
}

/// An invocation of a function.
#[derive(Debug)]
pub struct Invocation {
    pub method: String,
    pub path: String,
    pub logger: Logger,
}

/// The answer to a request.
#[derive(Debug)]
pub enum Response {
    /// The function has run.
    Done,
    UnknownFunction,
    MethodNotAllowed,
    /// The function has failed, with an error that is given in its `Debug` form.
    Failed(String),
}

/// The answer to a request.
pub enum ResponseView {
    Done,
    UnknownFunction,
    MethodNotAllowed,
    Failed(Seq<char>),
}

impl View for Response {
    type V = ResponseView;

    open spec fn view(&self) -> ResponseView {
        match self {
            Response::Done => ResponseView::Done,
            Response::UnknownFunction => ResponseView::UnknownFunction,
            Response::MethodNotAllowed => ResponseView::MethodNotAllowed,
            Response::Failed(err) => ResponseView::Failed(err@),
        }
    }
}

/// The status of an answer.
pub open spec fn response_status(response: ResponseView) -> u16 {
    match response {
        ResponseView::Done => 200,
        ResponseView::UnknownFunction => 404,
        ResponseView::MethodNotAllowed => 405,
        ResponseView::Failed(_) => 500,
    }
}

/// The headers of an answer.
pub open spec fn response_headers(response: ResponseView) -> Seq<char> {
    match response {
        ResponseView::Done => "content-type:application/json\r\n"@,
        ResponseView::UnknownFunction => ""@,
        ResponseView::MethodNotAllowed => "allow:POST\r\n"@,
        ResponseView::Failed(_) => "content-type:text/plain\r\n"@,
    }
}

/// The body of an answer.
pub open spec fn response_body(response: ResponseView) -> Seq<char> {
    match response {
        ResponseView::Done => "{\"Outputs\":{\"\":\"\"},\"Logs\":null,\"ReturnValue\":\"\"}"@,
        ResponseView::UnknownFunction => ""@,
        ResponseView::MethodNotAllowed => ""@,
        ResponseView::Failed(err) => err,
    }
}

/// An answer as it is sent.
pub open spec fn response_text(response: ResponseView) -> Seq<char> {
    "HTTP/1.1 "@ + text::decimal(response_status(response) as nat) + " \r\n"@ + response_headers(
        response,
    ) + "\r\n"@ + response_body(response)
}

/// What the log shows of an answer.
pub open spec fn response_shown(response: ResponseView) -> Seq<char> {
    match response {
        ResponseView::Done => "Ok"@,
        ResponseView::UnknownFunction => "UnknownFunction"@,
        ResponseView::MethodNotAllowed => "MethodNotAllowed"@,
        ResponseView::Failed(err) => "Error("@ + text::quoted(err) + ")"@,
    }
}

impl Invocation {
    /// The operation that answering the request is reported as.
    pub fn scope(&self) -> (r: Scope)
        ensures
            r@ == (ScopeView {
                object_type: "function_invocation/request"@,
                object_id: object_id::path2(self.method@, self.path@),
                operation: ScopedObjectOperation::Get,
            }),
    {
        let id = ObjectId((self.method.as_str(), self.path.as_str()));
        Scope::get("function_invocation/request", id.text())
    }

    /// The answer to the request, where no function has to run for it.
    pub fn refusal(&self) -> (r: Option<Response>)
        ensures
            r == (if self.method@ == "POST"@ {
                None::<Response>
            } else {
                Some(Response::MethodNotAllowed)
            }),
    {
        if text::str_eq(self.method.as_str(), "POST") {
            None
        } else {
            Some(Response::MethodNotAllowed)
        }
    }
}

/// The answer after the handler has had the request: it has run a function, or knows none of that
/// name, or has failed with an error that is given in its `Debug` form.
pub open spec fn answered(handled: Result<bool, Seq<char>>) -> ResponseView {
    match handled {
        Ok(true) => ResponseView::Done,
        Ok(false) => ResponseView::UnknownFunction,
        Err(err) => ResponseView::Failed(err),
    }
}

/// The view of what a handler has to say.
pub open spec fn handled_view(handled: Result<bool, String>) -> Result<bool, Seq<char>> {
    match handled {
        Ok(known) => Ok(known),
        Err(err) => Err(err@),
    }
}

impl Shown for Response {
    open spec fn shown(value: ResponseView) -> Seq<char> {
        response_shown(value)
    }

    fn show(&self) -> (r: String) {
        match self {
            Response::Done => "Ok".to_owned(),
            Response::UnknownFunction => "UnknownFunction".to_owned(),
            Response::MethodNotAllowed => "MethodNotAllowed".to_owned(),
            Response::Failed(err) => {
                let mut r = "Error(".to_owned();
                r.append(text::quote(err.as_str()).as_str());
                r.append(")");
                r
            },
        }
    }
}

impl Response {
    /// The answer after the handler has had the request.
    pub fn from_handled(handled: Result<bool, String>) -> (r: Response)
        ensures
            r@ == answered(handled_view(handled)),
    {
        match handled {
            Ok(true) => Response::Done,
            Ok(false) => Response::UnknownFunction,
            Err(err) => Response::Failed(err),
        }
    }

    /// The answer as it is sent.
    pub fn write_to(&self) -> (r: Vec<u8>)
        ensures
            r@ == utf8::encode_utf8(response_text(self@)),
    {
        let status: u64 = match self {
            Response::Done => 200,
            Response::UnknownFunction => 404,
            Response::MethodNotAllowed => 405,
            Response::Failed(_) => 500,
        };
        let mut r = "HTTP/1.1 ".to_owned();
        r.append(text::to_decimal(status).as_str());
        r.append(" \r\n");
        match self {
            Response::Done => {
                r.append("content-type:application/json\r\n");
                r.append("\r\n");
                r.append("{\"Outputs\":{\"\":\"\"},\"Logs\":null,\"ReturnValue\":\"\"}");
            },
            Response::UnknownFunction => {
                r.append("");
                r.append("\r\n");
                r.append("");
            },
            Response::MethodNotAllowed => {
                r.append("allow:POST\r\n");
                r.append("\r\n");
                r.append("");
            },
            Response::Failed(err) => {
                r.append("content-type:text/plain\r\n");
                r.append("\r\n");
                r.append(err.as_str());
            },
        }
        text::bytes_of(r.as_str())
    }
}

/// Whether an answer of `to_write` bytes has been sent, where `written` bytes of it have been.
pub open spec fn sent(written: nat, to_write: nat) -> Result<(), Seq<Seq<char>>> {
    if written == to_write {
        Ok(())
    } else {
        Err(
            error::message(
                "could not write response: short write from writev ("@ + text::decimal(written)
                    + "/"@ + text::decimal(to_write) + ")"@,
            ),
        )
    }
}

/// Takes how much of an answer has been written. It is written in one go, or not at all.
pub fn response_written(written: usize, to_write: usize) -> (r: Result<(), Error>)
    ensures
        http_common::plain_view(r) == sent(written as nat, to_write as nat),
{
    if written == to_write {
        Ok(())
    } else {
        let mut err = "could not write response: short write from writev (".to_owned();
        err.append(text::to_decimal(written as u64).as_str());
        err.append("/");
        err.append(text::to_decimal(to_write as u64).as_str());
        err.append(")");
        Err(Error::new(err.as_str()))
    }
}

/// Takes the records out of the log of an invocation, and sends them if there are any.
pub fn push_logs(logger: &mut Logger, log_sender: &LogSender) -> (r: Option<
    (Scope, Result<Request, Error>),
>)
    requires
        utf8::encode_utf8(log2::untaken(old(logger)@)).len() <= usize::MAX - 2,
    ensures
        final(logger)@ == log2::without_records(old(logger)@),
        ({
            let records = utf8::encode_utf8(log2::untaken(old(logger)@));
            match r {
                None => records.len() == 0,
                Some((scope, request)) => {
                    &&& records.len() > 0
                    &&& scope@ == log_analytics::logs_scope(log_sender@, records)
                    &&& request is Ok <==> http_common::header_value(
                        log_sender@.customer_id,
                    ) is Ok
                    &&& exists|now: i128|
                        time2::is_held(now as int) && #[trigger] log_analytics::logs_sent_at(
                            log_sender@,
                            utf8::encode_utf8(LOG_TYPE@),
                            records,
                            now,
                        ) == error::result_view(request)
                },
            }
        }),
{
    let records = logger.take_records();
    if records.len() == 0 {
        None
    } else {
        proof {
            reveal_strlit("FunctionAppLogs");
        }
        Some(log_sender.send_logs(HeaderValue::from_static(LOG_TYPE), records))
    }
}

/// A request that the handler has had is answered with success if and only if a function has run for
/// it without an error.
pub proof fn success_means_done(handled: Result<bool, Seq<char>>)
    ensures
        response_status(answered(handled)) == 200 <==> handled == Ok::<bool, Seq<char>>(true),
        response_status(answered(handled)) != 405,
        200 <= response_status(answered(handled)) < 600,
{
}

/// A request whose headers give no length needs no more reading.
pub proof fn a_request_without_a_body_is_complete(request: IncomingView)
    requires
        request.remaining == 0,
        forall|i: int|
            0 <= i < request.headers.len() ==> !text::same_but_for_case(
                (#[trigger] request.headers[i]).0,
                "content-length"@,
            ),
    ensures
        is_consistent(request),
        headers_heeded(request) matches Ok(r) && r.remaining == 0 && r.headers.len() == 0
            && r.method == request.method && r.path == request.path,
    decreases request.headers.len(),
{
    if request.headers.len() > 0 {
        let rest = IncomingView { headers: request.headers.skip(1), ..request };
        assert forall|i: int| 0 <= i < rest.headers.len() implies !text::same_but_for_case(
            (#[trigger] rest.headers[i]).0,
            "content-length"@,
        ) by {
            assert(rest.headers[i] == request.headers[i + 1]);
        }
        a_request_without_a_body_is_complete(rest);
        match heeded(request.headers[0]) {
            Ok(Heeded::InvocationId(id)) => {
                a_request_without_a_body_is_complete(
                    IncomingView { function_invocation_id: id, ..rest },
                );
            },
            _ => {},
        }
    }
}

/// The whole body of a request is read past before the request is answered: what was read together
/// with the head, and what remains, are as long as the one header that tells the length says.
pub proof fn the_body_is_read_past(request: IncomingView, length: nat)
    requires
        request.remaining == 0,
        request.headers.len() > 0,
        text::same_but_for_case(request.headers[0].0, "content-length"@),
        content_length(request.headers[0].1) == Ok::<nat, Seq<Seq<char>>>(length),
        length > request.buffered,
    ensures
        headers_heeded(request) == Ok::<IncomingView, Seq<Seq<char>>>(
            IncomingView {
                headers: request.headers.skip(1),
                remaining: (length - request.buffered) as nat,
                ..request
            },
        ),
{
    reveal_with_fuel(headers_heeded, 2);
}

/// The server listens on the port that the environment names in decimal, or on port 8080 where it names
/// none. A port that is no number, or too large a one, is an error.
pub proof fn the_named_port_is_used(port: nat, value: Seq<char>)
    ensures
        port_named(None) == Ok::<u16, Seq<Seq<char>>>(8080),
        port <= 65535 ==> port_named(Some(text::decimal(port))) == Ok::<u16, Seq<Seq<char>>>(port as u16),
        match text::parsed_unsigned(value, 65535) {
            Ok(port) => port_named(Some(value)) == Ok::<u16, Seq<Seq<char>>>(port as u16),
            Err(err) => port_named(Some(value)) == Err::<u16, Seq<Seq<char>>>(
                seq![
                    "could not parse FUNCTIONS_CUSTOMHANDLER_PORT value "@ + text::quoted(value),
                    err,
                ],
            ),
        },
{
    if port <= 65535 {
        text::decimal_reads_back(port, 65535);
    }
}

/// A message becomes a line with its time, its level and its text, and the texts of all lines start at the
/// same column.
pub proof fn messages_are_aligned(now: i128, level: MessageLevel, message: Seq<char>)
    ensures
        padded_level(level).len() == 5,
        text::has_prefix(
            padded_level(level),
            match level {
                MessageLevel::Error => "ERROR"@,
                MessageLevel::Warn => "WARN"@,
                MessageLevel::Info => "INFO"@,
                MessageLevel::Debug => "DEBUG"@,
                MessageLevel::Trace => "TRACE"@,
            },
        ),
        match time2::time_text(now, time2::RFC3339_MILLISECONDS@) {
            Ok(timestamp) => message_line(now, level, message) == Ok::<Seq<char>, Seq<Seq<char>>>(
                seq!['['] + timestamp + seq![']', ' '] + padded_level(level) + seq![' '] + message,
            ),
            Err(err) => message_line(now, level, message) == Err::<Seq<char>, Seq<Seq<char>>>(
                seq!["could not format time"@, err],
            ),
        },
{
    reveal_strlit("ERROR");
    reveal_strlit("WARN ");
    reveal_strlit("INFO ");
    reveal_strlit("DEBUG");
    reveal_strlit("TRACE");
    reveal_strlit("WARN");
    reveal_strlit("INFO");
    reveal_strlit("[");
    reveal_strlit("] ");
    reveal_strlit(" ");
    assert("["@ =~= seq!['[']);
    assert("] "@ =~= seq![']', ' ']);
    assert(" "@ =~= seq![' ']);
    assert("WARN "@.take(4) =~= "WARN"@);
    assert("INFO "@.take(4) =~= "INFO"@);
    assert(padded_level(level).take(5) =~= padded_level(level));
}

/// A request has a method, a path that starts with a slash, which is left out, and the version 1.1 of HTTP.
/// What has been read behind its head belongs to its body. Its headers have all to be looked at yet.
pub proof fn a_request_is_what_its_head_says(
    head: HeadView,
    rest: Seq<char>,
    other: char,
    body: nat,
)
    requires
        other != '/',
    ensures
        ({
            let read = (head.body_start + body) as nat;
            let plain = HeadView { path: Some(seq!['/'] + rest), ..head };
            let strange = HeadView { path: Some(seq![other] + rest), ..head };
            let none = HeadView { path: None, ..head };
            match head.method {
                None => request_headed(head, read) == Err::<IncomingView, Seq<Seq<char>>>(
                    seq!["malformed request: no method"@],
                ),
                Some(method) => {
                    &&& request_headed(strange, read) == Err::<IncomingView, Seq<Seq<char>>>(
                        seq!["malformed request: no path"@],
                    )
                    &&& request_headed(none, read) == Err::<IncomingView, Seq<Seq<char>>>(
                        seq!["malformed request: no path"@],
                    )
                    &&& head.version != Some(1u8) ==> request_headed(plain, read) == Err::<
                        IncomingView,
                        Seq<Seq<char>>,
                    >(seq!["malformed request: not HTTP/1.1"@])
                    &&& head.version == Some(1u8) ==> request_headed(plain, read) == Ok::<
                        IncomingView,
                        Seq<Seq<char>>,
                    >(
                        IncomingView {
                            method,
                            path: rest,
                            headers: head.headers,
                            buffered: body,
                            remaining: 0,
                            function_invocation_id: None,
                        },
                    )
                },
            }
        }),
{
    text::a_leading_character_comes_off(rest, '/', other);
}

/// A request starts with what its head, of at most 16 headers, says, once the whole head has been read.
pub proof fn a_request_starts_with_its_head(buffer: Seq<u8>)
    ensures
        match head_parsed(buffer, 16) {
            Ok(Some(head)) => match request_headed(head, buffer.len()) {
                Ok(request) => request_started(buffer) == Ok::<Option<IncomingView>, Seq<Seq<char>>>(
                    Some(request),
                ),
                Err(err) => request_started(buffer) == Err::<Option<IncomingView>, Seq<Seq<char>>>(err),
            },
            Ok(None) => request_started(buffer) == Ok::<Option<IncomingView>, Seq<Seq<char>>>(None),
            Err(err) => request_started(buffer) == Err::<Option<IncomingView>, Seq<Seq<char>>>(
                seq!["malformed request"@, err],
            ),
        },
        BUFFER_SIZE == 8192,
        LOG_TYPE@ == "FunctionAppLogs"@,
{
    if let Err(err) = head_parsed(buffer, 16) {
        assert(request_started(buffer)->Err_0 =~= seq!["malformed request"@, err]);
    }
}

/// The length of a body is the number that its header gives in decimal, and the invocation is the text that
/// its header gives. The case of the names does not matter, and no other header has anything to say.
pub proof fn two_headers_are_heeded(
    name: Seq<char>,
    value: Seq<u8>,
    length: nat,
    id: Seq<char>,
)
    requires
        length <= usize::MAX,
    ensures
        content_length(utf8::encode_utf8(text::decimal(length))) == Ok::<nat, Seq<Seq<char>>>(length),
        text::same_but_for_case(name, "content-length"@) ==> heeded(
            (name, utf8::encode_utf8(text::decimal(length))),
        ) == Ok::<Heeded, Seq<Seq<char>>>(Heeded::BodyLength(length)),
        text::same_but_for_case(name, "x-azure-functions-invocationid"@) ==> heeded(
            (name, utf8::encode_utf8(id)),
        ) == Ok::<Heeded, Seq<Seq<char>>>(Heeded::InvocationId(Some(id))),
        text::same_but_for_case(name, "x-azure-functions-invocationid"@) && !utf8::valid_utf8(value)
            ==> heeded((name, value)) == Ok::<Heeded, Seq<Seq<char>>>(Heeded::InvocationId(None)),
        !text::same_but_for_case(name, "content-length"@) && !text::same_but_for_case(
            name,
            "x-azure-functions-invocationid"@,
        ) ==> heeded((name, value)) == Ok::<Heeded, Seq<Seq<char>>>(Heeded::Nothing),
        text::utf8_text(value) matches Some(s) ==> text::parsed_unsigned(s, usize::MAX as nat) matches Err(
            err,
        ) ==> content_length(value) == Err::<nat, Seq<Seq<char>>>(
            seq!["malformed request: malformed content-length header"@, err],
        ),
{
    text::decimal_reads_back(length, usize::MAX as nat);
    text::bytes_are_the_text_that_they_encode(text::decimal(length), value);
    text::bytes_are_the_text_that_they_encode(id, value);
    reveal_strlit("content-length");
    reveal_strlit("x-azure-functions-invocationid");
    text::only_the_case_of_letters_is_passed_over(name, "content-length"@);
    text::only_the_case_of_letters_is_passed_over(name, "x-azure-functions-invocationid"@);
    if let Some(s) = text::utf8_text(value) {
        if let Err(err) = text::parsed_unsigned(s, usize::MAX as nat) {
            assert(content_length(value)->Err_0 =~= seq![
                "malformed request: malformed content-length header"@,
                err,
            ]);
        }
    }
}

/// Whether a header gives the length of the body.
pub open spec fn gives_length(header: (Seq<char>, Seq<u8>)) -> bool {
    text::same_but_for_case(header.0, "content-length"@)
}

/// Whether a header gives the invocation.
pub open spec fn gives_invocation(header: (Seq<char>, Seq<u8>)) -> bool {
    text::same_but_for_case(header.0, "x-azure-functions-invocationid"@)
}

/// The invocation that a request is about is the one that the last header of that name gives, and the one
/// that the request had before if there is no such header.
pub proof fn the_last_invocation_counts(
    request: IncomingView,
    before: Seq<(Seq<char>, Seq<u8>)>,
    given: Option<(Seq<char>, Seq<u8>)>,
    behind: Seq<(Seq<char>, Seq<u8>)>,
)
    requires
        request.remaining == 0,
        request.headers == before + match given {
            Some(header) => seq![header],
            None => seq![],
        } + behind,
        given is None ==> before.len() == 0,
        forall|i: int| 0 <= i < request.headers.len() ==> !gives_length(#[trigger] request.headers[i]),
        forall|i: int| 0 <= i < behind.len() ==> !gives_invocation(#[trigger] behind[i]),
        given matches Some(header) ==> gives_invocation(header),
    ensures
        headers_heeded(request) matches Ok(r) && r.function_invocation_id == match given {
            Some(header) => text::utf8_text(header.1),
            None => request.function_invocation_id,
        } && r.method == request.method && r.path == request.path && r.headers.len() == 0 && r.remaining
            == 0,
    decreases request.headers.len(),
{
    if request.headers.len() > 0 {
        let first = request.headers[0];
        let rest = IncomingView { headers: request.headers.skip(1), ..request };
        let next = if gives_invocation(first) {
            IncomingView { function_invocation_id: text::utf8_text(first.1), ..rest }
        } else {
            rest
        };
        assert(!gives_length(first));
        assert forall|i: int| 0 <= i < next.headers.len() implies !gives_length(
            #[trigger] next.headers[i],
        ) by {
            assert(next.headers[i] == request.headers[i + 1]);
        }
        assert(headers_heeded(request) == headers_heeded(next));
        if before.len() > 0 {
            assert(next.headers =~= before.skip(1) + match given {
                Some(header) => seq![header],
                None => seq![],
            } + behind);
            the_last_invocation_counts(next, before.skip(1), given, behind);
        } else if let Some(header) = given {
            assert(first == header);
            assert(next.headers =~= behind);
            assert(next.headers =~= Seq::<(Seq<char>, Seq<u8>)>::empty() + seq![] + behind);
            the_last_invocation_counts(next, seq![], None, behind);
        } else {
            assert(first == behind[0]);
            assert forall|i: int| 0 <= i < behind.skip(1).len() implies !gives_invocation(
                #[trigger] behind.skip(1)[i],
            ) by {
                assert(behind.skip(1)[i] == behind[i + 1]);
            }
            assert(next.headers =~= Seq::<(Seq<char>, Seq<u8>)>::empty() + seq![] + behind.skip(1));
            the_last_invocation_counts(next, seq![], None, behind.skip(1));
        }
    }
}

/// A body may not be shorter than what has been read of it: where the first header that tells the length
/// tells a smaller one, the request makes no sense, and where it tells a greater one, the rest is read.
pub proof fn the_first_length_counts(
    headers: Seq<(Seq<char>, Seq<u8>)>,
    i: int,
    length: nat,
    buffered: nat,
)
    requires
        0 <= i < headers.len(),
        forall|j: int| 0 <= j < i ==> !gives_length(#[trigger] headers[j]),
        gives_length(headers[i]),
        content_length(headers[i].1) == Ok::<nat, Seq<Seq<char>>>(length),
    ensures
        length < buffered ==> !are_consistent(headers, buffered),
        length > buffered ==> are_consistent(headers, buffered),
        length == buffered ==> are_consistent(headers, buffered) == are_consistent(
            headers.skip(i + 1),
            buffered,
        ),
    decreases i,
{
    if i > 0 {
        let rest = headers.skip(1);
        assert(!gives_length(headers[0]));
        assert forall|j: int| 0 <= j < i - 1 implies !gives_length(#[trigger] rest[j]) by {
            assert(rest[j] == headers[j + 1]);
        }
        the_first_length_counts(rest, i - 1, length, buffered);
        assert(rest.skip(i) =~= headers.skip(i + 1));
    }
}

/// A header that should give the length of the body but does not ends the looking at headers, with the error
/// that tells what is wrong with it.
pub proof fn a_wrong_header_is_an_error(request: IncomingView, err: Seq<Seq<char>>)
    requires
        request.remaining == 0,
        request.headers.len() > 0,
        gives_length(request.headers[0]),
        content_length(request.headers[0].1) == Err::<nat, Seq<Seq<char>>>(err),
    ensures
        headers_heeded(request) == Err::<IncomingView, Seq<Seq<char>>>(err),
        is_consistent(request),
{
}

/// As long as more of the body has to be read, no header is looked at, and nothing makes the request
/// inconsistent.
pub proof fn the_body_is_read_first(request: IncomingView)
    requires
        request.remaining > 0,
    ensures
        headers_heeded(request) == Ok::<IncomingView, Seq<Seq<char>>>(request),
        is_consistent(request),
{
}

/// An answer is sent with its status, its headers and its body. A function that has run is answered with an
/// empty result, one that has failed with its error, and a method that is not allowed with the one that is.
pub proof fn answers_are_sent_as_they_are(err: Seq<char>)
    ensures
        response_text(ResponseView::Done) == "HTTP/1.1 "@ + seq!['2', '0', '0'] + " \r\n"@
            + "content-type:application/json\r\n"@ + "\r\n"@
            + "{\"Outputs\":{\"\":\"\"},\"Logs\":null,\"ReturnValue\":\"\"}"@,
        response_text(ResponseView::UnknownFunction) == "HTTP/1.1 "@ + seq!['4', '0', '4'] + " \r\n"@
            + "\r\n"@,
        response_text(ResponseView::MethodNotAllowed) == "HTTP/1.1 "@ + seq!['4', '0', '5'] + " \r\n"@
            + "allow:POST\r\n"@ + "\r\n"@,
        response_text(ResponseView::Failed(err)) == "HTTP/1.1 "@ + seq!['5', '0', '0'] + " \r\n"@
            + "content-type:text/plain\r\n"@ + "\r\n"@ + err,
        answered(Ok(true)) == ResponseView::Done,
        answered(Ok(false)) == ResponseView::UnknownFunction,
        answered(Err(err)) == ResponseView::Failed(err),
        response_shown(ResponseView::Done) == "Ok"@,
        response_shown(ResponseView::UnknownFunction) == "UnknownFunction"@,
        response_shown(ResponseView::MethodNotAllowed) == "MethodNotAllowed"@,
        response_shown(ResponseView::Failed(err)) == "Error("@ + text::quoted(err) + ")"@,
{
    reveal_strlit("");
    assert(""@ =~= seq![]);
    text::a_number_is_its_digits(0, 2);
    text::a_number_is_its_digits(0, 4);
    text::a_number_is_its_digits(0, 5);
    text::a_number_is_its_digits(2, 0);
    text::a_number_is_its_digits(4, 0);
    text::a_number_is_its_digits(5, 0);
    text::a_number_is_its_digits(20, 0);
    text::a_number_is_its_digits(40, 4);
    text::a_number_is_its_digits(40, 5);
    text::a_number_is_its_digits(50, 0);
    assert(text::decimal(200) =~= seq!['2', '0', '0']);
    assert(text::decimal(404) =~= seq!['4', '0', '4']);
    assert(text::decimal(405) =~= seq!['4', '0', '5']);
    assert(text::decimal(500) =~= seq!['5', '0', '0']);
    assert(response_text(ResponseView::UnknownFunction) =~= "HTTP/1.1 "@ + seq!['4', '0', '4']
        + " \r\n"@ + "\r\n"@);
    assert(response_text(ResponseView::MethodNotAllowed) =~= "HTTP/1.1 "@ + seq!['4', '0', '5']
        + " \r\n"@ + "allow:POST\r\n"@ + "\r\n"@);
}

/// An answer has been sent if and only if all of it has been written, and the error tells how much was.
pub proof fn an_answer_is_sent_whole(written: nat, to_write: nat)
    ensures
        sent(written, to_write) is Ok <==> written == to_write,
        sent(written, to_write) matches Err(err) ==> err == seq![
            "could not write response: short write from writev ("@ + text::decimal(written) + "/"@
                + text::decimal(to_write) + ")"@,
        ],
{
}

/// The head of a request is viewed with all of its headers, in their order, and what a handler has to say is
/// viewed as it is.
pub proof fn a_head_is_viewed_whole(head: Head, known: bool, err: String)
    ensures
        head@.headers.len() == head.headers@.len(),
        forall|i: int|
            0 <= i < head.headers@.len() ==> #[trigger] head@.headers[i] == (
                head.headers@[i].0@,
                head.headers@[i].1@,
            ),
        head@.method == text::optional(head.method),
        head@.path == text::optional(head.path),
        head@.version == head.version,
        head@.body_start == head.body_start,
        handled_view(Ok(known)) == Ok::<bool, Seq<char>>(known),
        handled_view(Err(err)) == Err::<bool, Seq<char>>(err@),
{
}

/// How a body is split does not matter: reading it in two pieces comes to the same as reading it at once, and
/// nothing of it remains if and only if as much has been read as remained. The end of the stream is an error,
/// and nothing else of the request changes.
pub proof fn the_body_is_read_piece_by_piece(request: IncomingView, one: nat, other: nat)
    requires
        one > 0,
        other > 0,
    ensures
        body_read(request, one) matches Ok(first) && body_read(first, other) == body_read(
            request,
            one + other,
        ) && (first.remaining == 0 <==> one >= request.remaining) && (one <= request.remaining
            ==> first.remaining + one == request.remaining) && first.method == request.method && first.path
            == request.path && first.headers == request.headers && first.buffered == request.buffered
            && first.function_invocation_id == request.function_invocation_id,
        body_read(request, 0) == Err::<IncomingView, Seq<Seq<char>>>(seq!["malformed request: EOF"@]),
{
}

} // verus!
