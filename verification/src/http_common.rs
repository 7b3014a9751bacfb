//! HTTP requests and responses, as far as the clients of the services look at them.

use vstd::prelude::*;
use vstd::utf8;

use crate::error;
use crate::error::Error;
use crate::text;
use crate::time2;
use crate::time2::Duration;

verus! {

/// The method of a request.
#[derive(Clone, Copy, Debug, PartialEq, Eq, Structural)]
pub enum Method {
    Delete,
    Get,
    Head,
    Post,
    Put,
}

/// The status code of a response, from 100 to 999.
#[derive(Clone, Copy, Debug, PartialEq, Eq, Structural)]
pub struct StatusCode {
    code: u16,
}

impl View for StatusCode {
    type V = u16;

    closed spec fn view(&self) -> u16 {
        self.code
    }
}

impl StatusCode {
    #[verifier::type_invariant]
    spec fn in_range(self) -> bool {
        100 <= self.code <= 999
    }

    /// The status with this code, if there is one.
    pub fn from_u16(code: u16) -> (r: Option<StatusCode>)
        ensures
            r is Some <==> 100 <= code <= 999,
            r matches Some(status) ==> status@ == code,
    {
        if 100 <= code && code <= 999 {
            Some(StatusCode { code })
        } else {
            None
        }
    }

    /// The code.
    pub fn as_u16(self) -> (r: u16)
        ensures
            r == self@,
            100 <= r <= 999,
    {
        proof {
            use_type_invariant(&self);
        }
        self.code
    }
}

/// Whether a header value may hold `b`: no control character but the tab.
pub open spec fn is_header_byte(b: u8) -> bool {
    (b >= 32 && b != 127) || b == 9
}

/// Whether `b` stands for a character of its own in a header value: printable ASCII, or a tab.
pub open spec fn is_visible(b: u8) -> bool {
    32 <= b < 127 || b == 9
}

/// Whether all of `bytes` can stand in a header value.
pub open spec fn are_header_bytes(bytes: Seq<u8>) -> bool {
    forall|i: int| 0 <= i < bytes.len() ==> is_header_byte(#[trigger] bytes[i])
}

/// Whether a header value reads as a text.
pub open spec fn are_visible(bytes: Seq<u8>) -> bool {
    forall|i: int| 0 <= i < bytes.len() ==> is_visible(#[trigger] bytes[i])
}

/// The characters that ASCII bytes stand for.
pub open spec fn ascii_text(bytes: Seq<u8>) -> Seq<char> {
    bytes.map_values(|b: u8| b as char)
}

/// The value of a header.
#[derive(Debug)]
pub struct HeaderValue {
    bytes: Vec<u8>,
}

impl View for HeaderValue {
    type V = Seq<u8>;

    closed spec fn view(&self) -> Seq<u8> {
        self.bytes@
    }
}

/// What the text of a header value is.
pub open spec fn header_text(bytes: Seq<u8>) -> Result<Seq<char>, Seq<Seq<char>>> {
    if are_visible(bytes) {
        Ok(ascii_text(bytes))
    } else {
        Err(error::message("failed to convert header to a str"@))
    }
}

/// The header value that a text is.
pub open spec fn header_value(s: Seq<char>) -> Result<Seq<u8>, Seq<Seq<char>>> {
    if are_header_bytes(utf8::encode_utf8(s)) {
        Ok(utf8::encode_utf8(s))
    } else {
        Err(error::message("failed to parse header value"@))
    }
}

/// A header value may be made of two texts if and only if it may be made of each of them.
pub proof fn lemma_header_concat(a: Seq<char>, b: Seq<char>)
    ensures
        header_value(a + b) is Ok <==> header_value(a) is Ok && header_value(b) is Ok,
{
    text::lemma_encode_concat(a, b);
    let (x, y) = (utf8::encode_utf8(a), utf8::encode_utf8(b));
    if are_header_bytes(x + y) {
        assert forall|i: int| 0 <= i < x.len() implies is_header_byte(#[trigger] x[i]) by {
            assert((x + y)[i] == x[i]);
        }
        assert forall|i: int| 0 <= i < y.len() implies is_header_byte(#[trigger] y[i]) by {
            assert((x + y)[x.len() + i] == y[i]);
        }
    }
}

impl HeaderValue {
    #[verifier::type_invariant]
    spec fn valid(self) -> bool {
        are_header_bytes(self.bytes@)
    }

    /// The header value with these bytes, if they can stand in one.
    pub fn from_bytes(bytes: &[u8]) -> (r: Option<HeaderValue>)
        ensures
            r is Some <==> are_header_bytes(bytes@),
            r matches Some(value) ==> value@ == bytes@,
    {
        for i in 0..bytes.len()
            invariant
                forall|j: int| 0 <= j < i ==> is_header_byte(#[trigger] bytes@[j]),
        {
            let b: u8 = bytes[i];
            if !((b >= 32 && b != 127) || b == 9) {
                assert(!is_header_byte(bytes@[i as int]));
                return None;
            }
        }
        Some(HeaderValue { bytes: vstd::slice::slice_to_vec(bytes) })
    }

    /// The header value that a text is.
    pub fn from_text(s: &str) -> (r: Result<HeaderValue, Error>)
        ensures
            error::result_view(r) == header_value(s@),
    {
        match HeaderValue::from_bytes(s.as_bytes()) {
            Some(value) => Ok(value),
            None => Err(Error::new("failed to parse header value")),
        }
    }

    /// The header value that is `n` in decimal digits.
    pub fn from_number(n: u64) -> (r: HeaderValue)
        ensures
            r@ == utf8::encode_utf8(text::decimal(n as nat)),
            are_visible(r@),
            ascii_text(r@) == text::decimal(n as nat),
    {
        let s = text::to_decimal(n);
        proof {
            lemma_decimal_visible(n as nat);
            lemma_visible_ascii(s@);
        }
        HeaderValue { bytes: text::bytes_of(s.as_str()) }
    }

    /// The header value that a printable text is.
    pub fn from_static(s: &str) -> (r: HeaderValue)
        requires
            is_printable(s@),
        ensures
            r@ == utf8::encode_utf8(s@),
            are_visible(r@),
            ascii_text(r@) == s@,
    {
        proof {
            lemma_visible_ascii(s@);
        }
        HeaderValue { bytes: text::bytes_of(s) }
    }

    /// The bytes of the header value.
    pub fn as_bytes(&self) -> (r: &[u8])
        ensures
            r@ == self@,
            are_header_bytes(r@),
    {
        proof {
            use_type_invariant(self);
        }
        self.bytes.as_slice()
    }

    /// The text of the header value.
    pub fn to_str(&self) -> (r: Result<String, Error>)
        ensures
            error::result_view(r) == header_text(self@),
    {
        let mut s = String::new();
        for i in 0..self.bytes.len()
            invariant
                self.bytes@ == self@,
                forall|j: int| 0 <= j < i ==> is_visible(#[trigger] self@[j]),
                s@ == ascii_text(self@.take(i as int)),
        {
            let b: u8 = self.bytes[i];
            if !((32 <= b && b < 127) || b == 9) {
                assert(!is_visible(self@[i as int]));
                return Err(Error::new("failed to convert header to a str"));
            }
            s.push(b as char);
            assert(s@ =~= ascii_text(self@.take(i + 1)));
        }
        assert(self@.take(self@.len() as int) =~= self@);
        Ok(s)
    }
}

impl Clone for HeaderValue {
    fn clone(&self) -> (r: HeaderValue)
        ensures
            r@ == self@,
    {
        proof {
            use_type_invariant(self);
        }
        HeaderValue { bytes: vstd::slice::slice_to_vec(self.bytes.as_slice()) }
    }
}

/// Whether a text is made of printable ASCII characters.
pub open spec fn is_printable(s: Seq<char>) -> bool {
    forall|i: int| 0 <= i < s.len() ==> ' ' <= #[trigger] s[i] <= '~'
}

/// A text of printable ASCII characters is its own header value.
pub proof fn lemma_visible_ascii(s: Seq<char>)
    requires
        is_printable(s),
    ensures
        are_visible(utf8::encode_utf8(s)),
        are_header_bytes(utf8::encode_utf8(s)),
        ascii_text(utf8::encode_utf8(s)) == s,
{
    assert(utf8::is_ascii_chars(s));
    utf8::is_ascii_chars_encode_utf8(s);
    let bytes = utf8::encode_utf8(s);
    assert forall|i: int| 0 <= i < bytes.len() implies is_visible(#[trigger] bytes[i]) by {
        assert(' ' <= s[i] <= '~');
    }
    assert forall|i: int| 0 <= i < bytes.len() implies is_header_byte(#[trigger] bytes[i]) by {
        assert(is_visible(bytes[i]));
    }
    assert(ascii_text(bytes) =~= s);
}

/// Decimal digits are printable.
proof fn lemma_decimal_visible(n: nat)
    ensures
        is_printable(text::decimal(n)),
    decreases n,
{
    if n >= 10 {
        lemma_decimal_visible(n / 10);
    }
    assert forall|i: int| 0 <= i < text::decimal(n).len() implies ' ' <= #[trigger] text::decimal(
        n,
    )[i] <= '~' by {
        if n >= 10 && i < text::decimal(n / 10).len() {
            assert(text::decimal(n)[i] == text::decimal(n / 10)[i]);
        }
    }
}

/// What parsing a URI gives: the URI as it is written out again, or what is wrong with it.
pub uninterp spec fn uri_text(bytes: Seq<u8>) -> Result<Seq<char>, Seq<char>>;

/// `http::Uri::try_from`, on bytes, with the URI in its `Display` form and the error as a text.
#[verifier::external_body]
fn parse_uri(bytes: &[u8]) -> (r: Result<String, String>)
    ensures
        match r {
            Ok(s) => uri_text(bytes@) == Ok::<Seq<char>, Seq<char>>(s@),
            Err(err) => uri_text(bytes@) == Err::<Seq<char>, Seq<char>>(err@),
        },
{
    match http::Uri::try_from(bytes) {
        Ok(uri) => Ok(uri.to_string()),
        Err(err) => Err(err.to_string()),
    }
}

/// What parsing the authority of a URI gives: the authority, or what is wrong with it.
pub uninterp spec fn authority_text(s: Seq<char>) -> Result<Seq<char>, Seq<char>>;

/// `http::uri::Authority::try_from`, on a text, with the error as a text. A valid authority is kept
/// as it is.
#[verifier::external_body]
pub(crate) fn parse_authority(s: &str) -> (r: Result<String, String>)
    ensures
        match r {
            Ok(authority) => authority@ == s@ && authority_text(s@) == Ok::<Seq<char>, Seq<char>>(
                authority@,
            ),
            Err(err) => authority_text(s@) == Err::<Seq<char>, Seq<char>>(err@),
        },
{
    match http::uri::Authority::try_from(s) {
        Ok(authority) => Ok(authority.as_str().to_owned()),
        Err(err) => Err(err.to_string()),
    }
}

/// What putting a URI together gives: the URI as it is written out, or what is wrong with its parts.
pub uninterp spec fn built_uri_text(
    scheme: Seq<char>,
    authority: Seq<char>,
    path_and_query: Seq<char>,
) -> Result<Seq<char>, Seq<char>>;

/// `http::Uri::from_parts`, on a scheme, an authority, and a path with a query, which are parsed first, with
/// the URI in its `Display` form and the errors as texts. The URI starts with the scheme and the authority,
/// as they are; how the path and the query are normalised is left to `http`.
#[verifier::external_body]
fn build_uri(scheme: &str, authority: &str, path_and_query: &str) -> (r: Result<String, String>)
    ensures
        match r {
            Ok(s) => built_uri_text(scheme@, authority@, path_and_query@) == Ok::<
                Seq<char>,
                Seq<char>,
            >(s@) && text::has_prefix(s@, scheme@ + "://"@ + authority@),
            Err(err) => built_uri_text(scheme@, authority@, path_and_query@) == Err::<
                Seq<char>,
                Seq<char>,
            >(err@),
        },
{
    let scheme = http::uri::Scheme::try_from(scheme).map_err(|err| err.to_string())?;
    let authority = http::uri::Authority::try_from(authority).map_err(|err| err.to_string())?;
    let path_and_query = http::uri::PathAndQuery::try_from(path_and_query);
    let mut parts = http::uri::Parts::default();
    parts.scheme = Some(scheme);
    parts.authority = Some(authority);
    parts.path_and_query = Some(path_and_query.map_err(|err| err.to_string())?);
    http::Uri::from_parts(parts).map(|uri| uri.to_string()).map_err(|err| err.to_string())
}

/// What putting an `https` URI together gives.
pub open spec fn https_uri_text(authority: Seq<char>, path_and_query: Seq<char>) -> Result<
    Seq<char>,
    Seq<char>,
> {
    built_uri_text("https"@, authority, path_and_query)
}

/// A URI.
#[derive(Debug)]
pub struct Uri {
    text: String,
}

impl View for Uri {
    type V = Seq<char>;

    closed spec fn view(&self) -> Seq<char> {
        self.text@
    }
}

/// A result of an outside call whose error is a text.
pub open spec fn outside<T>(r: Result<T, Seq<char>>) -> Result<T, Seq<Seq<char>>> {
    match r {
        Ok(value) => Ok(value),
        Err(err) => Err(error::message(err)),
    }
}

impl Uri {
    /// Parses a URI.
    pub fn from_bytes(bytes: &[u8]) -> (r: Result<Uri, Error>)
        ensures
            error::result_view(r) == outside(uri_text(bytes@)),
    {
        match parse_uri(bytes) {
            Ok(text) => Ok(Uri { text }),
            Err(err) => Err(Error::new(err.as_str())),
        }
    }

    /// Parses a URI.
    pub fn from_text(s: &str) -> (r: Result<Uri, Error>)
        ensures
            error::result_view(r) == outside(uri_text(utf8::encode_utf8(s@))),
    {
        Uri::from_bytes(s.as_bytes())
    }

    /// Puts a URI together from its authority, and its path with a query. Its scheme is `https`.
    pub fn https(authority: &str, path_and_query: &str) -> (r: Result<Uri, Error>)
        ensures
            error::result_view(r) == outside(https_uri_text(authority@, path_and_query@)),
            r matches Ok(uri) ==> text::has_prefix(uri@, "https://"@ + authority@),
    {
        proof {
            reveal_strlit("https");
            reveal_strlit("://");
            reveal_strlit("https://");
            assert("https"@ + "://"@ =~= "https://"@);
        }
        match build_uri("https", authority, path_and_query) {
            Ok(text) => Ok(Uri { text }),
            Err(err) => Err(Error::new(err.as_str())),
        }
    }

    /// The URI as it is written out.
    pub fn as_str(&self) -> (r: &str)
        ensures
            r@ == self@,
    {
        self.text.as_str()
    }
}

impl Clone for Uri {
    fn clone(&self) -> (r: Uri)
        ensures
            r == *self,
            r@ == self@,
    {
        Uri { text: self.text.clone() }
    }
}

/// A URI that stands in a JSON object as a string.
#[derive(Debug)]
pub struct DeserializableUri(pub Uri);

impl View for DeserializableUri {
    type V = Seq<char>;

    open spec fn view(&self) -> Seq<char> {
        self.0@
    }
}

impl DeserializableUri {
    /// Reads the URI out of the string.
    pub fn deserialize(s: &str) -> (r: Result<DeserializableUri, Error>)
        ensures
            error::result_view(r) == outside(uri_text(utf8::encode_utf8(s@))),
    {
        match Uri::from_text(s) {
            Ok(uri) => Ok(DeserializableUri(uri)),
            Err(err) => Err(err),
        }
    }
}

/// The views of some URIs.
pub open spec fn uri_texts(uris: Seq<Uri>) -> Seq<Seq<char>> {
    uris.map_values(|uri: Uri| uri@)
}

/// What a request sends after its headers.
#[derive(Debug)]
pub enum RequestBody {
    /// The whole body, whose length is known.
    Single(Vec<u8>),
    /// The parts of the body, one after the other.
    Stream(Vec<Vec<u8>>),
}

/// Some parts, one after the other.
pub open spec fn concatenated(parts: Seq<Vec<u8>>) -> Seq<u8>
    decreases parts.len(),
{
    if parts.len() == 0 {
        Seq::empty()
    } else {
        concatenated(parts.drop_last()) + parts.last()@
    }
}

impl RequestBody {
    /// The bytes of the body.
    pub open spec fn content(self) -> Seq<u8> {
        match self {
            RequestBody::Single(bytes) => bytes@,
            RequestBody::Stream(parts) => concatenated(parts@),
        }
    }

    /// A body that is sent part by part.
    pub fn from_iter(parts: Vec<Vec<u8>>) -> (r: RequestBody)
        ensures
            r == RequestBody::Stream(parts),
            r.content() == concatenated(parts@),
    {
        RequestBody::Stream(parts)
    }

    /// A body that is sent as a whole.
    pub fn from_bytes(bytes: Vec<u8>) -> (r: RequestBody)
        ensures
            r == RequestBody::Single(bytes),
            r.content() == bytes@,
    {
        RequestBody::Single(bytes)
    }
}

impl Default for RequestBody {
    fn default() -> (r: RequestBody)
        ensures
            r is Single,
            r.content() == Seq::<u8>::empty(),
    {
        RequestBody::Single(Vec::new())
    }
}

/// A request.
#[derive(Debug)]
pub struct Request {
    pub method: Method,
    pub uri: Uri,
    /// The names and the values of the headers. No name occurs twice.
    pub headers: Vec<(String, HeaderValue)>,
    pub body: RequestBody,
}

/// What is sent of a request.
#[verifier::ext_equal]
pub struct RequestView {
    pub method: Method,
    pub uri: Seq<char>,
    pub headers: Seq<(Seq<char>, Seq<u8>)>,
    pub streamed: bool,
    pub body: Seq<u8>,
}

/// The views of some headers.
pub open spec fn headers_view(headers: Seq<(String, HeaderValue)>) -> Seq<(Seq<char>, Seq<u8>)> {
    headers.map_values(|h: (String, HeaderValue)| (h.0@, h.1@))
}

impl View for Request {
    type V = RequestView;

    open spec fn view(&self) -> RequestView {
        RequestView {
            method: self.method,
            uri: self.uri@,
            headers: headers_view(self.headers@),
            streamed: self.body is Stream,
            body: self.body.content(),
        }
    }
}

/// A request with one more header.
pub open spec fn with_header(request: RequestView, name: Seq<char>, value: Seq<u8>) -> RequestView {
    RequestView { headers: request.headers.push((name, value)), ..request }
}

/// Some headers but for those with a certain name.
pub open spec fn without(headers: Seq<(Seq<char>, Seq<u8>)>, name: Seq<char>) -> Seq<
    (Seq<char>, Seq<u8>),
>
    decreases headers.len(),
{
    if headers.len() == 0 {
        Seq::empty()
    } else if headers.last().0 == name {
        without(headers.drop_last(), name)
    } else {
        without(headers.drop_last(), name).push(headers.last())
    }
}

/// A request with a header in place of those that have its name.
pub open spec fn setting_header(
    request: RequestView,
    name: Seq<char>,
    value: Seq<u8>,
) -> RequestView {
    RequestView { headers: without(request.headers, name).push((name, value)), ..request }
}

/// A request without headers.
pub open spec fn bare_request(method: Method, uri: Seq<char>) -> RequestView {
    RequestView {
        method,
        uri,
        headers: Seq::empty(),
        streamed: false,
        body: Seq::empty(),
    }
}

impl Request {
    /// A request without headers.
    pub fn new(method: Method, uri: Uri, body: RequestBody) -> (r: Request)
        ensures
            r@ == (RequestView {
                streamed: body is Stream,
                body: body.content(),
                ..bare_request(method, uri@)
            }),
    {
        let r = Request { method, uri, headers: Vec::new(), body };
        assert(headers_view(r.headers@) =~= Seq::empty());
        r
    }

    /// Puts a header in place of those that have its name.
    pub fn set_header(self, name: &str, value: HeaderValue) -> (r: Request)
        ensures
            r@ == setting_header(self@, name@, value@),
    {
        let mut headers: Vec<(String, HeaderValue)> = Vec::new();
        for i in 0..self.headers.len()
            invariant
                headers_view(headers@) == without(
                    headers_view(self.headers@).take(i as int),
                    name@,
                ),
        {
            let ghost before = headers@;
            let ghost all = headers_view(self.headers@);
            assert(all.take(i + 1).drop_last() =~= all.take(i as int));
            assert(all.take(i + 1).last() == all[i as int]);
            let (other, value) = &self.headers[i];
            if !text::str_eq(other.as_str(), name) {
                headers.push((other.clone(), value.clone()));
                assert(headers_view(headers@) =~= headers_view(before).push(all[i as int]));
            }
        }
        let ghost all = headers_view(self.headers@);
        assert(all.take(all.len() as int) =~= all);
        let mut r = Request { method: self.method, uri: self.uri, headers, body: self.body };
        r.push_header(name, value);
        r
    }

    /// Puts one more header behind the others.
    pub fn push_header(&mut self, name: &str, value: HeaderValue)
        ensures
            final(self)@ == with_header(old(self)@, name@, value@),
    {
        let ghost before = self.headers@;
        self.headers.push((name.to_owned(), value));
        assert(headers_view(self.headers@) =~= headers_view(before).push((name@, value@)));
    }
}

/// The headers of a response that the clients look at.
#[derive(Debug)]
pub struct ResponseHeaders {
    pub location: Option<HeaderValue>,
    pub replay_nonce: Option<HeaderValue>,
    pub retry_after: Option<HeaderValue>,
}

/// The body of a response: its media type, and what was read of it.
#[derive(Debug)]
pub struct ResponseBody<T> {
    pub content_type: HeaderValue,
    /// Whether the body arrived in one piece.
    pub in_one_piece: bool,
    pub content: T,
}

/// Whether a media type is that of JSON, with parameters or without.
pub open spec fn is_json(content_type: Seq<u8>) -> bool {
    are_visible(content_type) && (ascii_text(content_type) == "application/json"@
        || text::has_prefix(ascii_text(content_type), "application/json;"@))
}

/// What a response body is worth as JSON.
pub open spec fn json_body<T>(content_type: Seq<u8>, content: Result<T, String>) -> Result<
    T,
    Seq<Seq<char>>,
> {
    if !is_json(content_type) {
        Err(error::message("response body does not have content-type:application/json"@))
    } else {
        match content {
            Ok(value) => Ok(value),
            Err(err) => Err(error::message(err@)),
        }
    }
}

/// Whether a media type is that of JSON.
pub(crate) fn has_json_type(content_type: &HeaderValue) -> (r: bool)
    ensures
        r == is_json(content_type@),
{
    match content_type.to_str() {
        Ok(content_type) => {
            text::str_eq(content_type.as_str(), "application/json") || text::starts_with(
                content_type.as_str(),
                "application/json;",
            )
        },
        Err(_) => false,
    }
}

impl<T> ResponseBody<Result<T, String>> {
    /// The value that was parsed out of the body, if the body is JSON.
    pub fn as_json(self) -> (r: Result<T, Error>)
        ensures
            match r {
                Ok(value) => json_body(self.content_type@, self.content) == Ok::<
                    T,
                    Seq<Seq<char>>,
                >(value),
                Err(err) => json_body(self.content_type@, self.content) == Err::<
                    T,
                    Seq<Seq<char>>,
                >(err@),
            },
    {
        let is_json = has_json_type(&self.content_type);
        if !is_json {
            return Err(
                Error::new("response body does not have content-type:application/json"),
            );
        }
        match self.content {
            Ok(value) => Ok(value),
            Err(err) => Err(Error::new(err.as_str())),
        }
    }
}

/// Whether a media type is the expected one, with no parameters.
pub open spec fn has_type(content_type: Seq<u8>, expected: Seq<char>) -> bool {
    are_visible(content_type) && ascii_text(content_type) == expected
}

/// Whether a media type is the expected one, with no parameters.
pub(crate) fn is_type(content_type: &HeaderValue, expected: &str) -> (r: bool)
    ensures
        r == has_type(content_type@, expected@),
{
    match content_type.to_str() {
        Ok(content_type) => text::str_eq(content_type.as_str(), expected),
        Err(_) => false,
    }
}

/// What a response body is worth as a text of a certain media type.
pub open spec fn text_body(
    content_type: Seq<u8>,
    in_one_piece: bool,
    bytes: Seq<u8>,
    expected_content_type: Seq<char>,
) -> Result<Seq<char>, Seq<Seq<char>>> {
    if !has_type(content_type, expected_content_type) {
        Err(
            error::message(
                "response body does not have content-type:"@ + expected_content_type,
            ),
        )
    } else {
        match text::utf8_text(bytes) {
            Some(s) => Ok(s),
            None => Err(
                error::message(
                    if in_one_piece {
                        text::utf8_error(bytes)
                    } else {
                        "stream did not contain valid UTF-8"@
                    },
                ),
            ),
        }
    }
}

impl ResponseBody<Vec<u8>> {
    /// The text of the body, if it is one of the expected media type.
    pub fn as_str(&self, expected_content_type: &str) -> (r: Result<String, Error>)
        ensures
            error::result_view(r) == text_body(
                self.content_type@,
                self.in_one_piece,
                self.content@,
                expected_content_type@,
            ),
    {
        if !is_type(&self.content_type, expected_content_type) {
            let mut err = "response body does not have content-type:".to_owned();
            err.append(expected_content_type);
            return Err(Error::new(err.as_str()));
        }
        let bytes = self.content.as_slice();
        match text::from_utf8(bytes) {
            Some(s) => Ok(s),
            None => {
                if self.in_one_piece {
                    Err(Error::new(text::describe_utf8_error(bytes).as_str()))
                } else {
                    Err(Error::new("stream did not contain valid UTF-8"))
                }
            },
        }
    }
}

/// What the `retry-after` header of a response asks for, at the time `now`: a span of time, in
/// nanoseconds, that is at least `min` and at most `max`.
pub open spec fn retry_after_at(
    header: Option<Seq<u8>>,
    min: nat,
    max: nat,
    now: int,
) -> Result<nat, Seq<Seq<char>>> {
    match header {
        None => Ok(min),
        Some(bytes) => match header_text(bytes) {
            Err(err) => Err(error::in_context("could not parse retry-after header"@, err)),
            Ok(s) => match (text::parsed_unsigned(s, u64::MAX as nat), time2::http_date(s)) {
                (Ok(secs), _) => Ok(time2::clamped(secs * 1_000_000_000, min, max)),
                (Err(_), Some(date)) => {
                    let nanos = date * 1_000_000_000 - now;
                    if nanos < 0 {
                        Err(
                            seq![
                                "could not parse retry-after header as HTTP-date"@,
                                "Source value is out of range for the target type"@,
                            ],
                        )
                    } else {
                        Ok(time2::clamped(nanos as nat, min, max))
                    }
                },
                (Err(_), None) => Err(
                    error::message(
                        "could not parse retry-after header as delay-seconds or HTTP-date"@,
                    ),
                ),
            },
        },
    }
}

/// Whether a clock can say `now`: its seconds fit in 64 bits.
pub open spec fn is_time(now: int) -> bool {
    i64::MIN * 1_000_000_000 <= now < (i64::MAX + 1) * 1_000_000_000
}

/// The view of an optional header.
pub open spec fn header_view(header: Option<HeaderValue>) -> Option<Seq<u8>> {
    match header {
        Some(value) => Some(value@),
        None => None,
    }
}

/// The view of a result that is a plain value.
pub open spec fn plain_view<T>(r: Result<T, Error>) -> Result<T, Seq<Seq<char>>> {
    match r {
        Ok(value) => Ok(value),
        Err(err) => Err(err@),
    }
}

/// What the `retry-after` header of a response asks for, at the time `now`.
pub fn get_retry_after_at(
    headers: &ResponseHeaders,
    min: Duration,
    max: Duration,
    now: i128,
) -> (r: Result<Duration, Error>)
    requires
        min@ <= max@,
        is_time(now as int),
    ensures
        error::result_view(r) == retry_after_at(
            header_view(headers.retry_after),
            min@,
            max@,
            now as int,
        ),
        r matches Ok(retry_after) ==> min@ <= retry_after@ <= max@,
{
    let value = match &headers.retry_after {
        None => {
            return Ok(min);
        },
        Some(value) => value,
    };
    let s = match value.to_str() {
        Ok(s) => s,
        Err(err) => {
            return Err(err.context("could not parse retry-after header"));
        },
    };
    if let Ok(secs) = text::parse_unsigned(s.as_str(), u64::MAX) {
        return Ok(Duration::from_secs(secs).clamp(min, max));
    }
    if let Some(date) = time2::parse_http_date(s.as_str()) {
        let nanos: i128 = date as i128 * 1_000_000_000 - now;
        if nanos >= 0 {
            if let Some(span) = Duration::from_nanos(nanos as u128) {
                return Ok(span.clamp(min, max));
            }
        }
        let err = Error::new("Source value is out of range for the target type").context(
            "could not parse retry-after header as HTTP-date",
        );
        assert(err@ =~= seq![
            "could not parse retry-after header as HTTP-date"@,
            "Source value is out of range for the target type"@,
        ]);
        return Err(err);
    }
    Err(Error::new("could not parse retry-after header as delay-seconds or HTTP-date"))
}

/// What the `retry-after` header of a response asks for now.
pub fn get_retry_after(headers: &ResponseHeaders, min: Duration, max: Duration) -> (r: Result<
    Duration,
    Error,
>)
    requires
        min@ <= max@,
    ensures
        exists|now: int| #[trigger]
            time2::is_held(now) && error::result_view(r) == retry_after_at(
                header_view(headers.retry_after),
                min@,
                max@,
                now,
            ),
        r matches Ok(retry_after) ==> min@ <= retry_after@ <= max@,
{
    let now: i128 = time2::now();
    assert(time2::is_held(now as int));
    get_retry_after_at(headers, min, max, now)
}

/// The view of what a response was found to mean.
pub open spec fn response_view<T: View>(r: Result<Option<T>, Error>) -> Result<
    Option<T::V>,
    Seq<Seq<char>>,
> {
    match r {
        Ok(Some(value)) => Ok(Some(value@)),
        Ok(None) => Ok(None),
        Err(err) => Err(err@),
    }
}

/// A value that a response stands for.
pub trait FromResponse: View + Sized {
    /// What is read out of the body of the response.
    type Content;

    /// What a response means that arrives at the time `now`: a value, or an error where it is of the
    /// expected kind but malformed, or nothing where it is not of the expected kind.
    spec fn interpreted(
        status: u16,
        body: Option<ResponseBody<Self::Content>>,
        headers: ResponseHeaders,
        now: int,
    ) -> Result<Option<Self::V>, Seq<Seq<char>>>;

    /// Whether the body of a response is read that has this media type.
    spec fn reads(status: u16, content_type: Seq<u8>, headers: ResponseHeaders) -> bool;

    /// Finds out what a response means that arrives at the time `now`.
    fn from_response(
        status: StatusCode,
        body: Option<ResponseBody<Self::Content>>,
        headers: &ResponseHeaders,
        now: i128,
    ) -> (r: Result<Option<Self>, Error>)
        requires
            is_time(now as int),
        ensures
            response_view(r) == Self::interpreted(status@, body, *headers, now as int),
    ;

    /// Whether the body of a response is read that has this media type.
    fn reads_body(status: StatusCode, content_type: &HeaderValue, headers: &ResponseHeaders) -> (r:
        bool)
        ensures
            r == Self::reads(status@, content_type@, *headers),
    ;

    /// What a response means does not depend on a body that is not read.
    proof fn unread_does_not_matter(
        status: u16,
        content_type: HeaderValue,
        in_one_piece: bool,
        one: Self::Content,
        other: Self::Content,
        headers: ResponseHeaders,
        now: int,
    )
        requires
            !Self::reads(status, content_type@, headers),
        ensures
            Self::interpreted(
                status,
                Some((ResponseBody { content_type, in_one_piece, content: one })),
                headers,
                now,
            ) == Self::interpreted(
                status,
                Some((ResponseBody { content_type, in_one_piece, content: other })),
                headers,
                now,
            ),
    ;
}

/// What the JSON body of a response holds, where the status is one of the expected ones.
pub open spec fn json_if<T>(
    expected: bool,
    body: Option<ResponseBody<Result<T, String>>>,
) -> Result<Option<T>, Seq<Seq<char>>> {
    match body {
        Some(body) if expected => match json_body(body.content_type@, body.content) {
            Ok(value) => Ok(Some(value)),
            Err(err) => Err(err),
        },
        _ => Ok(None),
    }
}

/// Looks at the JSON body of a response, where the status is one of the expected ones.
pub fn expect_json<T>(expected: bool, body: Option<ResponseBody<Result<T, String>>>) -> (r: Result<
    Option<T>,
    Error,
>)
    ensures
        plain_view(r) == json_if(expected, body),
{
    match body {
        Some(body) => {
            if expected {
                match body.as_json() {
                    Ok(value) => Ok(Some(value)),
                    Err(err) => Err(err),
                }
            } else {
                Ok(None)
            }
        },
        None => Ok(None),
    }
}

/// What the JSON body of a response holds, where the status is one of the expected ones, and the body
/// is JSON.
pub open spec fn guarded_json_if<T>(
    expected: bool,
    body: Option<ResponseBody<Result<T, String>>>,
) -> Result<Option<T>, Seq<Seq<char>>> {
    match body {
        Some(body) => json_if(expected && is_json(body.content_type@), Some(body)),
        None => Ok(None),
    }
}

/// Looks at the JSON body of a response, where the status is one of the expected ones, and the body is
/// JSON.
pub fn expect_guarded_json<T>(
    expected: bool,
    body: Option<ResponseBody<Result<T, String>>>,
) -> (r: Result<Option<T>, Error>)
    ensures
        plain_view(r) == guarded_json_if(expected, body),
{
    match body {
        Some(body) => {
            let is_json = has_json_type(&body.content_type);
            expect_json(expected && is_json, Some(body))
        },
        None => Ok(None),
    }
}

/// The view of what a response was found to mean, where its value is still a plain one.
pub open spec fn viewed<T: View>(r: Result<Option<T>, Seq<Seq<char>>>) -> Result<
    Option<T::V>,
    Seq<Seq<char>>,
> {
    match r {
        Ok(Some(value)) => Ok(Some(value@)),
        Ok(None) => Ok(None),
        Err(err) => Err(err),
    }
}

/// A response whose `location` header counts too.
#[derive(Debug)]
pub struct ResponseWithLocation<T> {
    pub body: T,
    pub location: Uri,
}

impl<T: View> View for ResponseWithLocation<T> {
    type V = (T::V, Seq<char>);

    open spec fn view(&self) -> (T::V, Seq<char>) {
        (self.body@, self.location@)
    }
}

/// What the `location` header of a response says.
pub open spec fn location(header: Option<Seq<u8>>) -> Result<Seq<char>, Seq<Seq<char>>> {
    match header {
        None => Err(error::message("missing location header"@)),
        Some(bytes) => match uri_text(bytes) {
            Ok(uri) => Ok(uri),
            Err(err) => Err(
                error::in_context("could not parse location header"@, error::message(err)),
            ),
        },
    }
}

/// Reads the `location` header of a response.
pub fn get_location(headers: &ResponseHeaders) -> (r: Result<Uri, Error>)
    ensures
        error::result_view(r) == location(header_view(headers.location)),
{
    match &headers.location {
        None => Err(Error::new("missing location header")),
        Some(value) => match Uri::from_bytes(value.as_bytes()) {
            Ok(uri) => Ok(uri),
            Err(err) => Err(err.context("could not parse location header")),
        },
    }
}

impl<T: FromResponse> FromResponse for ResponseWithLocation<T> {
    type Content = T::Content;

    open spec fn interpreted(
        status: u16,
        body: Option<ResponseBody<T::Content>>,
        headers: ResponseHeaders,
        now: int,
    ) -> Result<Option<(T::V, Seq<char>)>, Seq<Seq<char>>> {
        match location(header_view(headers.location)) {
            Err(err) => Err(err),
            Ok(location) => match T::interpreted(status, body, headers, now) {
                Ok(Some(value)) => Ok(Some((value, location))),
                Ok(None) => Ok(None),
                Err(err) => Err(err),
            },
        }
    }

    fn from_response(
        status: StatusCode,
        body: Option<ResponseBody<T::Content>>,
        headers: &ResponseHeaders,
        now: i128,
    ) -> (r: Result<Option<ResponseWithLocation<T>>, Error>) {
        let location = match get_location(headers) {
            Ok(location) => location,
            Err(err) => {
                return Err(err);
            },
        };
        match T::from_response(status, body, headers, now) {
            Ok(Some(body)) => Ok(Some(ResponseWithLocation { body, location })),
            Ok(None) => Ok(None),
            Err(err) => Err(err),
        }
    }

    open spec fn reads(status: u16, content_type: Seq<u8>, headers: ResponseHeaders) -> bool {
        location(header_view(headers.location)) is Ok && T::reads(
            status,
            content_type,
            headers,
        )
    }

    fn reads_body(
        status: StatusCode,
        content_type: &HeaderValue,
        headers: &ResponseHeaders,
    ) -> (r: bool) {
        get_location(headers).is_ok() && T::reads_body(status, content_type, headers)
    }

    proof fn unread_does_not_matter(
        status: u16,
        content_type: HeaderValue,
        in_one_piece: bool,
        one: T::Content,
        other: T::Content,
        headers: ResponseHeaders,
        now: int,
    ) {
        if location(header_view(headers.location)) is Ok {
            T::unread_does_not_matter(status, content_type, in_one_piece, one, other, headers, now);
        }
    }
}

/// A status with its name, such as `404 Not Found`.
pub uninterp spec fn status_text(status: u16) -> Seq<char>;

/// The `Display` form of `http::StatusCode`.
#[verifier::external_body]
fn show_status(status: u16) -> (r: String)
    requires
        100 <= status <= 999,
    ensures
        r@ == status_text(status),
{
    http::StatusCode::from_u16(status).expect("the code is in range").to_string()
}

/// A digit of a hexadecimal number.
pub open spec fn hex_digit(digit: u8) -> char {
    if digit < 10 {
        (digit + 48) as char
    } else {
        (digit + 87) as char
    }
}

/// A byte as an escape, such as `\xff`.
pub open spec fn hex_escape(byte: u8) -> Seq<char> {
    seq!['\\', 'x', hex_digit(byte / 16), hex_digit(byte % 16)]
}

/// The form of a byte of a header value in its `Debug` form.
pub open spec fn header_byte_shown(byte: u8) -> Seq<char> {
    if byte == 34 {
        seq!['\\', '"']
    } else if 32 <= byte < 127 || byte == 9 {
        seq![byte as char]
    } else {
        hex_escape(byte)
    }
}

/// The `Debug` form of a header value.
pub open spec fn header_debug(bytes: Seq<u8>) -> Seq<char> {
    seq!['"'] + bytes.map_values(|byte: u8| header_byte_shown(byte)).flatten() + seq!['"']
}

/// The `Debug` form of `http::HeaderValue`: in quotes, with a backslash before a quote, and with escapes for
/// the bytes that are no visible ASCII.
#[verifier::external_body]
fn show_header(bytes: &[u8]) -> (r: String)
    requires
        are_header_bytes(bytes@),
    ensures
        r@ == header_debug(bytes@),
{
    format!("{:?}", http::HeaderValue::from_bytes(bytes).expect("the bytes are valid"))
}

/// The form of a byte in the `Debug` form of some bytes.
pub open spec fn byte_shown(byte: u8) -> Seq<char> {
    if byte == 10 {
        seq!['\\', 'n']
    } else if byte == 13 {
        seq!['\\', 'r']
    } else if byte == 9 {
        seq!['\\', 't']
    } else if byte == 92 || byte == 34 {
        seq!['\\', byte as char]
    } else if byte == 0 {
        seq!['\\', '0']
    } else if 32 <= byte < 127 {
        seq![byte as char]
    } else {
        hex_escape(byte)
    }
}

/// The `Debug` form of some bytes.
pub open spec fn bytes_debug(bytes: Seq<u8>) -> Seq<char> {
    seq!['b', '"'] + bytes.map_values(|byte: u8| byte_shown(byte)).flatten() + seq!['"']
}

/// The `Debug` form of `hyper::body::Bytes`: that of a byte string literal.
#[verifier::external_body]
fn show_bytes(bytes: &[u8]) -> (r: String)
    ensures
        r@ == bytes_debug(bytes@),
{
    format!("{:?}", hyper::body::Bytes::copy_from_slice(bytes))
}

/// The message about a response that nobody expected: its status, and its media type with its body.
pub open spec fn unexpected_response_text(
    status: u16,
    body: Option<(Seq<u8>, Seq<u8>)>,
) -> Seq<char> {
    "unexpected response "@ + status_text(status) + ": "@ + match body {
        Some((content_type, bytes)) => "Some(("@ + header_debug(content_type) + ", "@
            + bytes_debug(bytes) + "))"@,
        None => "None"@,
    }
}

/// Writes the message about a response that nobody expected.
fn unexpected_response(status: StatusCode, body: &Option<(HeaderValue, Vec<u8>)>) -> (r: String)
    ensures
        r@ == unexpected_response_text(
            status@,
            match *body {
                Some((content_type, bytes)) => Some((content_type@, bytes@)),
                None => None,
            },
        ),
{
    let mut r = "unexpected response ".to_owned();
    r.append(show_status(status.as_u16()).as_str());
    r.append(": ");
    match body {
        Some((content_type, bytes)) => {
            let mut shown = "Some((".to_owned();
            shown.append(show_header(content_type.as_bytes()).as_str());
            shown.append(", ");
            shown.append(show_bytes(bytes.as_slice()).as_str());
            shown.append("))");
            r.append(shown.as_str());
        },
        None => {
            r.append("None");
        },
    }
    r
}

/// The body of a response while it arrives, piece by piece.
#[derive(Debug)]
pub struct ArrivingBody {
    bytes: Vec<u8>,
    first: usize,
    pieces: u8,
}

/// What has arrived of a body: its bytes, how many of them the first piece has, and how many pieces they
/// came in, where two stands for two or more.
#[verifier::ext_equal]
pub struct ArrivingView {
    pub bytes: Seq<u8>,
    pub first: int,
    pub pieces: int,
}

impl View for ArrivingBody {
    type V = ArrivingView;

    closed spec fn view(&self) -> ArrivingView {
        ArrivingView { bytes: self.bytes@, first: self.first as int, pieces: self.pieces as int }
    }
}

/// A body of which nothing has arrived.
pub open spec fn nothing_arrived() -> ArrivingView {
    ArrivingView { bytes: seq![], first: 0, pieces: 0 }
}

/// A body after one more piece.
pub open spec fn piece_arrived(body: ArrivingView, piece: Seq<u8>) -> ArrivingView {
    ArrivingView {
        bytes: body.bytes + piece,
        first: if body.pieces == 0 {
            piece.len() as int
        } else {
            body.first
        },
        pieces: if body.pieces < 2 {
            body.pieces + 1
        } else {
            2
        },
    }
}

/// A body after some pieces.
pub open spec fn arrived(pieces: Seq<Seq<u8>>) -> ArrivingView
    decreases pieces.len(),
{
    if pieces.len() == 0 {
        nothing_arrived()
    } else {
        piece_arrived(arrived(pieces.drop_last()), pieces.last())
    }
}

/// What is left of a body when `taken` of its bytes have been read: its first piece, which stays, and
/// what has not been read of the others.
pub open spec fn unread(body: ArrivingView, taken: int) -> Seq<u8> {
    let behind = if taken <= body.first {
        body.first
    } else if taken <= body.bytes.len() {
        taken
    } else {
        body.bytes.len() as int
    };
    body.bytes.take(body.first) + body.bytes.skip(behind)
}

impl ArrivingBody {
    #[verifier::type_invariant]
    spec fn counted(self) -> bool {
        &&& self.pieces <= 2
        &&& self.first <= self.bytes@.len()
        &&& self.pieces == 0 ==> self.bytes@.len() == 0
        &&& self.pieces < 2 ==> self.first == self.bytes@.len()
    }

    /// A body of which nothing has arrived.
    pub fn new() -> (r: ArrivingBody)
        ensures
            r@ == nothing_arrived(),
    {
        let r = ArrivingBody { bytes: Vec::new(), first: 0, pieces: 0 };
        assert(r@ =~= nothing_arrived());
        r
    }

    /// Takes the next piece.
    pub fn data_received(self, piece: &[u8]) -> (r: ArrivingBody)
        ensures
            r@ == piece_arrived(self@, piece@),
    {
        proof {
            use_type_invariant(&self);
        }
        let mut bytes = self.bytes;
        bytes.extend_from_slice(piece);
        let pieces: u8 = if self.pieces < 2 {
            self.pieces + 1
        } else {
            2
        };
        let first: usize = if self.pieces == 0 {
            piece.len()
        } else {
            self.first
        };
        let r = ArrivingBody { bytes, first, pieces };
        assert(r@ =~= piece_arrived(self@, piece@));
        r
    }

    /// Whether the body has come in one piece so far.
    pub fn is_in_one_piece(&self) -> (r: bool)
        ensures
            r == (self@.pieces < 2),
    {
        self.pieces < 2
    }

    /// What is left of the body when `taken` of its bytes have been read.
    fn into_unread(self, taken: usize) -> (r: Vec<u8>)
        ensures
            r@ == unread(self@, taken as int),
    {
        proof {
            use_type_invariant(&self);
        }
        let ghost expected = unread(self@, taken as int);
        let bytes = self.bytes.as_slice();
        let behind: usize = if taken <= self.first {
            self.first
        } else if taken <= bytes.len() {
            taken
        } else {
            bytes.len()
        };
        let mut r: Vec<u8> = Vec::new();
        r.extend_from_slice(vstd::slice::slice_subrange(bytes, 0, self.first));
        r.extend_from_slice(vstd::slice::slice_subrange(bytes, behind, bytes.len()));
        assert(r@ =~= expected);
        r
    }

    /// Takes something that is no data, such as trailers. The first two pieces have to be data; what comes
    /// behind them is passed over.
    pub fn other_received(&self) -> (r: Result<(), Error>)
        ensures
            r is Ok <==> self@.pieces >= 2,
            r matches Err(err) ==> err@ == error::message(
                "could not read response body: not a data frame"@,
            ),
    {
        proof {
            use_type_invariant(self);
        }
        if self.pieces < 2 {
            Err(Error::new("could not read response body: not a data frame"))
        } else {
            Ok(())
        }
    }
}

/// Some pieces, one after the other.
pub open spec fn joined_pieces(pieces: Seq<Seq<u8>>) -> Seq<u8>
    decreases pieces.len(),
{
    if pieces.len() == 0 {
        seq![]
    } else {
        joined_pieces(pieces.drop_last()) + pieces.last()
    }
}

/// What has arrived of a body are its pieces, one after the other.
proof fn lemma_arrived(pieces: Seq<Seq<u8>>)
    ensures
        arrived(pieces).bytes == joined_pieces(pieces),
    decreases pieces.len(),
{
    if pieces.len() > 0 {
        lemma_arrived(pieces.drop_last());
    }
}

/// The first piece of a body is its beginning.
proof fn lemma_first_piece(pieces: Seq<Seq<u8>>)
    requires
        pieces.len() > 0,
    ensures
        arrived(pieces).first == pieces[0].len() <= arrived(pieces).bytes.len(),
        arrived(pieces).bytes.take(pieces[0].len() as int) == pieces[0],
        arrived(pieces).pieces > 0,
        pieces.len() == 1 ==> arrived(pieces).bytes == pieces[0],
    decreases pieces.len(),
{
    let before = pieces.drop_last();
    if before.len() > 0 {
        lemma_first_piece(before);
        assert(before[0] == pieces[0]);
        assert(arrived(pieces).bytes.take(pieces[0].len() as int) =~= arrived(before).bytes.take(
            pieces[0].len() as int,
        ));
    } else {
        assert(arrived(before) == nothing_arrived());
        assert(arrived(pieces).bytes =~= pieces[0]);
    }
}

/// What is left of a body is all of it, where nothing has been read of it or where it came in one piece;
/// it is the first piece alone, where all of it has been read.
pub proof fn the_first_piece_is_left(pieces: Seq<Seq<u8>>, taken: int)
    requires
        pieces.len() > 0,
    ensures
        unread(arrived(pieces), 0) == joined_pieces(pieces),
        pieces.len() == 1 ==> unread(arrived(pieces), taken) == joined_pieces(pieces),
        taken >= joined_pieces(pieces).len() ==> unread(arrived(pieces), taken) == pieces[0],
{
    lemma_arrived(pieces);
    lemma_first_piece(pieces);
    let body = arrived(pieces);
    assert(body.bytes.take(body.first) + body.bytes.skip(body.first) =~= body.bytes);
    if pieces.len() == 1 {
        assert(unread(body, taken) =~= body.bytes);
    }
    if taken >= body.bytes.len() {
        assert(unread(body, taken) =~= pieces[0]);
    }
}

/// What a request comes to, where its response means `interpreted`, and has the status `status` and
/// `unread` in its body.
pub open spec fn concluded<V>(
    interpreted: Result<Option<V>, Seq<Seq<char>>>,
    status: u16,
    unread: Option<(Seq<u8>, Seq<u8>)>,
) -> Result<V, Seq<Seq<char>>> {
    match interpreted {
        Ok(Some(value)) => Ok(value),
        Ok(None) => Err(error::message(unexpected_response_text(status, unread))),
        Err(err) => Err(error::in_context(unexpected_response_text(status, unread), err)),
    }
}

/// Whether `read` may make `content` of some bytes, and take `taken` of them for it.
pub open spec fn is_reading<C, F: Fn(&[u8]) -> (C, usize)>(
    read: F,
    bytes: Seq<u8>,
    content: C,
    taken: usize,
) -> bool {
    exists|slice: &[u8]|
        slice@ == bytes && #[trigger] call_ensures(read, (slice,), (content, taken))
}

/// Whether a response that arrives at the time `now` comes to `outcome`. Its body counts if and only if it
/// has a media type, and is then what `read` makes of the bytes. An error shows what is left of the body: if
/// the meaning of the response depends on it, that is what `read` has not taken.
pub open spec fn comes_to<T: FromResponse, F: Fn(&[u8]) -> (T::Content, usize)>(
    outcome: Result<T::V, Seq<Seq<char>>>,
    status: u16,
    headers: ResponseHeaders,
    content_type: Option<HeaderValue>,
    body: ArrivingView,
    read: F,
    now: int,
) -> bool {
    match content_type {
        Some(content_type) => exists|content: T::Content, taken: usize| #[trigger]
            is_reading(read, body.bytes, content, taken) && outcome == concluded(
                T::interpreted(
                    status,
                    Some(ResponseBody { content_type, in_one_piece: body.pieces < 2, content }),
                    headers,
                    now,
                ),
                status,
                Some(
                    (
                        content_type@,
                        unread(
                            body,
                            if T::reads(status, content_type@, headers) {
                                taken as int
                            } else {
                                0
                            },
                        ),
                    ),
                ),
            ),
        None => outcome == concluded(T::interpreted(status, None, headers, now), status, None),
    }
}

/// How a body is split into pieces does not matter: the same JSON value is read of it, whatever reads it,
/// and the same text, where it is one.
pub proof fn the_split_does_not_matter<T, F: Fn(&[u8]) -> (Result<T, String>, usize)>(
    one: Seq<Seq<u8>>,
    other: Seq<Seq<u8>>,
    content_type: Seq<u8>,
    read: F,
    expected_content_type: Seq<char>,
)
    requires
        joined_pieces(one) == joined_pieces(other),
    ensures
        forall|content: Result<T, String>, taken: usize|
            is_reading(read, arrived(one).bytes, content, taken) <==> is_reading(
                read,
                arrived(other).bytes,
                content,
                taken,
            ),
        ({
            let text = |body: ArrivingView|
                text_body(content_type, body.pieces < 2, body.bytes, expected_content_type);
            &&& text(arrived(one)) is Ok <==> text(arrived(other)) is Ok
            &&& text(arrived(one)) is Ok ==> text(arrived(one)) == text(arrived(other))
        }),
{
    lemma_arrived(one);
    lemma_arrived(other);
}

/// An HTTP client: all requests carry its name.
#[derive(Debug)]
pub struct Client {
    user_agent: HeaderValue,
}

impl View for Client {
    type V = Seq<u8>;

    closed spec fn view(&self) -> Seq<u8> {
        self.user_agent@
    }
}

impl Client {
    /// A client with this name.
    pub fn new(user_agent: HeaderValue) -> (r: Client)
        ensures
            r@ == user_agent@,
    {
        Client { user_agent }
    }

    /// The request as it is sent.
    pub fn prepare(&self, request: Request) -> (r: Request)
        ensures
            r@ == setting_header(request@, "user-agent"@, self@),
    {
        request.set_header("user-agent", self.user_agent.clone())
    }

    /// What a request comes to whose response arrives at the time `now`. `read` reads the bytes of the
    /// body, where the response has a media type, and is handed nothing but these bytes. It says how many
    /// of them it has taken.
    pub fn receive_at<T: FromResponse, F: Fn(&[u8]) -> (T::Content, usize)>(
        &self,
        status: StatusCode,
        headers: &ResponseHeaders,
        content_type: Option<HeaderValue>,
        body: ArrivingBody,
        read: F,
        now: i128,
    ) -> (r: Result<T, Error>)
        requires
            is_time(now as int),
            forall|bytes: &[u8]| call_requires(read, (bytes,)),
        ensures
            comes_to::<T, F>(
                error::result_view(r),
                status@,
                *headers,
                content_type,
                body@,
                read,
                now as int,
            ),
    {
        proof {
            use_type_invariant(&body);
        }
        let ghost arrived = body@;
        let (content, unread) = match content_type {
            Some(content_type) => {
                let (content, taken) = read(body.bytes.as_slice());
                assert(is_reading(read, arrived.bytes, content, taken));
                let taken: usize = if T::reads_body(status, &content_type, headers) {
                    taken
                } else {
                    0
                };
                let in_one_piece = body.pieces < 2;
                let unread = (content_type.clone(), body.into_unread(taken));
                (Some(ResponseBody { content_type, in_one_piece, content }), Some(unread))
            },
            None => (None, None),
        };
        let err = match T::from_response(status, content, headers, now) {
            Ok(Some(value)) => {
                return Ok(value);
            },
            Ok(None) => None,
            Err(err) => Some(err),
        };
        let text = unexpected_response(status, &unread);
        match err {
            Some(err) => Err(err.context(text.as_str())),
            None => Err(Error::new(text.as_str())),
        }
    }

    /// What a request comes to whose response arrives now.
    pub fn receive<T: FromResponse, F: Fn(&[u8]) -> (T::Content, usize)>(
        &self,
        status: StatusCode,
        headers: &ResponseHeaders,
        content_type: Option<HeaderValue>,
        body: ArrivingBody,
        read: F,
    ) -> (r: Result<T, Error>)
        requires
            forall|bytes: &[u8]| call_requires(read, (bytes,)),
        ensures
            exists|now: int| #[trigger]
                time2::is_held(now) && comes_to::<T, F>(
                    error::result_view(r),
                    status@,
                    *headers,
                    content_type,
                    body@,
                    read,
                    now,
                ),
    {
        let now: i128 = time2::now();
        assert(time2::is_held(now as int));
        self.receive_at(status, headers, content_type, body, read, now)
    }
}

/// A header value reads as a text if and only if it is made of printable ASCII characters and tabs, and the
/// text then has a character for each byte, the one that the byte stands for.
pub proof fn a_header_reads_as_its_characters(bytes: Seq<u8>)
    ensures
        header_text(bytes) is Ok <==> forall|i: int|
            0 <= i < bytes.len() ==> (32 <= #[trigger] bytes[i] <= 126 || bytes[i] == 9),
        header_text(bytes) matches Ok(s) ==> s.len() == bytes.len() && forall|i: int|
            0 <= i < s.len() ==> #[trigger] s[i] as u32 == bytes[i] as u32,
        header_text(bytes) matches Err(err) ==> err == seq!["failed to convert header to a str"@],
{
    if header_text(bytes) is Ok {
        assert forall|i: int| 0 <= i < bytes.len() implies (32 <= #[trigger] bytes[i] <= 126 || bytes[i]
            == 9) by {
            assert(is_visible(bytes[i]));
        }
    } else {
        let i = choose|i: int| 0 <= i < bytes.len() && !is_visible(#[trigger] bytes[i]);
        assert(!(32 <= bytes[i] <= 126 || bytes[i] == 9));
    }
}

/// A text is a header value if and only if it has no control characters but tabs, and the value is then what
/// it is encoded as. A value that is a printable text reads as that text again.
pub proof fn a_header_is_its_text(s: Seq<char>)
    ensures
        header_value(s) is Ok <==> forall|i: int|
            0 <= i < utf8::encode_utf8(s).len() ==> ((#[trigger] utf8::encode_utf8(s)[i] >= 32
                && utf8::encode_utf8(s)[i] != 127) || utf8::encode_utf8(s)[i] == 9),
        header_value(s) matches Ok(bytes) ==> bytes == utf8::encode_utf8(s),
        header_value(s) matches Err(err) ==> err == seq!["failed to parse header value"@],
        is_printable(s) ==> header_value(s) is Ok && header_text(header_value(s)->Ok_0) == Ok::<
            Seq<char>,
            Seq<Seq<char>>,
        >(s),
{
    let bytes = utf8::encode_utf8(s);
    if header_value(s) is Ok {
        assert forall|i: int| 0 <= i < bytes.len() implies ((#[trigger] bytes[i] >= 32 && bytes[i] != 127)
            || bytes[i] == 9) by {
            assert(is_header_byte(bytes[i]));
        }
    } else {
        let i = choose|i: int| 0 <= i < bytes.len() && !is_header_byte(#[trigger] bytes[i]);
        assert(!((bytes[i] >= 32 && bytes[i] != 127) || bytes[i] == 9));
    }
    if is_printable(s) {
        lemma_visible_ascii(s);
    }
}

/// Leaving out the headers with a name keeps all others, in their order, and keeps none with the name.
pub proof fn only_one_name_is_left_out(
    a: Seq<(Seq<char>, Seq<u8>)>,
    b: Seq<(Seq<char>, Seq<u8>)>,
    name: Seq<char>,
)
    ensures
        without(a + b, name) == without(a, name) + without(b, name),
        a.len() == 1 ==> without(a, name) == if a[0].0 == name {
            seq![]
        } else {
            a
        },
        forall|i: int| 0 <= i < without(b, name).len() ==> (#[trigger] without(b, name)[i]).0 != name,
    decreases b.len(),
{
    reveal_with_fuel(without, 2);
    if a.len() == 1 {
        assert(a.drop_last() =~= seq![]);
        assert(without(a, name) =~= if a[0].0 == name {
            seq![]
        } else {
            a
        });
    }
    if b.len() == 0 {
        assert(a + b =~= a);
        assert(without(a + b, name) =~= without(a, name) + without(b, name));
    } else {
        only_one_name_is_left_out(a, b.drop_last(), name);
        assert((a + b).drop_last() =~= a + b.drop_last());
        assert((a + b).last() == b.last());
        assert(without(a + b, name) =~= without(a, name) + without(b, name));
    }
}

/// Setting a header puts it behind all others in place of those with its name, and leaves the rest of the
/// request as it is. Adding one takes no other away. A bare request has neither a header nor a body.
pub proof fn setting_a_header_changes_nothing_else(
    request: RequestView,
    name: Seq<char>,
    value: Seq<u8>,
    method: Method,
    uri: Seq<char>,
)
    ensures
        ({
            let set = setting_header(request, name, value);
            let added = with_header(request, name, value);
            let bare = bare_request(method, uri);
            &&& set.headers == without(request.headers, name) + seq![(name, value)]
            &&& set.method == request.method && set.uri == request.uri && set.streamed == request.streamed
                && set.body == request.body
            &&& added.headers == request.headers + seq![(name, value)]
            &&& added.method == request.method && added.uri == request.uri && added.streamed
                == request.streamed && added.body == request.body
            &&& bare.method == method && bare.uri == uri && bare.headers.len() == 0 && !bare.streamed
                && bare.body.len() == 0
        }),
{
    assert(setting_header(request, name, value).headers =~= without(request.headers, name) + seq![
        (name, value),
    ]);
    assert(with_header(request, name, value).headers =~= request.headers + seq![(name, value)]);
}

/// The parts of a body that is sent part by part follow each other.
pub proof fn parts_follow_each_other(a: Seq<Vec<u8>>, b: Seq<Vec<u8>>)
    ensures
        concatenated(a + b) == concatenated(a) + concatenated(b),
        a.len() == 1 ==> concatenated(a) == a[0]@,
    decreases b.len(),
{
    reveal_with_fuel(concatenated, 2);
    if a.len() == 1 {
        assert(concatenated(a) =~= a[0]@);
    }
    if b.len() == 0 {
        assert(a + b =~= a);
        assert(concatenated(a + b) =~= concatenated(a) + concatenated(b));
    } else {
        parts_follow_each_other(a, b.drop_last());
        assert((a + b).drop_last() =~= a + b.drop_last());
        assert((a + b).last() == b.last());
        assert(concatenated(a + b) =~= concatenated(a) + concatenated(b));
    }
}

/// The pieces of a body that arrives follow each other, and nothing is lost of them.
pub proof fn pieces_follow_each_other(a: Seq<Seq<u8>>, b: Seq<Seq<u8>>)
    ensures
        arrived(a + b).bytes == arrived(a).bytes + arrived(b).bytes,
        a.len() == 1 ==> arrived(a).bytes == a[0] && arrived(a).first == a[0].len(),
        arrived(a).pieces == if a.len() < 2 {
            a.len() as int
        } else {
            2
        },
        joined_pieces(a + b) == joined_pieces(a) + joined_pieces(b),
    decreases a.len() + b.len(),
{
    reveal_with_fuel(arrived, 3);
    lemma_arrived(a + b);
    lemma_arrived(a);
    lemma_arrived(b);
    if a.len() == 1 {
        assert(arrived(a).bytes =~= a[0]);
    }
    if a.len() > 0 {
        pieces_follow_each_other(a.drop_last(), seq![]);
    }
    if b.len() == 0 {
        assert(a + b =~= a);
        assert(joined_pieces(a + b) =~= joined_pieces(a) + joined_pieces(b));
    } else {
        pieces_follow_each_other(a, b.drop_last());
        assert((a + b).drop_last() =~= a + b.drop_last());
        assert((a + b).last() == b.last());
        assert(joined_pieces(a + b) =~= joined_pieces(a) + joined_pieces(b));
    }
}

/// What is left of a body is its first piece and what has not been read of the others, in its order.
pub proof fn what_was_not_read_is_left(first: Seq<u8>, read: Seq<u8>, rest: Seq<u8>)
    ensures
        unread(arrived(seq![first, read, rest]), (first.len() + read.len()) as int) == first + rest,
{
    reveal_with_fuel(arrived, 4);
    let pieces = seq![first, read, rest];
    assert(pieces.drop_last() =~= seq![first, read]);
    assert(seq![first, read].drop_last() =~= seq![first]);
    assert(seq![first].drop_last() =~= seq![]);
    let body = arrived(pieces);
    assert(body.bytes =~= first + read + rest);
    assert(body.first == first.len());
    assert(unread(body, (first.len() + read.len()) as int) =~= first + rest);
}

/// A media type is that of JSON if and only if it is `application/json`, alone or with parameters behind a
/// semicolon.
pub proof fn json_is_told_by_its_media_type(content_type: Seq<char>, parameters: Seq<char>)
    requires
        is_printable(content_type),
        is_printable(parameters),
    ensures
        is_json(utf8::encode_utf8("application/json"@)),
        is_json(utf8::encode_utf8("application/json;"@ + parameters)),
        is_json(utf8::encode_utf8(content_type)) <==> content_type == "application/json"@
            || text::has_prefix(content_type, "application/json;"@),
        has_type(utf8::encode_utf8(content_type), "application/json"@) <==> content_type
            == "application/json"@,
{
    reveal_strlit("application/json");
    reveal_strlit("application/json;");
    lemma_visible_ascii(content_type);
    lemma_visible_ascii("application/json"@);
    lemma_visible_ascii("application/json;"@ + parameters);
    text::a_prefix_stands_first(seq![], "application/json;"@, parameters);
}

/// What a JSON body holds is taken where the status is one of the expected ones, and is then what was parsed
/// out of it. A body of another media type is an error, or no answer where only JSON counts; a response
/// without a body, or with another status, is no answer.
pub proof fn json_is_taken_where_it_is_expected<T>(
    body: ResponseBody<Result<T, String>>,
    expected: bool,
)
    ensures
        json_if::<T>(expected, None) == Ok::<Option<T>, Seq<Seq<char>>>(None),
        guarded_json_if::<T>(expected, None) == Ok::<Option<T>, Seq<Seq<char>>>(None),
        json_if(false, Some(body)) == Ok::<Option<T>, Seq<Seq<char>>>(None),
        guarded_json_if(false, Some(body)) == Ok::<Option<T>, Seq<Seq<char>>>(None),
        is_json(body.content_type@) ==> json_if(true, Some(body)) == match body.content {
            Ok(value) => Ok::<Option<T>, Seq<Seq<char>>>(Some(value)),
            Err(err) => Err(seq![err@]),
        },
        is_json(body.content_type@) ==> guarded_json_if(true, Some(body)) == json_if(true, Some(body)),
        !is_json(body.content_type@) ==> json_if(true, Some(body)) == Err::<Option<T>, Seq<Seq<char>>>(
            seq!["response body does not have content-type:application/json"@],
        ),
        !is_json(body.content_type@) ==> guarded_json_if(true, Some(body)) == Ok::<
            Option<T>,
            Seq<Seq<char>>,
        >(None),
{
}

/// What is viewed of an answer is the view of its value, and no answer and an error stay what they are.
pub proof fn an_answer_is_viewed_as_it_is<T: View>(value: T, err: Seq<Seq<char>>)
    ensures
        viewed::<T>(Ok(Some(value))) == Ok::<Option<T::V>, Seq<Seq<char>>>(Some(value@)),
        viewed::<T>(Ok(None)) == Ok::<Option<T::V>, Seq<Seq<char>>>(None),
        viewed::<T>(Err(err)) == Err::<Option<T::V>, Seq<Seq<char>>>(err),
{
}

/// The text of a body is the one that its bytes encode, where its media type is the expected one.
pub proof fn a_body_is_the_text_that_it_encodes(
    content_type: Seq<char>,
    expected: Seq<char>,
    in_one_piece: bool,
    s: Seq<char>,
    bytes: Seq<u8>,
)
    requires
        is_printable(content_type),
    ensures
        content_type == expected ==> text_body(
            utf8::encode_utf8(content_type),
            in_one_piece,
            utf8::encode_utf8(s),
            expected,
        ) == Ok::<Seq<char>, Seq<Seq<char>>>(s),
        content_type != expected ==> text_body(
            utf8::encode_utf8(content_type),
            in_one_piece,
            bytes,
            expected,
        ) == Err::<Seq<char>, Seq<Seq<char>>>(
            seq!["response body does not have content-type:"@ + expected],
        ),
        content_type == expected && !utf8::valid_utf8(bytes) ==> text_body(
            utf8::encode_utf8(content_type),
            in_one_piece,
            bytes,
            expected,
        ) == Err::<Seq<char>, Seq<Seq<char>>>(
            seq![
                if in_one_piece {
                    text::utf8_error(bytes)
                } else {
                    "stream did not contain valid UTF-8"@
                },
            ],
        ),
{
    lemma_visible_ascii(content_type);
    text::bytes_are_the_text_that_they_encode(s, bytes);
}

/// A response asks to wait for a number of seconds, or until a date, or not at all, and the wait is never
/// shorter than `min` or longer than `max`.
pub proof fn a_response_asks_to_wait(
    secs: nat,
    header: Seq<char>,
    min: nat,
    max: nat,
    now: int,
)
    requires
        min <= max,
        secs <= u64::MAX,
        is_printable(header),
        text::parsed_unsigned(header, u64::MAX as nat) is Err,
    ensures
        retry_after_at(None, min, max, now) == Ok::<nat, Seq<Seq<char>>>(min),
        retry_after_at(Some(utf8::encode_utf8(text::decimal(secs))), min, max, now) == Ok::<
            nat,
            Seq<Seq<char>>,
        >(
            if secs * 1_000_000_000 <= min {
                min
            } else if secs * 1_000_000_000 >= max {
                max
            } else {
                secs * 1_000_000_000
            },
        ),
        match time2::http_date(header) {
            Some(date) => {
                let left = date * 1_000_000_000 - now;
                retry_after_at(Some(utf8::encode_utf8(header)), min, max, now) == if left < 0 {
                    Err::<nat, Seq<Seq<char>>>(
                        seq![
                            "could not parse retry-after header as HTTP-date"@,
                            "Source value is out of range for the target type"@,
                        ],
                    )
                } else if left <= min {
                    Ok(min)
                } else if left >= max {
                    Ok(max)
                } else {
                    Ok(left as nat)
                }
            },
            None => retry_after_at(Some(utf8::encode_utf8(header)), min, max, now) == Err::<
                nat,
                Seq<Seq<char>>,
            >(seq!["could not parse retry-after header as delay-seconds or HTTP-date"@]),
        },
{
    lemma_decimal_visible(secs);
    lemma_visible_ascii(text::decimal(secs));
    lemma_visible_ascii(header);
    text::decimal_reads_back(secs, u64::MAX as nat);
}

/// A wait that a response asks for lies within its limits, whatever the response says, and a header that is
/// no text asks for nothing.
pub proof fn waits_stay_within_their_limits(
    header: Option<Seq<u8>>,
    min: nat,
    max: nat,
    now: int,
)
    requires
        min <= max,
    ensures
        retry_after_at(header, min, max, now) matches Ok(wait) ==> min <= wait <= max,
        header matches Some(bytes) ==> header_text(bytes) matches Err(err) ==> retry_after_at(
            header,
            min,
            max,
            now,
        ) == Err::<nat, Seq<Seq<char>>>(seq!["could not parse retry-after header"@] + err),
{
}

/// A response with a location is worth what it is worth without, together with the URI that its location
/// is; without a location, or with one that is no URI, it is an error.
pub proof fn a_location_counts<T: FromResponse>(
    status: u16,
    body: Option<ResponseBody<T::Content>>,
    headers: ResponseHeaders,
    now: int,
)
    ensures
        ({
            let read = ResponseWithLocation::<T>::interpreted(status, body, headers, now);
            match headers.location {
                None => read == Err::<Option<(T::V, Seq<char>)>, Seq<Seq<char>>>(
                    seq!["missing location header"@],
                ),
                Some(header) => match uri_text(header@) {
                    Err(err) => read == Err::<Option<(T::V, Seq<char>)>, Seq<Seq<char>>>(
                        seq!["could not parse location header"@, err],
                    ),
                    Ok(uri) => match T::interpreted(status, body, headers, now) {
                        Ok(Some(value)) => read == Ok::<Option<(T::V, Seq<char>)>, Seq<Seq<char>>>(
                            Some((value, uri)),
                        ),
                        Ok(None) => read == Ok::<Option<(T::V, Seq<char>)>, Seq<Seq<char>>>(None),
                        Err(err) => read == Err::<Option<(T::V, Seq<char>)>, Seq<Seq<char>>>(err),
                    },
                },
            }
        }),
{
    if let Some(header) = headers.location {
        if let Err(err) = uri_text(header@) {
            assert(location(header_view(headers.location))->Err_0 =~= seq![
                "could not parse location header"@,
                err,
            ]);
        }
    }
}

/// A request comes to what its response means. Where that is nothing, or an error, the error tells of the
/// status of the response, and of its media type and its body where it has one.
pub proof fn a_request_comes_to_what_its_response_means<V>(
    value: V,
    status: u16,
    unread: Option<(Seq<u8>, Seq<u8>)>,
    err: Seq<Seq<char>>,
)
    ensures
        ({
            let told = "unexpected response "@ + status_text(status) + ": "@ + match unread {
                Some((content_type, bytes)) => "Some(("@ + header_debug(content_type) + ", "@
                    + bytes_debug(bytes) + "))"@,
                None => "None"@,
            };
            &&& concluded::<V>(Ok(Some(value)), status, unread) == Ok::<V, Seq<Seq<char>>>(value)
            &&& concluded::<V>(Ok(None), status, unread) == Err::<V, Seq<Seq<char>>>(seq![told])
            &&& concluded::<V>(Err(err), status, unread) == Err::<V, Seq<Seq<char>>>(seq![told] + err)
        }),
{
}

/// A URI that is put together of its parts has the scheme `https`, and an outside error is one message.
pub proof fn uris_are_put_together(
    authority: Seq<char>,
    path_and_query: Seq<char>,
    text: Seq<char>,
)
    ensures
        https_uri_text(authority, path_and_query) == built_uri_text("https"@, authority, path_and_query),
        outside::<Seq<char>>(Ok(text)) == Ok::<Seq<char>, Seq<Seq<char>>>(text),
        outside::<Seq<char>>(Err(text)) == Err::<Seq<char>, Seq<Seq<char>>>(seq![text]),
{
}

/// The views of some URIs or headers are the views of each of them, at its place, and what a request sends
/// is its own method, URI, headers and body.
pub proof fn a_request_sends_what_it_is_made_of(
    request: Request,
    uris: Seq<Uri>,
    header: HeaderValue,
)
    ensures
        uri_texts(uris).len() == uris.len(),
        forall|i: int| 0 <= i < uris.len() ==> #[trigger] uri_texts(uris)[i] == uris[i]@,
        request@.method == request.method,
        request@.uri == request.uri@,
        request@.headers.len() == request.headers@.len(),
        forall|i: int|
            0 <= i < request.headers@.len() ==> #[trigger] request@.headers[i] == (
                request.headers@[i].0@,
                request.headers@[i].1@,
            ),
        match request.body {
            RequestBody::Single(bytes) => request@.body == bytes@ && !request@.streamed,
            RequestBody::Stream(parts) => request@.body == concatenated(parts@) && request@.streamed,
        },
        header_view(Some(header)) == Some(header@),
        header_view(None) is None,
{
}

/// What is viewed of a result is the view of its value, or its error.
pub proof fn results_are_viewed_as_they_are<T: View>(value: T, err: Error)
    ensures
        error::result_view::<T>(Ok(value)) == Ok::<T::V, Seq<Seq<char>>>(value@),
        error::result_view::<T>(Err(err)) == Err::<T::V, Seq<Seq<char>>>(err@),
        response_view::<T>(Ok(Some(value))) == Ok::<Option<T::V>, Seq<Seq<char>>>(Some(value@)),
        response_view::<T>(Ok(None)) == Ok::<Option<T::V>, Seq<Seq<char>>>(None),
        response_view::<T>(Err(err)) == Err::<Option<T::V>, Seq<Seq<char>>>(err@),
        plain_view::<T>(Ok(value)) == Ok::<T, Seq<Seq<char>>>(value),
        plain_view::<T>(Err(err)) == Err::<T, Seq<Seq<char>>>(err@),
        err@.len() == err.chain@.len(),
        forall|i: int| 0 <= i < err@.len() ==> #[trigger] err@[i] == err.chain@[i]@,
{
}

/// A response is worth what its body is read as: where `read` makes one thing of the bytes, the response
/// comes to what it means with that thing as its body, and to nothing else. What is left of the body is what
/// has not been taken of it, and all of it where the body does not count.
pub proof fn a_response_is_worth_what_is_read<T: FromResponse, F: Fn(&[u8]) -> (T::Content, usize)>(
    outcome: Result<T::V, Seq<Seq<char>>>,
    status: u16,
    headers: ResponseHeaders,
    content_type: HeaderValue,
    body: ArrivingView,
    read: F,
    now: int,
    content: T::Content,
    taken: usize,
)
    requires
        is_reading(read, body.bytes, content, taken),
        forall|other: T::Content, other_taken: usize|
            #[trigger] is_reading(read, body.bytes, other, other_taken) ==> other == content && other_taken
                == taken,
    ensures
        comes_to::<T, F>(outcome, status, headers, Some(content_type), body, read, now) <==> outcome
            == concluded(
            T::interpreted(
                status,
                Some(ResponseBody { content_type, in_one_piece: body.pieces < 2, content }),
                headers,
                now,
            ),
            status,
            Some(
                (
                    content_type@,
                    unread(
                        body,
                        if T::reads(status, content_type@, headers) {
                            taken as int
                        } else {
                            0
                        },
                    ),
                ),
            ),
        ),
        comes_to::<T, F>(outcome, status, headers, None, body, read, now) <==> outcome == concluded(
            T::interpreted(status, None, headers, now),
            status,
            None,
        ),
{
}

/// With a location, a body counts where it counts without, if the location is a URI.
pub proof fn a_body_counts_with_its_location<T: FromResponse>(
    status: u16,
    content_type: Seq<u8>,
    headers: ResponseHeaders,
)
    ensures
        <ResponseWithLocation<T> as FromResponse>::reads(status, content_type, headers) <==> (
        headers.location matches Some(header) && uri_text(header@) is Ok) && T::reads(
            status,
            content_type,
            headers,
        ),
{
}

} // verus!
