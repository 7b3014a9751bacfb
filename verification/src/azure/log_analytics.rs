//! The Log Analytics workspace that keeps the log.

use vstd::prelude::*;
use vstd::utf8;

use crate::azure;
use crate::crypto;
use crate::encoding;
use crate::error;
use crate::error::Error;
use crate::http_common;
use crate::http_common::{
    FromResponse, HeaderValue, Method, Request, RequestBody, RequestView, ResponseBody,
    ResponseHeaders, StatusCode, Uri,
};
use crate::json;
use crate::log2;
use crate::log2::{Scope, ScopeView, ScopedObjectOperation, Shown};
use crate::text;
use crate::time2;

verus! {

/// What sends the log to a workspace.
#[derive(Debug)]
pub struct LogSender {
    customer_id: String,
    uri: Uri,
    authorization_prefix: String,
    signer: Vec<u8>,
}

/// What sends the log to a workspace: the ID of the workspace, the URI that takes the log, and the key
/// that signs it.
#[verifier::ext_equal]
pub struct LogSenderView {
    pub customer_id: Seq<char>,
    pub uri: Seq<char>,
    pub signer: Seq<u8>,
}

impl View for LogSender {
    type V = LogSenderView;

    closed spec fn view(&self) -> LogSenderView {
        LogSenderView {
            customer_id: self.customer_id@,
            uri: self.uri@,
            signer: self.signer@,
        }
    }
}

/// The URI that takes the log of a workspace.
pub open spec fn collector_uri(customer_id: Seq<char>) -> Seq<char> {
    "https://"@ + customer_id + ".ods.opinsights.azure.com/api/logs?api-version=2016-04-01"@
}

/// What is signed when a body of `content_length` bytes is sent.
pub open spec fn string_to_sign(content_length: nat, x_ms_date: Seq<char>) -> Seq<char> {
    "POST\n"@ + text::decimal(content_length) + "\napplication/json\nx-ms-date:"@ + x_ms_date
        + "\n/api/logs"@
}

/// The authorization of a request with a body of `content_length` bytes.
pub open spec fn authorization(
    sender: LogSenderView,
    content_length: nat,
    x_ms_date: Seq<char>,
) -> Seq<char> {
    "SharedKey "@ + sender.customer_id + ":"@ + encoding::base64_standard(
        crypto::hmac_sha256(
            sender.signer,
            utf8::encode_utf8(string_to_sign(content_length, x_ms_date)),
        ),
    )
}

/// The request that sends some logs.
pub open spec fn logs_request(
    sender: LogSenderView,
    log_type: Seq<u8>,
    logs: Seq<u8>,
    authorization: Seq<u8>,
    x_ms_date: Seq<u8>,
) -> RequestView {
    RequestView {
        method: Method::Post,
        uri: sender.uri,
        headers: seq![
            ("authorization"@, authorization),
            ("content-length"@, utf8::encode_utf8(text::decimal(logs.len() + 2))),
            ("content-type"@, azure::application_json()),
            ("log-type"@, log_type),
            ("time-generated-field"@, utf8::encode_utf8(log2::TIME_GENERATED_FIELD@)),
            ("x-ms-date"@, x_ms_date),
        ],
        streamed: true,
        body: utf8::encode_utf8("["@) + logs + utf8::encode_utf8("]"@),
    }
}

/// What sending some logs at the time `now` comes to.
pub open spec fn logs_sent_at(
    sender: LogSenderView,
    log_type: Seq<u8>,
    logs: Seq<u8>,
    now: i128,
) -> Result<RequestView, Seq<Seq<char>>> {
    match time2::formatted(now, time2::RFC2822@) {
        Err(err) => Err(err),
        Ok(date) => match (
            http_common::header_value(date),
            http_common::header_value(authorization(sender, logs.len() + 2, date)),
        ) {
            (Err(err), _) => Err(
                error::in_context("could not create authorization header"@, err),
            ),
            (Ok(_), Err(err)) => Err(
                error::in_context("could not create authorization header"@, err),
            ),
            (Ok(x_ms_date), Ok(authorization)) => Ok(
                logs_request(sender, log_type, logs, authorization, x_ms_date),
            ),
        },
    }
}

/// The operation that sending some logs is reported as.
pub open spec fn logs_scope(sender: LogSenderView, logs: Seq<u8>) -> ScopeView {
    ScopeView {
        object_type: "azure/log_analytics/logs"@,
        object_id: sender.customer_id,
        operation: ScopedObjectOperation::Create { value: text::decimal(logs.len() + 2) + "B"@ },
    }
}

impl LogSender {
    #[verifier::type_invariant]
    spec fn prefixed(self) -> bool {
        self.authorization_prefix@ == "SharedKey "@ + self.customer_id@ + ":"@
    }

    /// What sends the log to the workspace with an ID, signed with a key.
    pub fn new(customer_id: String, signer: Vec<u8>) -> (r: Result<LogSender, Error>)
        ensures
            match http_common::uri_text(utf8::encode_utf8(collector_uri(customer_id@))) {
                Ok(uri) => r matches Ok(sender) && sender@ == (LogSenderView {
                    customer_id: customer_id@,
                    uri,
                    signer: signer@,
                }),
                Err(err) => r matches Err(e) && e@ == error::in_context(
                    "could not construct Log Analytics Data Collector API URI"@,
                    error::message(err),
                ),
            },
    {
        let mut uri = "https://".to_owned();
        uri.append(customer_id.as_str());
        uri.append(".ods.opinsights.azure.com/api/logs?api-version=2016-04-01");
        let mut authorization_prefix = "SharedKey ".to_owned();
        authorization_prefix.append(customer_id.as_str());
        authorization_prefix.append(":");
        match Uri::from_text(uri.as_str()) {
            Ok(uri) => Ok(LogSender { customer_id, uri, authorization_prefix, signer }),
            Err(err) => Err(
                err.context("could not construct Log Analytics Data Collector API URI"),
            ),
        }
    }

    /// The authorization of a request with a body of `content_length` bytes.
    fn authorize(&self, content_length: u64, x_ms_date: &str) -> (r: String)
        ensures
            r@ == authorization(self@, content_length as nat, x_ms_date@),
            http_common::header_value(r@) is Ok <==> http_common::header_value(
                self@.customer_id,
            ) is Ok,
    {
        proof {
            use_type_invariant(self);
        }
        let mut message = "POST\n".to_owned();
        message.append(text::to_decimal(content_length).as_str());
        message.append("\napplication/json\nx-ms-date:");
        message.append(x_ms_date);
        message.append("\n/api/logs");
        let signature = crypto::authenticate_sha256(
            self.signer.as_slice(),
            message.as_str().as_bytes(),
        );
        let signature = encoding::base64_standard_encode(signature.as_slice());
        let mut r = self.authorization_prefix.clone();
        r.append(signature.as_str());
        proof {
            reveal_strlit("SharedKey ");
            reveal_strlit(":");
            http_common::lemma_visible_ascii("SharedKey "@);
            http_common::lemma_visible_ascii(":"@);
            assert forall|i: int| 0 <= i < signature@.len() implies ' ' <= #[trigger] signature@[i]
                <= '~' by {
                assert(encoding::is_base64_standard(signature@[i]));
            }
            http_common::lemma_visible_ascii(signature@);
            http_common::lemma_header_concat("SharedKey "@, self.customer_id@);
            http_common::lemma_header_concat("SharedKey "@ + self.customer_id@, ":"@);
            http_common::lemma_header_concat(
                "SharedKey "@ + self.customer_id@ + ":"@,
                signature@,
            );
        }
        r
    }

    /// Sends some logs, at the time `now`.
    pub fn send_logs_at(&self, log_type: HeaderValue, logs: Vec<u8>, now: i128) -> (r: (
        Scope,
        Result<Request, Error>,
    ))
        requires
            logs@.len() <= usize::MAX - 2,
        ensures
            r.0@ == logs_scope(self@, logs@),
            error::result_view(r.1) == logs_sent_at(self@, log_type@, logs@, now),
            r.1 is Ok <==> time2::is_held(now as int) && http_common::header_value(
                self@.customer_id,
            ) is Ok,
    {
        let content_length: u64 = (logs.len() + 2) as u64;
        let mut value = text::to_decimal(content_length);
        value.append("B");
        let scope = Scope::create("azure/log_analytics/logs", self.customer_id.clone(), value);
        proof {
            reveal_strlit(
                "[weekday repr:short], [day] [month repr:short] [year] [hour]:[minute]:[second] GMT",
            );
        }
        let date = match time2::format(now, time2::RFC2822) {
            Ok(date) => date,
            Err(err) => {
                return (scope, Err(err));
            },
        };
        proof {
            http_common::lemma_visible_ascii(date@);
        }
        let x_ms_date = match HeaderValue::from_text(date.as_str()) {
            Ok(x_ms_date) => x_ms_date,
            Err(err) => {
                return (scope, Err(err.context("could not create authorization header")));
            },
        };
        let authorization = match HeaderValue::from_text(
            self.authorize(content_length, date.as_str()).as_str(),
        ) {
            Ok(authorization) => authorization,
            Err(err) => {
                return (scope, Err(err.context("could not create authorization header")));
            },
        };
        let ghost expected = logs_request(
            self@,
            log_type@,
            logs@,
            authorization@,
            x_ms_date@,
        );
        let parts = vec![text::bytes_of("["), logs, text::bytes_of("]")];
        proof {
            reveal_with_fuel(http_common::concatenated, 4);
            reveal_strlit("application/json");
            reveal_strlit("TimeCollected");
            assert(parts@.drop_last().drop_last().drop_last() =~= Seq::empty());
            assert(http_common::concatenated(parts@) =~= expected.body);
        }
        let mut request = Request::new(
            Method::Post,
            self.uri.clone(),
            RequestBody::from_iter(parts),
        );
        request.push_header("authorization", authorization);
        request.push_header("content-length", HeaderValue::from_number(content_length));
        request.push_header("content-type", HeaderValue::from_static("application/json"));
        request.push_header("log-type", log_type);
        request.push_header(
            "time-generated-field",
            HeaderValue::from_static(log2::TIME_GENERATED_FIELD),
        );
        request.push_header("x-ms-date", x_ms_date);
        assert(request@.headers =~= expected.headers);
        assert(request@ =~= expected);
        (scope, Ok(request))
    }

    /// Sends some logs now. That works whatever the clock says, if the ID of the workspace can stand in a
    /// header.
    pub fn send_logs(&self, log_type: HeaderValue, logs: Vec<u8>) -> (r: (
        Scope,
        Result<Request, Error>,
    ))
        requires
            logs@.len() <= usize::MAX - 2,
        ensures
            r.0@ == logs_scope(self@, logs@),
            r.1 is Ok <==> http_common::header_value(self@.customer_id) is Ok,
            exists|now: i128|
                time2::is_held(now as int) && #[trigger] logs_sent_at(
                    self@,
                    log_type@,
                    logs@,
                    now,
                ) == error::result_view(r.1),
    {
        let now: i128 = time2::now();
        self.send_logs_at(log_type, logs, now)
    }
}

/// A response that says that logs have arrived.
#[derive(Debug)]
pub struct LogsResponse;

impl View for LogsResponse {
    type V = ();

    open spec fn view(&self) -> () {
        ()
    }
}

impl FromResponse for LogsResponse {
    type Content = ();

    open spec fn interpreted(
        status: u16,
        body: Option<ResponseBody<()>>,
        headers: ResponseHeaders,
        now: int,
    ) -> Result<Option<()>, Seq<Seq<char>>> {
        Ok(
            if status == 200 {
                Some(())
            } else {
                None
            },
        )
    }

    fn from_response(
        status: StatusCode,
        body: Option<ResponseBody<()>>,
        headers: &ResponseHeaders,
        now: i128,
    ) -> (r: Result<Option<LogsResponse>, Error>) {
        if status.as_u16() == 200 {
            Ok(Some(LogsResponse))
        } else {
            Ok(None)
        }
    }

    open spec fn reads(status: u16, content_type: Seq<u8>, headers: ResponseHeaders) -> bool {
        false
    }

    fn reads_body(
        status: StatusCode,
        content_type: &HeaderValue,
        headers: &ResponseHeaders,
    ) -> (r: bool) {
        false
    }

    proof fn unread_does_not_matter(
        status: u16,
        content_type: HeaderValue,
        in_one_piece: bool,
        one: (),
        other: (),
        headers: ResponseHeaders,
        now: int,
    ) {
    }
}

impl Shown for LogsResponse {
    /// Nothing: the end of a creation shows no value.
    open spec fn shown(value: Self::V) -> Seq<char> {
        ""@
    }

    fn show(&self) -> (r: String) {
        "".to_owned()
    }
}

/// The length that a request with logs gives is that of its body.
pub proof fn content_length_is_the_length(
    sender: LogSenderView,
    log_type: Seq<u8>,
    logs: Seq<u8>,
    authorization: Seq<u8>,
    x_ms_date: Seq<u8>,
)
    ensures
        ({
            let request = logs_request(sender, log_type, logs, authorization, x_ms_date);
            request.headers[1] == (
                "content-length"@,
                utf8::encode_utf8(text::decimal(request.body.len())),
            )
        }),
{
    reveal_strlit("[");
    reveal_strlit("]");
    utf8::is_ascii_chars_encode_utf8("["@);
    utf8::is_ascii_chars_encode_utf8("]"@);
}

/// What is sent of the records of a log is a JSON array of the records.
pub proof fn records_are_sent_as_an_array(
    sender: LogSenderView,
    log_type: Seq<u8>,
    records: Seq<Seq<char>>,
    authorization: Seq<u8>,
    x_ms_date: Seq<u8>,
)
    ensures
        logs_request(
            sender,
            log_type,
            utf8::encode_utf8(json::comma_separated(records)),
            authorization,
            x_ms_date,
        ).body == utf8::encode_utf8(json::json_array(records)),
{
    text::lemma_encode_concat("["@, json::comma_separated(records));
    text::lemma_encode_concat("["@ + json::comma_separated(records), "]"@);
}

/// Some logs are sent to the workspace that they are for, as JSON and under their type, with the date that
/// they are signed with, and signed with the key of the workspace: what is signed is the method, the length,
/// the media type, that date and the path.
pub proof fn logs_are_signed_with_their_date(
    sender: LogSenderView,
    log_type: Seq<u8>,
    logs: Seq<u8>,
    now: i128,
)
    ensures
        match time2::time_text(now, time2::RFC2822@) {
            Err(err) => logs_sent_at(sender, log_type, logs, now) == Err::<RequestView, Seq<Seq<char>>>(
                seq!["could not format time"@, err],
            ),
            Ok(date) => {
                let signed = "POST\n"@ + text::decimal(logs.len() + 2)
                    + "\napplication/json\nx-ms-date:"@ + date + "\n/api/logs"@;
                let shared_key = "SharedKey "@ + sender.customer_id + ":"@ + encoding::base64_standard(
                    crypto::hmac_sha256(sender.signer, utf8::encode_utf8(signed)),
                );
                match (http_common::header_value(date), http_common::header_value(shared_key)) {
                    (Ok(date), Ok(shared_key)) => logs_sent_at(sender, log_type, logs, now) matches Ok(
                        request,
                    ) && request.method == Method::Post && request.uri == sender.uri && request.streamed
                        && request.body == utf8::encode_utf8(seq!['[']) + logs + utf8::encode_utf8(
                        seq![']'],
                    ) && request.headers == seq![
                        ("authorization"@, shared_key),
                        ("content-length"@, utf8::encode_utf8(text::decimal(logs.len() + 2))),
                        ("content-type"@, utf8::encode_utf8("application/json"@)),
                        ("log-type"@, log_type),
                        ("time-generated-field"@, utf8::encode_utf8("TimeCollected"@)),
                        ("x-ms-date"@, date),
                    ],
                    (Err(err), _) => logs_sent_at(sender, log_type, logs, now) == Err::<
                        RequestView,
                        Seq<Seq<char>>,
                    >(seq!["could not create authorization header"@] + err),
                    (_, Err(err)) => logs_sent_at(sender, log_type, logs, now) == Err::<
                        RequestView,
                        Seq<Seq<char>>,
                    >(seq!["could not create authorization header"@] + err),
                }
            },
        },
{
    reveal_strlit("[");
    reveal_strlit("]");
    assert("["@ =~= seq!['[']);
    assert("]"@ =~= seq![']']);
}

/// The log of a workspace goes to its own collector, and is reported by its length alone; it has arrived if
/// the status is 200.
pub proof fn the_log_goes_to_its_workspace(
    sender: LogSenderView,
    logs: Seq<u8>,
    status: u16,
    body: Option<ResponseBody<()>>,
    headers: ResponseHeaders,
    now: int,
)
    ensures
        collector_uri(sender.customer_id) == "https://"@ + sender.customer_id
            + ".ods.opinsights.azure.com/api/logs?api-version=2016-04-01"@,
        logs_scope(sender, logs).object_type == "azure/log_analytics/logs"@,
        logs_scope(sender, logs).object_id == sender.customer_id,
        logs_scope(sender, logs).operation == (ScopedObjectOperation::<Seq<char>>::Create {
            value: text::decimal(logs.len() + 2) + seq!['B'],
        }),
        LogsResponse::interpreted(status, body, headers, now) == Ok::<Option<()>, Seq<Seq<char>>>(
            if status == 200 {
                Some(())
            } else {
                None
            },
        ),
{
    reveal_strlit("B");
    assert("B"@ =~= seq!['B']);
}

/// No body counts: the status alone tells whether logs have arrived.
pub proof fn bodies_count_where_they_are_expected(status: u16, content_type: Seq<u8>, headers: ResponseHeaders)
    ensures
        <LogsResponse as FromResponse>::reads(status, content_type, headers) <==> false,
{
}

} // verus!
