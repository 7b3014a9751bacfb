//! The log: reports, and the records that they leave behind.

use vstd::prelude::*;
use vstd::utf8;

use crate::error::Error;
use crate::json;
use crate::text;

pub mod object_id;

pub use object_id::ObjectId;

verus! {

/// The member of a record that holds its time.
pub const TIME_GENERATED_FIELD: &'static str = "TimeCollected";

/// A value that has a form in the log.
pub trait Shown: View {
    /// The form of a value in the log.
    spec fn shown(value: Self::V) -> Seq<char>;

    /// The form of the value in the log.
    fn show(&self) -> (r: String)
        ensures
            r@ == Self::shown(self@),
    ;
}

/// A value that the log does not show.
#[derive(Clone, Copy)]
pub struct Secret<T>(pub T);

impl<T: View> View for Secret<T> {
    type V = T::V;

    open spec fn view(&self) -> T::V {
        self.0@
    }
}

impl<T: View> Shown for Secret<T> {
    /// The same for all values.
    open spec fn shown(value: T::V) -> Seq<char> {
        "******"@
    }

    fn show(&self) -> (r: String) {
        "******".to_owned()
    }
}

impl Shown for String {
    /// The text in its `Debug` form.
    open spec fn shown(value: Seq<char>) -> Seq<char> {
        text::quoted(value)
    }

    fn show(&self) -> (r: String) {
        text::quote(self.as_str())
    }
}

impl Shown for bool {
    open spec fn shown(value: bool) -> Seq<char> {
        json::json_bool(value)
    }

    fn show(&self) -> (r: String) {
        json::boolean(*self)
    }
}

impl Shown for () {
    open spec fn shown(value: ()) -> Seq<char> {
        "()"@
    }

    fn show(&self) -> (r: String) {
        "()".to_owned()
    }
}

/// The `Debug` form of an optional value, where `shown` is that of the value.
pub open spec fn optional_shown(shown: Option<Seq<char>>) -> Seq<char> {
    match shown {
        Some(shown) => "Some("@ + shown + ")"@,
        None => "None"@,
    }
}

/// The `Debug` form of an optional value.
pub fn show_optional(shown: Option<String>) -> (r: String)
    ensures
        r@ == optional_shown(text::optional(shown)),
{
    match shown {
        Some(shown) => {
            let mut r = "Some(".to_owned();
            r.append(shown.as_str());
            r.append(")");
            r
        },
        None => "None".to_owned(),
    }
}

/// An operation on an object, from its start to its end.
#[derive(Clone, Copy, Debug)]
pub enum ScopedObjectOperation<D> {
    Create { value: D },
    Delete,
    Get,
}

/// The start or the end of an operation on an object.
#[derive(Debug)]
pub enum ObjectOperation<D> {
    CreateStart { value: D },
    CreateEnd,
    DeleteStart,
    DeleteEnd,
    GetStart,
    GetEnd { value: D },
}

/// A report.
#[derive(Debug)]
pub enum Report<D> {
    Error { err: D },
    Message { message: D },
    ObjectOperation { object_type: D, object_id: D, operation: ObjectOperation<D> },
    ObjectState { object_type: D, object_id: D, state: D },
}

impl View for ScopedObjectOperation<String> {
    type V = ScopedObjectOperation<Seq<char>>;

    open spec fn view(&self) -> ScopedObjectOperation<Seq<char>> {
        match self {
            ScopedObjectOperation::Create { value } => ScopedObjectOperation::Create {
                value: value@,
            },
            ScopedObjectOperation::Delete => ScopedObjectOperation::Delete,
            ScopedObjectOperation::Get => ScopedObjectOperation::Get,
        }
    }
}

impl View for ObjectOperation<String> {
    type V = ObjectOperation<Seq<char>>;

    open spec fn view(&self) -> ObjectOperation<Seq<char>> {
        match self {
            ObjectOperation::CreateStart { value } => ObjectOperation::CreateStart {
                value: value@,
            },
            ObjectOperation::CreateEnd => ObjectOperation::CreateEnd,
            ObjectOperation::DeleteStart => ObjectOperation::DeleteStart,
            ObjectOperation::DeleteEnd => ObjectOperation::DeleteEnd,
            ObjectOperation::GetStart => ObjectOperation::GetStart,
            ObjectOperation::GetEnd { value } => ObjectOperation::GetEnd { value: value@ },
        }
    }
}

impl View for Report<String> {
    type V = Report<Seq<char>>;

    open spec fn view(&self) -> Report<Seq<char>> {
        match self {
            Report::Error { err } => Report::Error { err: err@ },
            Report::Message { message } => Report::Message { message: message@ },
            Report::ObjectOperation { object_type, object_id, operation } =>
                Report::ObjectOperation {
                object_type: object_type@,
                object_id: object_id@,
                operation: operation@,
            },
            Report::ObjectState { object_type, object_id, state } => Report::ObjectState {
                object_type: object_type@,
                object_id: object_id@,
                state: state@,
            },
        }
    }
}

/// The views of some reports.
pub open spec fn reports_view(reports: Seq<Report<String>>) -> Seq<Report<Seq<char>>> {
    reports.map_values(|report: Report<String>| report@)
}

/// What an operation is reported as when it starts.
pub open spec fn started(operation: ScopedObjectOperation<Seq<char>>) -> ObjectOperation<
    Seq<char>,
> {
    match operation {
        ScopedObjectOperation::Create { value } => ObjectOperation::CreateStart { value },
        ScopedObjectOperation::Delete => ObjectOperation::DeleteStart,
        ScopedObjectOperation::Get => ObjectOperation::GetStart,
    }
}

/// What an operation is reported as when it ends well, with `result`.
pub open spec fn ended(
    operation: ScopedObjectOperation<Seq<char>>,
    result: Seq<char>,
) -> ObjectOperation<Seq<char>> {
    match operation {
        ScopedObjectOperation::Create { .. } => ObjectOperation::CreateEnd,
        ScopedObjectOperation::Delete => ObjectOperation::DeleteEnd,
        ScopedObjectOperation::Get => ObjectOperation::GetEnd { value: result },
    }
}

impl ScopedObjectOperation<String> {
    /// What the operation is reported as when it starts.
    pub fn start(&self) -> (r: ObjectOperation<String>)
        ensures
            r@ == started(self@),
    {
        match self {
            ScopedObjectOperation::Create { value } => ObjectOperation::CreateStart {
                value: value.clone(),
            },
            ScopedObjectOperation::Delete => ObjectOperation::DeleteStart,
            ScopedObjectOperation::Get => ObjectOperation::GetStart,
        }
    }

    /// What the operation is reported as when it ends well, with `result`.
    pub fn end(&self, result: &str) -> (r: ObjectOperation<String>)
        ensures
            r@ == ended(self@, result@),
    {
        match self {
            ScopedObjectOperation::Create { .. } => ObjectOperation::CreateEnd,
            ScopedObjectOperation::Delete => ObjectOperation::DeleteEnd,
            ScopedObjectOperation::Get => ObjectOperation::GetEnd { value: result.to_owned() },
        }
    }
}

/// An operation on an object that is reported from its start to its end.
#[derive(Debug)]
pub struct Scope {
    pub object_type: String,
    pub object_id: String,
    pub operation: ScopedObjectOperation<String>,
}

/// The object and the operation of a scope.
#[verifier::ext_equal]
pub struct ScopeView {
    pub object_type: Seq<char>,
    pub object_id: Seq<char>,
    pub operation: ScopedObjectOperation<Seq<char>>,
}

impl View for Scope {
    type V = ScopeView;

    open spec fn view(&self) -> ScopeView {
        ScopeView {
            object_type: self.object_type@,
            object_id: self.object_id@,
            operation: self.operation@,
        }
    }
}

/// The report that an operation starts.
pub open spec fn start_report(scope: ScopeView) -> Report<Seq<char>> {
    Report::ObjectOperation {
        object_type: scope.object_type,
        object_id: scope.object_id,
        operation: started(scope.operation),
    }
}

/// The report that an operation has ended well, with a value that has the form `shown` in the log.
pub open spec fn end_report(scope: ScopeView, shown: Seq<char>) -> Report<Seq<char>> {
    Report::ObjectOperation {
        object_type: scope.object_type,
        object_id: scope.object_id,
        operation: ended(scope.operation, shown),
    }
}

impl Scope {
    /// The creation of an object.
    pub fn create(object_type: &str, object_id: String, value: String) -> (r: Scope)
        ensures
            r@ == (ScopeView {
                object_type: object_type@,
                object_id: object_id@,
                operation: ScopedObjectOperation::Create { value: value@ },
            }),
    {
        Scope {
            object_type: object_type.to_owned(),
            object_id,
            operation: ScopedObjectOperation::Create { value },
        }
    }

    /// The deletion of an object.
    pub fn delete(object_type: &str, object_id: String) -> (r: Scope)
        ensures
            r@ == (ScopeView {
                object_type: object_type@,
                object_id: object_id@,
                operation: ScopedObjectOperation::Delete,
            }),
    {
        Scope {
            object_type: object_type.to_owned(),
            object_id,
            operation: ScopedObjectOperation::Delete,
        }
    }

    /// A look at an object.
    pub fn get(object_type: &str, object_id: String) -> (r: Scope)
        ensures
            r@ == (ScopeView {
                object_type: object_type@,
                object_id: object_id@,
                operation: ScopedObjectOperation::Get,
            }),
    {
        Scope {
            object_type: object_type.to_owned(),
            object_id,
            operation: ScopedObjectOperation::Get,
        }
    }
}

/// A report of a message.
pub fn message_report(message: String) -> (r: Report<String>)
    ensures
        r@ == (Report::Message { message: message@ }),
{
    Report::Message { message }
}

/// A report of the state of an object.
pub fn state_report(object_type: &str, object_id: &str, state: String) -> (r: Report<String>)
    ensures
        r@ == (Report::ObjectState {
            object_type: object_type@,
            object_id: object_id@,
            state: state@,
        }),
{
    Report::ObjectState {
        object_type: object_type.to_owned(),
        object_id: object_id.to_owned(),
        state,
    }
}

/// How grave a report is.
#[derive(Clone, Copy, Debug, PartialEq, Eq, Structural)]
pub enum Level {
    Error,
    Info,
}

impl<D> Report<D> {
    /// How grave the report is.
    pub open spec fn graveness(self) -> Level {
        match self {
            Report::Error { .. } => Level::Error,
            _ => Level::Info,
        }
    }
}

/// The form of an operation in a line of the log.
pub open spec fn operation_line(operation: ObjectOperation<Seq<char>>) -> Seq<char> {
    match operation {
        ObjectOperation::CreateStart { value } => "CreateStart { value: "@ + value + " }"@,
        ObjectOperation::CreateEnd => "CreateEnd"@,
        ObjectOperation::DeleteStart => "DeleteStart"@,
        ObjectOperation::DeleteEnd => "DeleteEnd"@,
        ObjectOperation::GetStart => "GetStart"@,
        ObjectOperation::GetEnd { value } => "GetEnd { value: "@ + value + " }"@,
    }
}

/// The form of a report in a line of the log.
pub open spec fn report_line(report: Report<Seq<char>>) -> Seq<char> {
    match report {
        Report::Error { err } => "Error { err: "@ + err + " }"@,
        Report::Message { message } => "Message { message: "@ + message + " }"@,
        Report::ObjectOperation { object_type, object_id, operation } =>
            "ObjectOperation { object_type: "@ + object_type + ", object_id: "@ + object_id
            + ", operation: "@ + operation_line(operation) + " }"@,
        Report::ObjectState { object_type, object_id, state } =>
            "ObjectState { object_type: "@ + object_type + ", object_id: "@ + object_id
            + ", state: "@ + state + " }"@,
    }
}

impl ObjectOperation<String> {
    /// The form of the operation in a line of the log.
    pub fn debug_text(&self) -> (r: String)
        ensures
            r@ == operation_line(self@),
    {
        match self {
            ObjectOperation::CreateStart { value } => {
                let mut r = "CreateStart { value: ".to_owned();
                r.append(value.as_str());
                r.append(" }");
                r
            },
            ObjectOperation::CreateEnd => "CreateEnd".to_owned(),
            ObjectOperation::DeleteStart => "DeleteStart".to_owned(),
            ObjectOperation::DeleteEnd => "DeleteEnd".to_owned(),
            ObjectOperation::GetStart => "GetStart".to_owned(),
            ObjectOperation::GetEnd { value } => {
                let mut r = "GetEnd { value: ".to_owned();
                r.append(value.as_str());
                r.append(" }");
                r
            },
        }
    }
}

impl Report<String> {
    /// How grave the report is.
    pub fn level(&self) -> (r: Level)
        ensures
            r == self.graveness(),
    {
        match self {
            Report::Error { .. } => Level::Error,
            _ => Level::Info,
        }
    }

    /// The form of the report in a line of the log.
    pub fn debug_text(&self) -> (r: String)
        ensures
            r@ == report_line(self@),
    {
        match self {
            Report::Error { err } => {
                let mut r = "Error { err: ".to_owned();
                r.append(err.as_str());
                r.append(" }");
                r
            },
            Report::Message { message } => {
                let mut r = "Message { message: ".to_owned();
                r.append(message.as_str());
                r.append(" }");
                r
            },
            Report::ObjectOperation { object_type, object_id, operation } => {
                let mut r = "ObjectOperation { object_type: ".to_owned();
                r.append(object_type.as_str());
                r.append(", object_id: ");
                r.append(object_id.as_str());
                r.append(", operation: ");
                r.append(operation.debug_text().as_str());
                r.append(" }");
                r
            },
            Report::ObjectState { object_type, object_id, state } => {
                let mut r = "ObjectState { object_type: ".to_owned();
                r.append(object_type.as_str());
                r.append(", object_id: ");
                r.append(object_id.as_str());
                r.append(", state: ");
                r.append(state.as_str());
                r.append(" }");
                r
            },
        }
    }
}

/// The members of a record that tell of an operation.
pub open spec fn operation_members(operation: ObjectOperation<Seq<char>>) -> Seq<
    (Seq<char>, Seq<char>),
> {
    match operation {
        ObjectOperation::CreateStart { value } => seq![
            ("ObjectOperation"@, json::json_string("CreateStart"@)),
            ("ObjectValue"@, json::json_string(value)),
        ],
        ObjectOperation::CreateEnd => seq![
            ("ObjectOperation"@, json::json_string("CreateEnd"@)),
        ],
        ObjectOperation::DeleteStart => seq![
            ("ObjectOperation"@, json::json_string("DeleteStart"@)),
        ],
        ObjectOperation::DeleteEnd => seq![
            ("ObjectOperation"@, json::json_string("DeleteEnd"@)),
        ],
        ObjectOperation::GetStart => seq![("ObjectOperation"@, json::json_string("GetStart"@))],
        ObjectOperation::GetEnd { value } => seq![
            ("ObjectOperation"@, json::json_string("GetEnd"@)),
            ("ObjectValue"@, json::json_string(value)),
        ],
    }
}

/// The members of a record that tell of a report.
pub open spec fn report_members(report: Report<Seq<char>>) -> Seq<(Seq<char>, Seq<char>)> {
    match report {
        Report::Error { err } => seq![
            ("Level"@, json::json_string("Error"@)),
            ("Exception"@, json::json_string(err)),
        ],
        Report::Message { message } => seq![
            ("Level"@, json::json_string("Information"@)),
            ("Message"@, json::json_string(message)),
        ],
        Report::ObjectOperation { object_type, object_id, operation } => seq![
            ("Level"@, json::json_string("Information"@)),
            ("ObjectType"@, json::json_string(object_type)),
            ("ObjectId"@, json::json_string(object_id)),
        ] + operation_members(operation),
        Report::ObjectState { object_type, object_id, state } => seq![
            ("Level"@, json::json_string("Information"@)),
            ("ObjectType"@, json::json_string(object_type)),
            ("ObjectId"@, json::json_string(object_id)),
            ("ObjectState"@, json::json_string(state)),
        ],
    }
}

/// The members of the record of a report, in their order.
pub open spec fn record_members(
    timestamp: Seq<char>,
    function_invocation_id: Option<Seq<char>>,
    sequence_number: nat,
    report: Report<Seq<char>>,
) -> Seq<(Seq<char>, Seq<char>)> {
    let invocation = match function_invocation_id {
        Some(id) => seq![("FunctionInvocationId"@, json::json_string(id))],
        None => seq![],
    };
    seq![(TIME_GENERATED_FIELD@, json::json_string(timestamp))] + invocation + seq![
        ("SequenceNumber"@, text::decimal(sequence_number)),
    ] + report_members(report)
}

/// The record of a report: a JSON object.
pub open spec fn record(
    timestamp: Seq<char>,
    function_invocation_id: Option<Seq<char>>,
    sequence_number: nat,
    report: Report<Seq<char>>,
) -> Seq<char> {
    json::json_object(record_members(timestamp, function_invocation_id, sequence_number, report))
}

/// Adds one member to a record, whose value is a string.
fn push_member<'a>(fields: &mut Vec<(&'a str, String)>, name: &'a str, value: &str)
    ensures
        json::members(final(fields)@) == json::members(old(fields)@).push(
            (name@, json::json_string(value@)),
        ),
{
    let ghost before = fields@;
    fields.push((name, json::string(value)));
    assert(json::members(fields@) =~= json::members(before).push(
        (name@, json::json_string(value@)),
    ));
}

/// Writes the record of a report.
pub fn serialize_record(
    timestamp: &str,
    function_invocation_id: &Option<String>,
    sequence_number: usize,
    report: &Report<String>,
) -> (r: String)
    ensures
        r@ == record(
            timestamp@,
            text::optional(*function_invocation_id),
            sequence_number as nat,
            report@,
        ),
{
    let mut fields: Vec<(&str, String)> = Vec::new();
    push_member(&mut fields, TIME_GENERATED_FIELD, timestamp);
    if let Some(id) = function_invocation_id {
        push_member(&mut fields, "FunctionInvocationId", id.as_str());
    }
    let ghost before = fields@;
    fields.push(("SequenceNumber", text::to_decimal(sequence_number as u64)));
    assert(json::members(fields@) =~= json::members(before).push(
        ("SequenceNumber"@, text::decimal(sequence_number as nat)),
    ));
    let ghost head = json::members(fields@);
    match report {
        Report::Error { err } => {
            push_member(&mut fields, "Level", "Error");
            push_member(&mut fields, "Exception", err.as_str());
        },
        Report::Message { message } => {
            push_member(&mut fields, "Level", "Information");
            push_member(&mut fields, "Message", message.as_str());
        },
        Report::ObjectOperation { object_type, object_id, operation } => {
            push_member(&mut fields, "Level", "Information");
            push_member(&mut fields, "ObjectType", object_type.as_str());
            push_member(&mut fields, "ObjectId", object_id.as_str());
            match operation {
                ObjectOperation::CreateStart { value } => {
                    push_member(&mut fields, "ObjectOperation", "CreateStart");
                    push_member(&mut fields, "ObjectValue", value.as_str());
                },
                ObjectOperation::CreateEnd => {
                    push_member(&mut fields, "ObjectOperation", "CreateEnd");
                },
                ObjectOperation::DeleteStart => {
                    push_member(&mut fields, "ObjectOperation", "DeleteStart");
                },
                ObjectOperation::DeleteEnd => {
                    push_member(&mut fields, "ObjectOperation", "DeleteEnd");
                },
                ObjectOperation::GetStart => {
                    push_member(&mut fields, "ObjectOperation", "GetStart");
                },
                ObjectOperation::GetEnd { value } => {
                    push_member(&mut fields, "ObjectOperation", "GetEnd");
                    push_member(&mut fields, "ObjectValue", value.as_str());
                },
            }
        },
        Report::ObjectState { object_type, object_id, state } => {
            push_member(&mut fields, "Level", "Information");
            push_member(&mut fields, "ObjectType", object_type.as_str());
            push_member(&mut fields, "ObjectId", object_id.as_str());
            push_member(&mut fields, "ObjectState", state.as_str());
        },
    }
    proof {
        let invocation = match text::optional(*function_invocation_id) {
            Some(id) => seq![("FunctionInvocationId"@, json::json_string(id))],
            None => seq![],
        };
        let expected_head = seq![(TIME_GENERATED_FIELD@, json::json_string(timestamp@))]
            + invocation + seq![("SequenceNumber"@, text::decimal(sequence_number as nat))];
        assert(head =~= expected_head);
        assert(json::members(fields@) =~= expected_head + report_members(report@));
    }
    json::object(&fields)
}

/// The log of one invocation of a function, or of what happens outside of invocations.
#[derive(Debug)]
pub struct Logger {
    function_invocation_id: Option<String>,
    sequence_number: usize,
    records: Option<String>,
}

/// What a log holds.
#[verifier::ext_equal]
pub struct LoggerView {
    /// The invocation that the log is about.
    pub function_invocation_id: Option<Seq<char>>,
    /// How many reports there were.
    pub sequence_number: nat,
    /// The records that have not been taken yet, where the log keeps records.
    pub records: Option<Seq<char>>,
}

impl View for Logger {
    type V = LoggerView;

    closed spec fn view(&self) -> LoggerView {
        LoggerView {
            function_invocation_id: text::optional(self.function_invocation_id),
            sequence_number: self.sequence_number as nat,
            records: text::optional(self.records),
        }
    }
}

/// The log after one more report.
pub open spec fn reported(
    logger: LoggerView,
    timestamp: Seq<char>,
    report: Report<Seq<char>>,
) -> LoggerView {
    let sequence_number = logger.sequence_number + 1;
    let record = record(timestamp, logger.function_invocation_id, sequence_number, report);
    LoggerView {
        function_invocation_id: logger.function_invocation_id,
        sequence_number,
        records: match logger.records {
            None => None,
            Some(records) => Some(
                if records.len() == 0 {
                    record
                } else {
                    records + ","@ + record
                },
            ),
        },
    }
}

/// The line that a report adds to the log.
pub open spec fn log_line(timestamp: Seq<char>, report: Report<Seq<char>>) -> Seq<char> {
    "["@ + timestamp + "] "@ + report_line(report)
}

/// Whether a report has left a log and a line behind.
pub open spec fn was_reported(
    before: LoggerView,
    after: LoggerView,
    report: Report<Seq<char>>,
    line: Seq<char>,
    timestamp: Seq<char>,
) -> bool {
    after == reported(before, timestamp, report) && line == log_line(timestamp, report)
}

/// Whether a report, at some time, has left a log and a line behind.
pub open spec fn has_reported(
    before: LoggerView,
    after: LoggerView,
    report: Report<Seq<char>>,
    line: Seq<char>,
) -> bool {
    exists|timestamp: Seq<char>|
        is_timestamp(timestamp) && #[trigger] was_reported(before, after, report, line, timestamp)
}

/// A point in time in the form of RFC 3339, with milliseconds and a `Z`, where `chrono` can hold it. It is
/// given in milliseconds since the Unix epoch.
pub uninterp spec fn rfc3339_millis(millis: i64) -> Option<Seq<char>>;

/// Whether a text is a point in time in the form of RFC 3339, with milliseconds and a `Z`.
pub open spec fn is_timestamp(s: Seq<char>) -> bool {
    exists|millis: i64| 0 <= millis && #[trigger] rfc3339_millis(millis) == Some(s)
}

/// `chrono::DateTime::to_rfc3339_opts`, with milliseconds and a `Z`, on the time that
/// `chrono::DateTime::from_timestamp_millis` makes.
#[verifier::external_body]
fn show_millis(millis: i64) -> (r: Option<String>)
    ensures
        text::optional(r) == rfc3339_millis(millis),
{
    let time = chrono::DateTime::from_timestamp_millis(millis)?;
    Some(time.to_rfc3339_opts(chrono::SecondsFormat::Millis, true))
}

/// `chrono::Utc::now`, in milliseconds since the Unix epoch. The time is whatever the clock says, but not
/// before the epoch, and `chrono` can hold it.
#[verifier::external_body]
fn now_millis() -> (r: i64)
    ensures
        0 <= r,
        rfc3339_millis(r) is Some,
{
    chrono::Utc::now().timestamp_millis()
}

/// The time that the clock says, in the form of RFC 3339.
fn timestamp_now() -> (r: String)
    ensures
        is_timestamp(r@),
{
    let millis: i64 = now_millis();
    let r = show_millis(millis).unwrap();
    assert(rfc3339_millis(millis) == Some(r@));
    r
}

impl Logger {
    /// An empty log, which keeps records or does not.
    pub fn new(function_invocation_id: Option<String>, persist_records: bool) -> (r: Logger)
        ensures
            r@ == (LoggerView {
                function_invocation_id: text::optional(function_invocation_id),
                sequence_number: 0,
                records: if persist_records {
                    Some(Seq::empty())
                } else {
                    None
                },
            }),
    {
        let records = if persist_records {
            Some(String::new())
        } else {
            None
        };
        Logger { function_invocation_id, sequence_number: 0, records }
    }

    /// Reports something at a certain time. The result is the line for the log.
    pub fn report_at(&mut self, timestamp: &str, report: &Report<String>) -> (r: String)
        requires
            old(self)@.sequence_number < usize::MAX,
        ensures
            was_reported(old(self)@, final(self)@, report@, r@, timestamp@),
    {
        self.sequence_number = self.sequence_number + 1;
        let sequence_number: usize = self.sequence_number;
        let kept = self.records.take();
        if let Some(records) = kept {
            let mut records = records;
            let record = serialize_record(
                timestamp,
                &self.function_invocation_id,
                sequence_number,
                report,
            );
            if !records.as_str().is_empty() {
                records.append(",");
                records.append(record.as_str());
                self.records = Some(records);
            } else {
                self.records = Some(record);
            }
        }
        let mut line = "[".to_owned();
        line.append(timestamp);
        line.append("] ");
        line.append(report.debug_text().as_str());
        line
    }

    /// Reports something now. The result is the line for the log.
    pub fn report(&mut self, report: &Report<String>) -> (r: String)
        requires
            old(self)@.sequence_number < usize::MAX,
        ensures
            has_reported(old(self)@, final(self)@, report@, r@),
    {
        let timestamp = timestamp_now();
        self.report_at(timestamp.as_str(), report)
    }

    /// Reports an error, which is given in its `Debug` form.
    pub fn report_error(&mut self, err: &str) -> (r: String)
        requires
            old(self)@.sequence_number < usize::MAX,
        ensures
            has_reported(
                old(self)@,
                final(self)@,
                Report::Error { err: err@ },
                r@,
            ),
    {
        self.report(&Report::Error { err: err.to_owned() })
    }

    /// Reports a message.
    pub fn report_message(&mut self, message: &str) -> (r: String)
        requires
            old(self)@.sequence_number < usize::MAX,
        ensures
            has_reported(
                old(self)@,
                final(self)@,
                Report::Message { message: message@ },
                r@,
            ),
    {
        self.report(&Report::Message { message: message.to_owned() })
    }

    /// Reports the state of an object.
    pub fn report_state(&mut self, object_type: &str, object_id: &str, state: &str) -> (r: String)
        requires
            old(self)@.sequence_number < usize::MAX,
        ensures
            has_reported(
                old(self)@,
                final(self)@,
                Report::ObjectState {
                    object_type: object_type@,
                    object_id: object_id@,
                    state: state@,
                },
                r@,
            ),
    {
        self.report(
            &Report::ObjectState {
                object_type: object_type.to_owned(),
                object_id: object_id.to_owned(),
                state: state.to_owned(),
            },
        )
    }

    /// Reports that an operation on an object starts. How it has ended goes to
    /// [`Logger::report_outcome`].
    pub fn report_operation(&mut self, scope: &Scope) -> (r: String)
        requires
            old(self)@.sequence_number < usize::MAX,
        ensures
            has_reported(old(self)@, final(self)@, start_report(scope@), r@),
    {
        self.report(
            &Report::ObjectOperation {
                object_type: scope.object_type.clone(),
                object_id: scope.object_id.clone(),
                operation: scope.operation.start(),
            },
        )
    }

    /// Reports how an operation on an object has ended, and hands its outcome on. One that ends well is
    /// reported, with its value in the form that the value has in the log; one that fails leaves no
    /// report. The first result is the line for the log, where there is one.
    pub fn report_outcome<T: Shown>(&mut self, scope: &Scope, outcome: Result<T, Error>) -> (r: (
        Option<String>,
        Result<T, Error>,
    ))
        requires
            outcome is Ok ==> old(self)@.sequence_number < usize::MAX,
        ensures
            r.1 == outcome,
            match outcome {
                Ok(value) => r.0 matches Some(line) && has_reported(
                    old(self)@,
                    final(self)@,
                    end_report(scope@, T::shown(value@)),
                    line@,
                ),
                Err(_) => r.0 is None && final(self)@ == old(self)@,
            },
    {
        match outcome {
            Ok(value) => {
                let report = Report::ObjectOperation {
                    object_type: scope.object_type.clone(),
                    object_id: scope.object_id.clone(),
                    operation: scope.operation.end(value.show().as_str()),
                };
                assert(report@ == end_report(scope@, T::shown(value@)));
                let line = self.report(&report);
                (Some(line), Ok(value))
            },
            Err(err) => (None, Err(err)),
        }
    }

    /// Takes the records out of the log, which goes on without them.
    pub fn take_records(&mut self) -> (r: Vec<u8>)
        ensures
            r@ == utf8::encode_utf8(untaken(old(self)@)),
            final(self)@ == without_records(old(self)@),
    {
        match self.records.take() {
            Some(records) => {
                self.records = Some(String::new());
                text::bytes_of(records.as_str())
            },
            None => {
                let none = String::new();
                text::bytes_of(none.as_str())
            },
        }
    }
}

/// The records that have not been taken out of a log.
pub open spec fn untaken(logger: LoggerView) -> Seq<char> {
    match logger.records {
        Some(records) => records,
        None => Seq::empty(),
    }
}

/// A log whose records have been taken.
pub open spec fn without_records(logger: LoggerView) -> LoggerView {
    LoggerView {
        records: match logger.records {
            Some(_) => Some(Seq::empty()),
            None => None,
        },
        ..logger
    }
}

/// A log after some reports, each at its time.
pub open spec fn all_reported(
    logger: LoggerView,
    reports: Seq<(Seq<char>, Report<Seq<char>>)>,
) -> LoggerView
    decreases reports.len(),
{
    if reports.len() == 0 {
        logger
    } else {
        let (timestamp, report) = reports.last();
        reported(all_reported(logger, reports.drop_last()), timestamp, report)
    }
}

/// The records of some reports to a log: each has the next number.
pub open spec fn records_of(
    logger: LoggerView,
    reports: Seq<(Seq<char>, Report<Seq<char>>)>,
) -> Seq<Seq<char>> {
    Seq::new(
        reports.len(),
        |i: int|
            record(
                reports[i].0,
                logger.function_invocation_id,
                (logger.sequence_number + i + 1) as nat,
                reports[i].1,
            ),
    )
}

/// The reports are counted without gaps, and stay those of one invocation.
pub proof fn reports_are_numbered(
    logger: LoggerView,
    reports: Seq<(Seq<char>, Report<Seq<char>>)>,
)
    ensures
        all_reported(logger, reports).sequence_number == logger.sequence_number + reports.len(),
        all_reported(logger, reports).function_invocation_id == logger.function_invocation_id,
        logger.records is None ==> all_reported(logger, reports).records is None,
    decreases reports.len(),
{
    if reports.len() > 0 {
        reports_are_numbered(logger, reports.drop_last());
    }
}

/// A record is not empty.
proof fn lemma_record_not_empty(
    timestamp: Seq<char>,
    function_invocation_id: Option<Seq<char>>,
    sequence_number: nat,
    report: Report<Seq<char>>,
)
    ensures
        record(timestamp, function_invocation_id, sequence_number, report).len() > 0,
{
    reveal_strlit("{");
}

/// What a log has kept, where it keeps records and all of them had been taken before, is the records
/// of all the reports since then, in the order of the reports and with commas between them.
pub proof fn records_are_the_reports(
    logger: LoggerView,
    reports: Seq<(Seq<char>, Report<Seq<char>>)>,
)
    requires
        logger.records == Some(Seq::<char>::empty()),
    ensures
        all_reported(logger, reports).records == Some(
            json::comma_separated(records_of(logger, reports)),
        ),
        reports.len() > 0 ==> untaken(all_reported(logger, reports)).len() > 0,
    decreases reports.len(),
{
    let records = records_of(logger, reports);
    if reports.len() == 0 {
        assert(json::comma_separated(records) =~= Seq::<char>::empty());
    } else {
        let before = reports.drop_last();
        records_are_the_reports(logger, before);
        reports_are_numbered(logger, before);
        lemma_record_not_empty(
            reports.last().0,
            logger.function_invocation_id,
            logger.sequence_number + reports.len(),
            reports.last().1,
        );
        assert(records.drop_last() =~= records_of(logger, before));
        assert(records.last() == record(
            reports.last().0,
            logger.function_invocation_id,
            logger.sequence_number + reports.len(),
            reports.last().1,
        ));
        if before.len() == 0 {
            assert(records_of(logger, before) =~= Seq::<Seq<char>>::empty());
        }
    }
}

/// Taking the records between two reports neither loses a record nor repeats one: what was taken,
/// followed by what was kept afterwards, is the records of all the reports.
pub proof fn taking_records_loses_nothing(
    logger: LoggerView,
    taken: Seq<(Seq<char>, Report<Seq<char>>)>,
    kept: Seq<(Seq<char>, Report<Seq<char>>)>,
)
    requires
        logger.records == Some(Seq::<char>::empty()),
    ensures
        ({
            let at_taking = all_reported(logger, taken);
            let afterwards = all_reported(without_records(at_taking), kept);
            &&& untaken(at_taking) == json::comma_separated(records_of(logger, taken))
            &&& untaken(afterwards) == json::comma_separated(
                records_of(without_records(at_taking), kept),
            )
            &&& records_of(logger, taken) + records_of(without_records(at_taking), kept)
                == records_of(logger, taken + kept)
        }),
{
    let at_taking = all_reported(logger, taken);
    records_are_the_reports(logger, taken);
    reports_are_numbered(logger, taken);
    records_are_the_reports(without_records(at_taking), kept);
    assert(records_of(logger, taken) + records_of(without_records(at_taking), kept)
        =~= records_of(logger, taken + kept));
}

/// What an operation leaves in a log that reports nothing else meanwhile: its start, and, where it ends
/// well, its end.
pub open spec fn operation_reported(
    logger: LoggerView,
    scope: ScopeView,
    at_start: Seq<char>,
    at_end: Seq<char>,
    outcome: Result<Seq<char>, Seq<Seq<char>>>,
) -> LoggerView {
    let after_start = reported(logger, at_start, start_report(scope));
    match outcome {
        Ok(shown) => reported(after_start, at_end, end_report(scope, shown)),
        Err(_) => after_start,
    }
}

/// An operation leaves two records, of its start and of its end, if it ends well, and else only the
/// first. Both are about the same object. A value is in the record of the start of a creation and in
/// that of the end of a look, and in no other.
pub proof fn an_operation_leaves_its_records(
    logger: LoggerView,
    scope: ScopeView,
    at_start: Seq<char>,
    at_end: Seq<char>,
    outcome: Result<Seq<char>, Seq<Seq<char>>>,
)
    requires
        logger.records == Some(Seq::<char>::empty()),
    ensures
        ({
            let reports = match outcome {
                Ok(shown) => seq![
                    (at_start, start_report(scope)),
                    (at_end, end_report(scope, shown)),
                ],
                Err(_) => seq![(at_start, start_report(scope))],
            };
            untaken(operation_reported(logger, scope, at_start, at_end, outcome))
                == json::comma_separated(records_of(logger, reports))
        }),
        start_report(scope) matches Report::ObjectOperation { object_type, object_id, operation }
            && object_type == scope.object_type && object_id == scope.object_id && operation == (
        match scope.operation {
            ScopedObjectOperation::Create { value } => ObjectOperation::CreateStart { value },
            ScopedObjectOperation::Delete => ObjectOperation::DeleteStart,
            ScopedObjectOperation::Get => ObjectOperation::GetStart,
        }),
        outcome matches Ok(shown) ==> (end_report(scope, shown) matches Report::ObjectOperation {
            object_type,
            object_id,
            operation,
        } && object_type == scope.object_type && object_id == scope.object_id && operation == (
        match scope.operation {
            ScopedObjectOperation::Create { .. } => ObjectOperation::CreateEnd,
            ScopedObjectOperation::Delete => ObjectOperation::DeleteEnd,
            ScopedObjectOperation::Get => ObjectOperation::GetEnd { value: shown },
        })),
{
    let first = seq![(at_start, start_report(scope))];
    assert(first.drop_last() =~= seq![]);
    assert(all_reported(logger, first.drop_last()) == logger);
    assert(all_reported(logger, first) == reported(logger, at_start, start_report(scope)));
    match outcome {
        Ok(shown) => {
            let both = seq![(at_start, start_report(scope)), (at_end, end_report(scope, shown))];
            assert(both.drop_last() =~= first);
            records_are_the_reports(logger, both);
        },
        Err(_) => {
            records_are_the_reports(logger, first);
        },
    }
}

/// A secret leaves no trace in the log: whatever its value, the log is the same.
pub proof fn a_secret_is_not_shown<T: View>(scope: ScopeView, one: T::V, other: T::V)
    ensures
        <Secret<T> as Shown>::shown(one) == <Secret<T> as Shown>::shown(other),
        end_report(scope, <Secret<T> as Shown>::shown(one)) == end_report(
            scope,
            <Secret<T> as Shown>::shown(other),
        ),
{
}

/// Whether there is a member with a name.
pub open spec fn has_member(members: Seq<(Seq<char>, Seq<char>)>, name: Seq<char>) -> bool {
    exists|i: int| 0 <= i < members.len() && (#[trigger] members[i]).0 == name
}

/// Whether a member has a name and a value.
pub open spec fn has_value(
    members: Seq<(Seq<char>, Seq<char>)>,
    name: Seq<char>,
    value: Seq<char>,
) -> bool {
    exists|i: int| 0 <= i < members.len() && #[trigger] members[i] == (name, value)
}

/// Whether no two members have the same name.
pub open spec fn are_distinct(members: Seq<(Seq<char>, Seq<char>)>) -> bool {
    forall|i: int, j: int|
        0 <= i < j < members.len() ==> (#[trigger] members[i]).0 != (#[trigger] members[j]).0
}

/// The number of conditions that hold, out of four.
pub open spec fn how_many(a: bool, b: bool, c: bool, d: bool) -> int {
    (if a { 1int } else { 0 }) + (if b { 1int } else { 0 }) + (if c { 1int } else { 0 }) + (if d {
        1int
    } else {
        0
    })
}

/// Every record has the members `TimeCollected`, `SequenceNumber` and `Level`, and exactly one of
/// `Exception`, `Message`, `ObjectOperation` and `ObjectState`. The level is that of an error if there is
/// an `Exception`, and else that of an information. There are an `ObjectType` and an `ObjectId` if and
/// only if there is an `ObjectOperation` or an `ObjectState`, and an `ObjectValue` if and only if the
/// report is of the start of a creation or of the end of a look. No member occurs twice.
pub proof fn records_have_their_members(
    timestamp: Seq<char>,
    function_invocation_id: Option<Seq<char>>,
    sequence_number: nat,
    report: Report<Seq<char>>,
)
    ensures
        ({
            let members = record_members(
                timestamp,
                function_invocation_id,
                sequence_number,
                report,
            );
            let exception = has_member(members, "Exception"@);
            let message = has_member(members, "Message"@);
            let operation = has_member(members, "ObjectOperation"@);
            let state = has_member(members, "ObjectState"@);
            &&& record(timestamp, function_invocation_id, sequence_number, report)
                == json::json_object(members)
            &&& are_distinct(members)
            &&& has_value(members, "TimeCollected"@, json::json_string(timestamp))
            &&& has_value(members, "SequenceNumber"@, text::decimal(sequence_number))
            &&& has_member(members, "FunctionInvocationId"@) <==> function_invocation_id is Some
            &&& how_many(exception, message, operation, state) == 1
            &&& has_value(
                members,
                "Level"@,
                json::json_string(
                    if exception {
                        "Error"@
                    } else {
                        "Information"@
                    },
                ),
            )
            &&& has_member(members, "ObjectType"@) <==> operation || state
            &&& has_member(members, "ObjectId"@) <==> operation || state
            &&& has_member(members, "ObjectValue"@) <==> (report matches Report::ObjectOperation {
                operation,
                ..
            } && (operation is CreateStart || operation is GetEnd))
        }),
{
    let members = record_members(timestamp, function_invocation_id, sequence_number, report);
    lemma_names();
    let n = members.len();
    let from = n - report_members(report).len();
    assert(members[0] == ("TimeCollected"@, json::json_string(timestamp)));
    assert(members[from - 1] == ("SequenceNumber"@, text::decimal(sequence_number)));
    assert(function_invocation_id matches Some(id) ==> members[1] == (
        "FunctionInvocationId"@,
        json::json_string(id),
    ));
    assert forall|i: int| from <= i < n implies members[i] == report_members(report)[i - from] by {}
    assert(members[from] == report_members(report)[0]);
    assert(members[from + 1] == report_members(report)[1]);
    if report_members(report).len() > 2 {
        assert(members[from + 2] == report_members(report)[2]);
        assert(members[from + 3] == report_members(report)[3]);
    }
    if report_members(report).len() > 4 {
        assert(members[from + 4] == report_members(report)[4]);
    }
}

/// The names of the members of a record are different.
proof fn lemma_names()
    ensures
        TIME_GENERATED_FIELD@ == "TimeCollected"@,
        "TimeCollected"@.len() == 13,
        "FunctionInvocationId"@.len() == 20,
        "SequenceNumber"@.len() == 14,
        "Level"@.len() == 5,
        "Exception"@.len() == 9,
        "Message"@.len() == 7,
        "ObjectType"@.len() == 10,
        "ObjectId"@.len() == 8,
        "ObjectOperation"@.len() == 15,
        "ObjectValue"@.len() == 11,
        "ObjectState"@.len() == 11,
        "ObjectValue"@ != "ObjectState"@,
{
    reveal_strlit("TimeCollected");
    reveal_strlit("FunctionInvocationId");
    reveal_strlit("SequenceNumber");
    reveal_strlit("Level");
    reveal_strlit("Exception");
    reveal_strlit("Message");
    reveal_strlit("ObjectType");
    reveal_strlit("ObjectId");
    reveal_strlit("ObjectOperation");
    reveal_strlit("ObjectValue");
    reveal_strlit("ObjectState");
    assert("ObjectValue"@[6] != "ObjectState"@[6]);
}

/// The record of a report tells what the report tells: its time, its invocation where there is one, its
/// number, and then how grave it is and what it is about, each in a member of its own and as it is.
pub proof fn a_record_tells_what_its_report_tells(
    timestamp: Seq<char>,
    invocation: Option<Seq<char>>,
    number: nat,
    report: Report<Seq<char>>,
)
    ensures
        ({
            let string = |name: Seq<char>, value: Seq<char>| (name, json::json_string(value));
            let told = match report {
                Report::Error { err } => seq![string("Level"@, "Error"@), string("Exception"@, err)],
                Report::Message { message } => seq![
                    string("Level"@, "Information"@),
                    string("Message"@, message),
                ],
                Report::ObjectOperation { object_type, object_id, operation } => {
                    let about = seq![
                        string("Level"@, "Information"@),
                        string("ObjectType"@, object_type),
                        string("ObjectId"@, object_id),
                    ];
                    match operation {
                        ObjectOperation::CreateStart { value } => about + seq![
                            string("ObjectOperation"@, "CreateStart"@),
                            string("ObjectValue"@, value),
                        ],
                        ObjectOperation::CreateEnd => about + seq![
                            string("ObjectOperation"@, "CreateEnd"@),
                        ],
                        ObjectOperation::DeleteStart => about + seq![
                            string("ObjectOperation"@, "DeleteStart"@),
                        ],
                        ObjectOperation::DeleteEnd => about + seq![
                            string("ObjectOperation"@, "DeleteEnd"@),
                        ],
                        ObjectOperation::GetStart => about + seq![
                            string("ObjectOperation"@, "GetStart"@),
                        ],
                        ObjectOperation::GetEnd { value } => about + seq![
                            string("ObjectOperation"@, "GetEnd"@),
                            string("ObjectValue"@, value),
                        ],
                    }
                },
                Report::ObjectState { object_type, object_id, state } => seq![
                    string("Level"@, "Information"@),
                    string("ObjectType"@, object_type),
                    string("ObjectId"@, object_id),
                    string("ObjectState"@, state),
                ],
            };
            let first = match invocation {
                Some(id) => seq![
                    string("TimeCollected"@, timestamp),
                    string("FunctionInvocationId"@, id),
                ],
                None => seq![string("TimeCollected"@, timestamp)],
            };
            record(timestamp, invocation, number, report) == json::json_object(
                first + seq![("SequenceNumber"@, text::decimal(number))] + told,
            )
        }),
{
    let members = record_members(timestamp, invocation, number, report);
    match invocation {
        Some(id) => {
            let first = seq![
                ("TimeCollected"@, json::json_string(timestamp)),
                ("FunctionInvocationId"@, json::json_string(id)),
            ];
            assert(members =~= first + seq![("SequenceNumber"@, text::decimal(number))] + report_members(
                report,
            ));
        },
        None => {
            let first = seq![("TimeCollected"@, json::json_string(timestamp))];
            assert(members =~= first + seq![("SequenceNumber"@, text::decimal(number))] + report_members(
                report,
            ));
        },
    }
}

/// A report gets the next number, and its record goes behind those that are there, with a comma between
/// them. A log that keeps no records still counts.
pub proof fn a_report_gets_the_next_number(
    logger: LoggerView,
    timestamp: Seq<char>,
    report: Report<Seq<char>>,
)
    ensures
        ({
            let after = reported(logger, timestamp, report);
            let added = record(
                timestamp,
                logger.function_invocation_id,
                logger.sequence_number + 1,
                report,
            );
            &&& after.sequence_number == logger.sequence_number + 1
            &&& after.function_invocation_id == logger.function_invocation_id
            &&& match logger.records {
                None => after.records is None,
                Some(records) => after.records == Some(
                    if records.len() == 0 {
                        added
                    } else {
                        records + seq![','] + added
                    },
                ),
            }
        }),
{
    reveal_strlit(",");
    assert(","@ =~= seq![',']);
}

/// A line of the log tells its time and all that its report tells.
pub proof fn a_line_tells_its_report(timestamp: Seq<char>, report: Report<Seq<char>>)
    ensures
        log_line(timestamp, report) == "["@ + timestamp + "] "@ + match report {
            Report::Error { err } => "Error { err: "@ + err + " }"@,
            Report::Message { message } => "Message { message: "@ + message + " }"@,
            Report::ObjectOperation { object_type, object_id, operation } =>
                "ObjectOperation { object_type: "@ + object_type + ", object_id: "@ + object_id
                + ", operation: "@ + match operation {
                ObjectOperation::CreateStart { value } => "CreateStart { value: "@ + value + " }"@,
                ObjectOperation::CreateEnd => "CreateEnd"@,
                ObjectOperation::DeleteStart => "DeleteStart"@,
                ObjectOperation::DeleteEnd => "DeleteEnd"@,
                ObjectOperation::GetStart => "GetStart"@,
                ObjectOperation::GetEnd { value } => "GetEnd { value: "@ + value + " }"@,
            } + " }"@,
            Report::ObjectState { object_type, object_id, state } =>
                "ObjectState { object_type: "@ + object_type + ", object_id: "@ + object_id
                + ", state: "@ + state + " }"@,
        },
        report.graveness() is Error <==> report is Error,
{
}

/// Simple values have their own forms in the log, and a secret has the same one whatever it is.
pub proof fn values_have_their_forms<T: View>(s: Seq<char>, b: bool, secret: T::V)
    ensures
        <Secret<T> as Shown>::shown(secret) == "******"@,
        <String as Shown>::shown(s) == text::quoted(s),
        <bool as Shown>::shown(b) == if b {
            seq!['t', 'r', 'u', 'e']
        } else {
            seq!['f', 'a', 'l', 's', 'e']
        },
        <() as Shown>::shown(()) == "()"@,
        optional_shown(Some(s)) == "Some("@ + s + ")"@,
        optional_shown(None) == "None"@,
{
    json::a_truth_value_is_a_word(b);
}

/// Taking the records out of a log leaves none, and leaves its invocation and its count as they are.
pub proof fn taken_records_are_gone(logger: LoggerView)
    ensures
        untaken(without_records(logger)).len() == 0,
        without_records(logger).records is Some <==> logger.records is Some,
        without_records(logger).sequence_number == logger.sequence_number,
        without_records(logger).function_invocation_id == logger.function_invocation_id,
        logger.records matches Some(records) ==> untaken(logger) == records,
        logger.records is None ==> untaken(logger).len() == 0,
{
}

/// The views of some reports are the views of each of them, at its place, and tell what the report tells.
pub proof fn reports_are_viewed_as_they_are(reports: Seq<Report<String>>, report: Report<String>)
    ensures
        reports_view(reports).len() == reports.len(),
        forall|i: int| 0 <= i < reports.len() ==> #[trigger] reports_view(reports)[i] == reports[i]@,
        match report {
            Report::Error { err } => report@ == (Report::<Seq<char>>::Error { err: err@ }),
            Report::Message { message } => report@ == (Report::<Seq<char>>::Message {
                message: message@,
            }),
            Report::ObjectOperation { object_type, object_id, operation } => report@ == (Report::<
                Seq<char>,
            >::ObjectOperation {
                object_type: object_type@,
                object_id: object_id@,
                operation: operation@,
            }),
            Report::ObjectState { object_type, object_id, state } => report@ == (Report::<
                Seq<char>,
            >::ObjectState { object_type: object_type@, object_id: object_id@, state: state@ }),
        },
{
}

} // verus!
