use acme_azure_function::error::Error;
use acme_azure_function::http_common::Uri;
use acme_azure_function::log2::{
    self, Level, Logger, ObjectId, ObjectOperation, Report, Scope, ScopedObjectOperation, Secret,
    Shown,
};

const TIME: &str = "2024-01-02T03:04:05.678Z";

fn message(s: &str) -> Report<String> {
    log2::message_report(s.to_owned())
}

#[test]
fn records_are_json_objects() {
    assert_eq!(
        log2::serialize_record(TIME, &None, 1, &message("a \"b\"")),
        r#"{"TimeCollected":"2024-01-02T03:04:05.678Z","SequenceNumber":1,"Level":"Information","Message":"a \"b\""}"#
    );
    assert_eq!(
        log2::serialize_record(TIME, &Some("id".to_owned()), 2, &Report::Error { err: "oh".to_owned() }),
        r#"{"TimeCollected":"2024-01-02T03:04:05.678Z","FunctionInvocationId":"id","SequenceNumber":2,"Level":"Error","Exception":"oh"}"#
    );
    assert_eq!(
        log2::serialize_record(TIME, &None, 3, &log2::state_report("t", "i", "s".to_owned())),
        r#"{"TimeCollected":"2024-01-02T03:04:05.678Z","SequenceNumber":3,"Level":"Information","ObjectType":"t","ObjectId":"i","ObjectState":"s"}"#
    );
}

#[test]
fn operations_are_recorded() {
    let record = |operation: ObjectOperation<String>| {
        log2::serialize_record(TIME, &None, 1, &Report::ObjectOperation {
            object_type: "t".to_owned(),
            object_id: "i".to_owned(),
            operation,
        })
    };
    let head = r#"{"TimeCollected":"2024-01-02T03:04:05.678Z","SequenceNumber":1,"Level":"Information","ObjectType":"t","ObjectId":"i","#;
    let create = ScopedObjectOperation::Create { value: "v".to_owned() };
    assert_eq!(record(create.start()), format!(r#"{head}"ObjectOperation":"CreateStart","ObjectValue":"v"}}"#));
    assert_eq!(record(create.end("r")), format!(r#"{head}"ObjectOperation":"CreateEnd"}}"#));
    let delete = ScopedObjectOperation::<String>::Delete;
    assert_eq!(record(delete.start()), format!(r#"{head}"ObjectOperation":"DeleteStart"}}"#));
    assert_eq!(record(delete.end("r")), format!(r#"{head}"ObjectOperation":"DeleteEnd"}}"#));
    let get = ScopedObjectOperation::<String>::Get;
    assert_eq!(record(get.start()), format!(r#"{head}"ObjectOperation":"GetStart"}}"#));
    assert_eq!(record(get.end("r")), format!(r#"{head}"ObjectOperation":"GetEnd","ObjectValue":"r"}}"#));
}

#[test]
fn reports_become_lines() {
    let mut logger = Logger::new(None, false);
    assert_eq!(
        logger.report_at(TIME, &message("hello")),
        "[2024-01-02T03:04:05.678Z] Message { message: hello }"
    );
    assert_eq!(Report::Error { err: "oh".to_owned() }.debug_text(), "Error { err: oh }");
    assert_eq!(
        log2::state_report("t", "i", "s".to_owned()).debug_text(),
        "ObjectState { object_type: t, object_id: i, state: s }"
    );
    let scope = Scope::create("t", "i".to_owned(), "v".to_owned());
    let report = Report::ObjectOperation {
        object_type: scope.object_type,
        object_id: scope.object_id,
        operation: scope.operation.start(),
    };
    assert_eq!(
        report.debug_text(),
        "ObjectOperation { object_type: t, object_id: i, operation: CreateStart { value: v } }"
    );
    assert_eq!(report.level(), Level::Info);
    assert_eq!(Report::Error { err: String::new() }.level(), Level::Error);
}

#[test]
fn records_are_numbered_and_taken_once() {
    let mut logger = Logger::new(Some("id".to_owned()), true);
    let _ = logger.report_at(TIME, &message("a"));
    let _ = logger.report_at(TIME, &message("b"));
    let record = |n: usize, s: &str| log2::serialize_record(TIME, &Some("id".to_owned()), n, &message(s));
    let taken = String::from_utf8(logger.take_records()).unwrap();
    assert_eq!(taken, format!("{},{}", record(1, "a"), record(2, "b")));
    assert!(logger.take_records().is_empty());
    let _ = logger.report_at(TIME, &message("c"));
    assert_eq!(String::from_utf8(logger.take_records()).unwrap(), record(3, "c"));
}

#[test]
fn a_log_may_keep_no_records() {
    let mut logger = Logger::new(None, false);
    let _ = logger.report_message("a");
    assert!(logger.take_records().is_empty());
}

fn records(logger: &mut Logger) -> Vec<serde_json::Value> {
    let records = String::from_utf8(logger.take_records()).unwrap();
    serde_json::from_str(&format!("[{records}]")).unwrap()
}

#[test]
fn reports_are_made_now() {
    let mut logger = Logger::new(None, true);
    let scope = Scope::get("t", "i".to_owned());
    for line in [
        logger.report_error("oh"),
        logger.report_message("hello"),
        logger.report_state("t", "i", "s"),
        logger.report_operation(&scope),
        logger.report_outcome(&scope, Ok("r".to_owned())).0.unwrap(),
    ] {
        // The time has milliseconds and is in UTC.
        assert_eq!(&line[..1], "[");
        assert_eq!(&line[24..27], "Z] ", "{line}");
        assert_eq!(&line[20..21], ".", "{line}");
    }
    let records = records(&mut logger);
    assert_eq!(records.len(), 5);
    assert_eq!(records[4]["SequenceNumber"], 5);
    assert_eq!(records[4]["ObjectValue"], "\"r\"");
}

#[test]
fn only_what_ends_well_is_reported_to_end() {
    let mut logger = Logger::new(None, true);
    let scope = Scope::get("t", "i".to_owned());
    let _ = logger.report_operation(&scope);
    let (line, outcome) = logger.report_outcome::<bool>(&scope, Err(Error::new("oh")));
    assert!(line.is_none());
    assert_eq!(outcome.unwrap_err().chain, ["oh"]);
    let _ = logger.report_operation(&scope);
    let (line, outcome) = logger.report_outcome(&scope, Ok(true));
    assert!(line.unwrap().ends_with("operation: GetEnd { value: true } }"));
    assert!(matches!(outcome, Ok(true)));
    let operations: Vec<_> =
        records(&mut logger).iter().map(|record| record["ObjectOperation"].clone()).collect();
    assert_eq!(operations, ["GetStart", "GetStart", "GetEnd"]);
    let scope = Scope::create("t", "i".to_owned(), "v".to_owned());
    let _ = logger.report_operation(&scope);
    let _ = logger.report_outcome(&scope, Ok(()));
    let records = records(&mut logger);
    assert_eq!(records[0]["ObjectValue"], "v");
    assert_eq!(records[1]["ObjectOperation"], "CreateEnd");
    assert!(records[1].get("ObjectValue").is_none());
}

#[test]
fn records_have_one_of_four_members() {
    let mut logger = Logger::new(Some("id".to_owned()), true);
    let _ = logger.report_error("oh");
    let _ = logger.report_message("hello");
    let _ = logger.report_state("t", "i", "s");
    let _ = logger.report_operation(&Scope::get("t", "i".to_owned()));
    for (record, name) in
        records(&mut logger).iter().zip(["Exception", "Message", "ObjectState", "ObjectOperation"])
    {
        for other in ["Exception", "Message", "ObjectState", "ObjectOperation"] {
            assert_eq!(record.get(other).is_some(), other == name);
        }
        let is_error = name == "Exception";
        assert_eq!(record["Level"], if is_error { "Error" } else { "Information" });
        assert_eq!(record.get("ObjectType").is_some(), name.starts_with("Object"));
        assert_eq!(record.get("ObjectId").is_some(), name.starts_with("Object"));
        assert_eq!(record["FunctionInvocationId"], "id");
    }
}

#[test]
fn secrets_are_not_shown() {
    let mut logger = Logger::new(None, true);
    let scope = Scope::get("t", "i".to_owned());
    assert_eq!(Secret("password".to_owned()).show(), "******");
    let (line, _) = logger.report_outcome(&scope, Ok(Secret("password".to_owned())));
    assert!(line.unwrap().ends_with("operation: GetEnd { value: ****** } }"));
    assert_eq!(records(&mut logger)[0]["ObjectValue"], "******");
}

#[test]
fn objects_have_ids() {
    assert_eq!(ObjectId("a").text(), "a");
    assert_eq!(ObjectId(("a", "b")).text(), "a/b");
    assert_eq!(ObjectId(("a", "b", "c")).text(), "a/b/c");
    assert_eq!(ObjectId(&Uri::from_text("https://example.com/a").unwrap()).text(), "https://example.com/a");
}

#[test]
fn reports_carry_the_time_of_the_clock() {
    let mut logger = Logger::new(None, false);
    let line = logger.report_message("hello");
    let (time, rest) = line.strip_prefix('[').unwrap().split_once("] ").unwrap();
    assert_eq!(rest, "Message { message: hello }");
    assert_eq!((time.len(), time.ends_with('Z')), ("2024-01-02T03:04:05.678Z".len(), true));
    let time = chrono::DateTime::parse_from_rfc3339(time).unwrap();
    let now = std::time::SystemTime::now().duration_since(std::time::UNIX_EPOCH).unwrap();
    let now = i64::try_from(now.as_millis()).unwrap();
    assert!((now - time.timestamp_millis()).abs() < 60_000);
}

#[test]
fn a_failure_needs_no_room_for_a_report() {
    let mut logger = Logger::new(None, false);
    let scope = Scope::get("t", "i".to_owned());
    let (line, outcome) = logger.report_outcome::<String>(&scope, Err(Error::new("oh")));
    assert_eq!((line, outcome.unwrap_err().chain), (None, vec!["oh".to_owned()]));
}
