use log_tracing_layer::json::Log;
use log_tracing_layer::layer::{build_log, create_log, EventMeta, SpanRecord};
use log_tracing_layer::record::merge_fields;
use log_tracing_layer::visitor::{parsed_or_text, JsonVisitor};
use serde_json::Value;

fn text(s: &str) -> Value {
    Value::String(s.to_string())
}

fn log_of(pairs: &[(&str, Value)]) -> Log {
    let mut log = Log::new();
    for (key, value) in pairs {
        log.insert(key.to_string(), value.clone());
    }
    log
}

fn meta(level: &str, target: &str, file: Option<&str>, line: Option<u32>) -> EventMeta {
    EventMeta {
        level: level.to_string(),
        target: target.to_string(),
        file: file.map(|f| f.to_string()),
        line,
    }
}

#[test]
fn a_new_visitor_has_recorded_nothing() {
    assert!(JsonVisitor::new().fields.is_empty());
    assert!(JsonVisitor::default().fields.is_empty());
}

#[test]
fn a_plain_string_is_recorded_as_a_string() {
    let mut visitor = JsonVisitor::new();
    visitor.record_str("message", "this is a test message");
    assert_eq!(visitor.fields.len(), 1);
    assert_eq!(visitor.fields["message"], text("this is a test message"));
}

#[test]
fn a_string_that_spells_json_is_recorded_as_the_document() {
    let mut visitor = JsonVisitor::new();
    visitor.record_str("person", r#"{ "name": "rob", "age": 15 }"#);
    let person = visitor.fields["person"].as_object().unwrap();
    assert_eq!(person["name"], text("rob"));
    assert_eq!(person["age"], Value::from(15u64));
    assert_eq!(person.len(), 2);
}

#[test]
fn strings_that_spell_scalars_are_recorded_as_scalars() {
    let mut visitor = JsonVisitor::new();
    visitor.record_str("n", "42");
    visitor.record_str("b", "true");
    visitor.record_str("z", "null");
    visitor.record_str("q", "\"quoted\"");
    visitor.record_str("a", "[1, 2]");
    assert_eq!(visitor.fields["n"], Value::from(42u64));
    assert_eq!(visitor.fields["b"], Value::Bool(true));
    assert_eq!(visitor.fields["z"], Value::Null);
    assert_eq!(visitor.fields["q"], text("quoted"));
    assert_eq!(visitor.fields["a"], Value::Array(vec![Value::from(1u64), Value::from(2u64)]));
}

#[test]
fn an_ip_address_is_no_json_and_stays_a_string() {
    let mut visitor = JsonVisitor::new();
    visitor.record_str("ip", "127.0.0.1");
    assert_eq!(visitor.fields["ip"], text("127.0.0.1"));
}

#[test]
fn the_empty_string_stays_a_string() {
    let mut visitor = JsonVisitor::new();
    visitor.record_str("empty", "");
    assert_eq!(visitor.fields["empty"], text(""));
}

#[test]
fn booleans_and_numbers_are_recorded_as_they_are() {
    let mut visitor = JsonVisitor::new();
    visitor.record_bool("yes", true);
    visitor.record_bool("no", false);
    visitor.record_u64("big", u64::MAX);
    visitor.record_i64("small", i64::MIN);
    visitor.record_i64("plus", 7);
    assert_eq!(visitor.fields["yes"], Value::Bool(true));
    assert_eq!(visitor.fields["no"], Value::Bool(false));
    assert_eq!(visitor.fields["big"], Value::from(u64::MAX));
    assert_eq!(visitor.fields["small"], Value::from(i64::MIN));
    assert_eq!(visitor.fields["plus"], Value::from(7u64));
    assert_eq!(visitor.fields.len(), 5);
}

#[test]
fn errors_and_debug_renderings_are_never_parsed() {
    let mut visitor = JsonVisitor::new();
    visitor.record_error("error", "42");
    visitor.record_debug("debug", "{\"a\": 1}");
    assert_eq!(visitor.fields["error"], text("42"));
    assert_eq!(visitor.fields["debug"], text("{\"a\": 1}"));
}

#[test]
fn a_later_value_replaces_an_earlier_one_of_the_same_name() {
    let mut visitor = JsonVisitor::new();
    visitor.record_u64("n", 1);
    visitor.record_bool("n", false);
    assert_eq!(visitor.fields.len(), 1);
    assert_eq!(visitor.fields["n"], Value::Bool(false));
}

#[test]
fn filter_insert_keeps_the_value() {
    let mut visitor = JsonVisitor::new();
    visitor.filter_insert("pi", Value::from(3.25f64));
    assert_eq!(visitor.fields["pi"], Value::from(3.25f64));
}

#[test]
fn parsed_or_text_prefers_the_document() {
    let parsed: Result<Value, serde_json::Error> = serde_json::from_str("[true]");
    assert_eq!(parsed_or_text(parsed, "[true]"), Value::Array(vec![Value::Bool(true)]));
    let failed: Result<Value, serde_json::Error> = serde_json::from_str("not json");
    assert!(failed.is_err());
    assert_eq!(parsed_or_text(failed, "not json"), text("not json"));
}

#[test]
fn merging_copies_every_field_and_replaces_shared_names() {
    let mut target = log_of(&[("a", text("old")), ("b", Value::from(1u64))]);
    let source = log_of(&[("a", text("new")), ("c", Value::Bool(true))]);
    merge_fields(&mut target, &source);
    assert_eq!(target, log_of(&[("a", text("new")), ("b", Value::from(1u64)), ("c", Value::Bool(true))]));
    // the source is only read
    assert_eq!(source, log_of(&[("a", text("new")), ("c", Value::Bool(true))]));
}

#[test]
fn merging_nothing_changes_nothing() {
    let mut target = log_of(&[("a", text("x"))]);
    merge_fields(&mut target, &Log::new());
    assert_eq!(target, log_of(&[("a", text("x"))]));
    let mut empty = Log::new();
    merge_fields(&mut empty, &Log::new());
    assert!(empty.is_empty());
}

#[test]
fn an_event_outside_any_span_has_no_span_context() {
    let fields = log_of(&[("message", text("hello"))]);
    let log = build_log(
        &vec![],
        &meta("INFO", "my_app", Some("src/main.rs"), Some(12)),
        &fields,
        "2024-01-02T03:04:05.678901234+00:00",
    );
    assert_eq!(
        log,
        log_of(&[
            ("level", text("INFO")),
            ("target", text("my_app")),
            ("file", text("src/main.rs")),
            ("line", Value::from(12u64)),
            ("message", text("hello")),
            ("timestamp", text("2024-01-02T03:04:05.678901234+00:00")),
        ])
    );
    assert!(!log.contains_key("span"));
    assert!(!log.contains_key("spans"));
}

#[test]
fn file_and_line_are_left_out_where_unknown() {
    let log = build_log(&vec![], &meta("WARN", "t", None, None), &Log::new(), "now");
    assert_eq!(
        log,
        log_of(&[("level", text("WARN")), ("target", text("t")), ("timestamp", text("now"))])
    );
}

#[test]
fn spans_run_from_the_root_and_the_innermost_is_the_span() {
    let spans = vec![
        SpanRecord { name: "log".to_string(), fields: log_of(&[("msg", text("a"))]) },
        SpanRecord { name: "log2".to_string(), fields: log_of(&[("msg2", text("a"))]) },
    ];
    let log = build_log(&spans, &meta("INFO", "t", None, None), &Log::new(), "now");
    let root = log_of(&[("name", text("log")), ("msg", text("a"))]);
    let leaf = log_of(&[("name", text("log2")), ("msg2", text("a"))]);
    assert_eq!(log["span"], Value::Object(leaf.clone()));
    assert_eq!(log["spans"], Value::Array(vec![Value::Object(root), Value::Object(leaf)]));
    assert_eq!(log.len(), 5);
}

#[test]
fn a_single_span_is_both_span_and_spans() {
    let spans = vec![SpanRecord { name: "only".to_string(), fields: Log::new() }];
    let log = build_log(&spans, &meta("INFO", "t", None, None), &Log::new(), "now");
    let only = log_of(&[("name", text("only"))]);
    assert_eq!(log["span"], Value::Object(only.clone()));
    assert_eq!(log["spans"], Value::Array(vec![Value::Object(only)]));
}

#[test]
fn a_span_field_called_name_replaces_the_span_name() {
    let spans = vec![SpanRecord { name: "span".to_string(), fields: log_of(&[("name", text("field"))]) }];
    let log = build_log(&spans, &meta("INFO", "t", None, None), &Log::new(), "now");
    assert_eq!(log["span"], Value::Object(log_of(&[("name", text("field"))])));
}

#[test]
fn event_fields_replace_metadata_and_the_timestamp_replaces_event_fields() {
    let fields = log_of(&[
        ("level", text("mine")),
        ("span", text("flat")),
        ("timestamp", text("yesterday")),
    ]);
    let spans = vec![SpanRecord { name: "s".to_string(), fields: Log::new() }];
    let log = build_log(&spans, &meta("INFO", "t", None, None), &fields, "today");
    assert_eq!(log["level"], text("mine"));
    assert_eq!(log["span"], text("flat"));
    assert_eq!(log["timestamp"], text("today"));
    assert_eq!(log["target"], text("t"));
}

#[test]
fn the_inputs_of_a_record_are_only_read() {
    let spans = vec![SpanRecord { name: "s".to_string(), fields: log_of(&[("k", text("v"))]) }];
    let fields = log_of(&[("message", text("m"))]);
    let first = build_log(&spans, &meta("INFO", "t", None, None), &fields, "now");
    let second = build_log(&spans, &meta("INFO", "t", None, None), &fields, "now");
    assert_eq!(first, second);
    assert_eq!(spans[0].fields, log_of(&[("k", text("v"))]));
    assert_eq!(fields, log_of(&[("message", text("m"))]));
}

#[test]
fn a_record_is_stamped_with_the_present_time() {
    let before = chrono::Utc::now();
    let log = create_log(&vec![], &meta("INFO", "t", None, Some(u32::MAX)), &Log::new());
    let after = chrono::Utc::now();
    let stamp = log["timestamp"].as_str().unwrap();
    let parsed = chrono::DateTime::parse_from_rfc3339(stamp).unwrap();
    assert!(stamp.ends_with("+00:00"));
    assert_eq!(parsed.offset().local_minus_utc(), 0);
    assert!(before <= parsed && parsed <= after);
    assert_eq!(log["line"], Value::from(u32::MAX));
    assert_eq!(log["level"], text("INFO"));
    assert_eq!(log.len(), 4);
}
