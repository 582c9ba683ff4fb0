//! From an event and the spans around it to one flat record.
use crate::clock::{has_utc_offset, utc_now_rfc3339};
use crate::json::{
    json_array, json_model, json_object, json_text, json_u64, log_clone, log_fields, log_insert,
    models_of, new_log, Fields, JsonModel, Log,
};
use crate::record::{merge_fields, merged};
use vstd::prelude::*;

verus! {

/// One span of the scope of an event: its name and the fields recorded when
/// it was entered.
pub struct SpanRecord {
    pub name: String,
    pub fields: Log,
}

/// What the instrumentation knows of an event besides its fields.
pub struct EventMeta {
    pub level: String,
    pub target: String,
    pub file: Option<String>,
    pub line: Option<u32>,
}

/// The object written for a span: its name under `name`, then its fields. A
/// field called `name` takes the place of the span's name.
pub open spec fn span_model(span: SpanRecord) -> Fields {
    merged(Fields::empty().insert("name"@, JsonModel::Text(span.name@)), log_fields(span.fields))
}

/// The objects written for the spans of a scope, in the order of the scope.
pub open spec fn span_models(spans: Seq<SpanRecord>) -> Seq<JsonModel> {
    Seq::new(spans.len(), |i: int| JsonModel::Object(span_model(spans[i])))
}

/// The span context of a record: nothing outside any span; else the
/// innermost span under `span`, and all of them from the root under `spans`.
pub open spec fn scope_model(spans: Seq<SpanRecord>) -> Fields {
    if spans.len() == 0 {
        Fields::empty()
    } else {
        Fields::empty().insert("span"@, JsonModel::Object(span_model(spans.last()))).insert(
            "spans"@,
            JsonModel::Array(span_models(spans)),
        )
    }
}

/// `base` with the level and target of the event, and its file and line
/// where they are known.
pub open spec fn with_meta(base: Fields, meta: EventMeta) -> Fields {
    let named = base.insert("level"@, JsonModel::Text(meta.level@)).insert(
        "target"@,
        JsonModel::Text(meta.target@),
    );
    let filed = match meta.file {
        Some(file) => named.insert("file"@, JsonModel::Text(file@)),
        None => named,
    };
    match meta.line {
        Some(line) => filed.insert("line"@, JsonModel::Integer(line as int)),
        None => filed,
    }
}

/// The record of an event: span context, then metadata, then the event's own
/// fields, then the time of creation under `timestamp`. Where two of them
/// use one name, the later one stands.
pub open spec fn record_model(
    spans: Seq<SpanRecord>,
    meta: EventMeta,
    fields: Fields,
    timestamp: Seq<char>,
) -> Fields {
    merged(with_meta(scope_model(spans), meta), fields).insert(
        "timestamp"@,
        JsonModel::Text(timestamp),
    )
}

/// The record of an event, stamped with the given time.
///
/// `spans` is the scope of the event from the root to the innermost span,
/// `fields` are the event's own fields.
pub fn build_log(spans: &Vec<SpanRecord>, meta: &EventMeta, fields: &Log, timestamp: &str) -> (log:
    Log)
    ensures
        log_fields(log) == record_model(spans@, *meta, log_fields(*fields), timestamp@),
{
    let mut log = new_log();
    let mut objects: Vec<serde_json::Value> = Vec::new();
    let mut last: Option<Log> = None;
    let mut i: usize = 0;
    while i < spans.len()
        invariant
            i <= spans.len(),
            objects@.len() == i,
            models_of(objects@) == span_models(spans@.take(i as int)),
            i == 0 ==> last is None,
            i > 0 ==> last is Some && log_fields(last->Some_0) == span_model(spans@[i - 1]),
        decreases spans.len() - i,
    {
        let ghost earlier = objects@;
        let mut new_span = new_log();
        log_insert(&mut new_span, "name".to_owned(), json_text(spans[i].name.as_str()));
        merge_fields(&mut new_span, &spans[i].fields);
        let object = json_object(log_clone(&new_span));
        objects.push(object);
        last = Some(new_span);
        i = i + 1;
        assert(models_of(objects@) =~= span_models(spans@.take(i as int))) by {
            let wanted = span_models(spans@.take(i as int));
            assert forall|j: int| 0 <= j < i implies models_of(objects@)[j] == wanted[j] by {
                if j < i - 1 {
                    assert(models_of(objects@)[j] == models_of(earlier)[j]);
                    assert(models_of(earlier)[j] == span_models(spans@.take(i - 1))[j]);
                }
            }
        }
    }
    assert(spans@.take(spans@.len() as int) == spans@);
    match last {
        Some(innermost) => {
            log_insert(&mut log, "span".to_owned(), json_object(innermost));
            log_insert(&mut log, "spans".to_owned(), json_array(objects));
        },
        None => {},
    }
    assert(log_fields(log) == scope_model(spans@));
    log_insert(&mut log, "level".to_owned(), json_text(meta.level.as_str()));
    log_insert(&mut log, "target".to_owned(), json_text(meta.target.as_str()));
    match &meta.file {
        Some(file) => {
            log_insert(&mut log, "file".to_owned(), json_text(file.as_str()));
        },
        None => {},
    }
    match meta.line {
        Some(line) => {
            log_insert(&mut log, "line".to_owned(), json_u64(line as u64));
        },
        None => {},
    }
    merge_fields(&mut log, fields);
    log_insert(&mut log, "timestamp".to_owned(), json_text(timestamp));
    log
}

/// The record of an event, stamped with the present time in UTC.
pub fn create_log(spans: &Vec<SpanRecord>, meta: &EventMeta, fields: &Log) -> (log: Log)
    ensures
        exists|timestamp: Seq<char>|
            has_utc_offset(timestamp) && log_fields(log) == #[trigger] record_model(
                spans@,
                *meta,
                log_fields(*fields),
                timestamp,
            ),
{
    let timestamp = utc_now_rfc3339();
    build_log(spans, meta, fields, timestamp.as_str())
}

} // verus!
