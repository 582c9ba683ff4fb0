//! Records as `serde_json` holds them, and the few operations on them that
//! the rest of the crate builds on.
//!
//! A record is a `serde_json::Map<String, Value>`. The verifier cannot look
//! inside one, so what a record holds is given a mathematical model here, and
//! each operation of `serde_json` that the crate calls is declared with the
//! effect it has on that model. Those declarations are believed, not proved.
use vstd::prelude::*;

verus! {

/// A JSON document as a mathematical value.
#[verifier::ext_equal]
pub enum JsonModel {
    Null,
    Bool(bool),
    /// A number that `serde_json` holds as an integer.
    Integer(int),
    /// Any other number, by the text `serde_json` prints for it.
    Decimal(Seq<char>),
    Text(Seq<char>),
    Array(Seq<JsonModel>),
    Object(Map<Seq<char>, JsonModel>),
}

/// `serde_json::Value`, opaque to the verifier.
#[verifier::external_type_specification]
#[verifier::external_body]
pub struct ExValue(serde_json::Value);

/// `serde_json::Map`, opaque to the verifier.
#[verifier::external_type_specification]
#[verifier::external_body]
#[verifier::reject_recursive_types(K)]
#[verifier::reject_recursive_types(V)]
pub struct ExMap<K, V>(serde_json::Map<K, V>);

/// `serde_json::Error`, opaque to the verifier.
#[verifier::external_type_specification]
#[verifier::external_body]
pub struct ExJsonError(serde_json::Error);

/// One record: field names and their values.
pub type Log = serde_json::Map<String, serde_json::Value>;

/// The fields of a record as a mathematical map from names to documents.
pub type Fields = Map<Seq<char>, JsonModel>;

/// The document that a `serde_json::Value` holds.
pub uninterp spec fn json_model(value: serde_json::Value) -> JsonModel;

/// The fields that a record holds, each name with the document under it.
pub uninterp spec fn log_fields(log: serde_json::Map<String, serde_json::Value>) -> Fields;

/// What `serde_json` reads from a text: the document, or nothing where the
/// text is not one JSON document.
pub uninterp spec fn json_parse(text: Seq<char>) -> Option<JsonModel>;

/// What `serde_json` writes for a sequence of records as one JSON array, or
/// nothing where it refuses to.
pub uninterp spec fn json_encoding(records: Seq<Fields>) -> Option<Seq<u8>>;

/// The fields of each record of a sequence.
pub open spec fn fields_of(logs: Seq<Log>) -> Seq<Fields> {
    Seq::new(logs.len(), |i: int| log_fields(logs[i]))
}

/// The documents of a sequence of values.
pub open spec fn models_of(values: Seq<serde_json::Value>) -> Seq<JsonModel> {
    Seq::new(values.len(), |i: int| json_model(values[i]))
}

/// `Map::new`: a record without fields.
#[verifier::external_body]
pub(crate) fn new_log() -> (log: Log)
    ensures
        log_fields(log) == Fields::empty(),
{
    serde_json::Map::new()
}

/// `Map::insert`: afterwards the record holds `value` under `key`, in place
/// of what stood under that name before, and every other field as it was.
#[verifier::external_body]
pub(crate) fn log_insert(log: &mut Log, key: String, value: serde_json::Value)
    ensures
        log_fields(*final(log)) == log_fields(*old(log)).insert(key@, json_model(value)),
{
    log.insert(key, value);
}

/// `Map::iter`, each entry cloned: every entry is a field of the record with
/// its value, and every field of the record is among the entries.
#[verifier::external_body]
pub(crate) fn log_entries(log: &Log) -> (entries: Vec<(String, serde_json::Value)>)
    ensures
        forall|i: int|
            0 <= i < entries@.len() ==> #[trigger] log_fields(*log).contains_pair(
                entries@[i].0@,
                json_model(entries@[i].1),
            ),
        forall|key: Seq<char>| #[trigger]
            log_fields(*log).contains_key(key) ==> exists|i: int|
                0 <= i < entries@.len() && #[trigger] entries@[i].0@ == key,
{
    log.iter().map(|(key, value)| (key.clone(), value.clone())).collect()
}

/// `Clone` for `Map`: a record with the same fields.
#[verifier::external_body]
pub(crate) fn log_clone(log: &Log) -> (copy: Log)
    ensures
        log_fields(copy) == log_fields(*log),
{
    log.clone()
}

/// `Value::String`: the JSON string with the characters of `text`.
#[verifier::external_body]
pub(crate) fn json_text(text: &str) -> (value: serde_json::Value)
    ensures
        json_model(value) == JsonModel::Text(text@),
{
    serde_json::Value::String(text.to_owned())
}

/// `Value::Bool`.
#[verifier::external_body]
pub(crate) fn json_bool(flag: bool) -> (value: serde_json::Value)
    ensures
        json_model(value) == JsonModel::Bool(flag),
{
    serde_json::Value::Bool(flag)
}

/// `From<u64>` for `Value`: the JSON number `number`.
#[verifier::external_body]
pub(crate) fn json_u64(number: u64) -> (value: serde_json::Value)
    ensures
        json_model(value) == JsonModel::Integer(number as int),
{
    serde_json::Value::from(number)
}

/// `From<i64>` for `Value`: the JSON number `number`.
#[verifier::external_body]
pub(crate) fn json_i64(number: i64) -> (value: serde_json::Value)
    ensures
        json_model(value) == JsonModel::Integer(number as int),
{
    serde_json::Value::from(number)
}

/// `Value::Object`: the JSON object with the fields of `log`.
#[verifier::external_body]
pub(crate) fn json_object(log: Log) -> (value: serde_json::Value)
    ensures
        json_model(value) == JsonModel::Object(log_fields(log)),
{
    serde_json::Value::Object(log)
}

/// `Value::Array`: the JSON array of `items`, in their order.
#[verifier::external_body]
pub(crate) fn json_array(items: Vec<serde_json::Value>) -> (value: serde_json::Value)
    ensures
        json_model(value) == JsonModel::Array(models_of(items@)),
{
    serde_json::Value::Array(items)
}

/// `FromStr` for `Value`: succeeds exactly on the texts that are one JSON
/// document, with that document.
#[verifier::external_body]
pub(crate) fn parse_json(text: &str) -> (parsed: Result<serde_json::Value, serde_json::Error>)
    ensures
        match parsed {
            Ok(value) => json_parse(text@) == Some(json_model(value)),
            Err(_) => json_parse(text@) is None,
        },
{
    text.parse::<serde_json::Value>()
}

/// `serde_json::to_vec` on a slice of records: the bytes of one JSON array
/// with an object for each record, as decided by the fields alone.
#[verifier::external_body]
pub(crate) fn to_json_bytes(logs: &Vec<Log>) -> (written: Result<Vec<u8>, serde_json::Error>)
    ensures
        match written {
            Ok(bytes) => json_encoding(fields_of(logs@)) == Some(bytes@),
            Err(_) => json_encoding(fields_of(logs@)) is None,
        },
{
    serde_json::to_vec(logs.as_slice())
}

} // verus!
