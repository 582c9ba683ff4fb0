//! Collects the fields of one event or span as JSON values.
use crate::json::{
    json_bool, json_i64, json_model, json_parse, json_text, json_u64, log_fields, log_insert,
    new_log, parse_json, Fields, JsonModel, Log,
};
use vstd::prelude::*;

verus! {

/// The fields recorded so far, each under its name.
pub struct JsonVisitor {
    pub fields: Log,
}

/// The document recorded for a string: the JSON document that the string
/// spells, or the string itself where it spells none.
pub open spec fn text_model(text: Seq<char>) -> JsonModel {
    match json_parse(text) {
        Some(document) => document,
        None => JsonModel::Text(text),
    }
}

/// The value recorded for a string, given what parsing it came to: the
/// parsed document, or the raw string where parsing failed.
pub fn parsed_or_text(parsed: Result<serde_json::Value, serde_json::Error>, raw: &str) -> (value:
    serde_json::Value)
    ensures
        json_model(value) == match parsed {
            Ok(document) => json_model(document),
            Err(_) => JsonModel::Text(raw@),
        },
{
    match parsed {
        Ok(document) => document,
        Err(_) => json_text(raw),
    }
}

impl JsonVisitor {
    /// The fields recorded so far, as a mathematical map.
    pub open spec fn recorded(&self) -> Fields {
        log_fields(self.fields)
    }

    /// A visitor that has recorded nothing.
    pub fn new() -> (visitor: JsonVisitor)
        ensures
            visitor.recorded() == Fields::empty(),
    {
        JsonVisitor { fields: new_log() }
    }

    /// Records `value` under the name of the field, in place of an earlier
    /// value under that name.
    pub fn filter_insert(&mut self, field: &str, value: serde_json::Value)
        ensures
            final(self).recorded() == old(self).recorded().insert(field@, json_model(value)),
    {
        log_insert(&mut self.fields, field.to_owned(), value);
    }

    /// Records a string. A string that spells a JSON document is recorded as
    /// that document, any other as a JSON string.
    pub fn record_str(&mut self, field: &str, value: &str)
        ensures
            final(self).recorded() == old(self).recorded().insert(field@, text_model(value@)),
    {
        let json_value = parsed_or_text(parse_json(value), value);
        self.filter_insert(field, json_value);
    }

    /// Records a boolean as it is.
    pub fn record_bool(&mut self, field: &str, value: bool)
        ensures
            final(self).recorded() == old(self).recorded().insert(field@, JsonModel::Bool(value)),
    {
        self.filter_insert(field, json_bool(value));
    }

    /// Records an unsigned number as it is.
    pub fn record_u64(&mut self, field: &str, value: u64)
        ensures
            final(self).recorded() == old(self).recorded().insert(
                field@,
                JsonModel::Integer(value as int),
            ),
    {
        self.filter_insert(field, json_u64(value));
    }

    /// Records a signed number as it is.
    pub fn record_i64(&mut self, field: &str, value: i64)
        ensures
            final(self).recorded() == old(self).recorded().insert(
                field@,
                JsonModel::Integer(value as int),
            ),
    {
        self.filter_insert(field, json_i64(value));
    }

    /// Records an error by its message, as a JSON string.
    pub fn record_error(&mut self, field: &str, message: &str)
        ensures
            final(self).recorded() == old(self).recorded().insert(
                field@,
                JsonModel::Text(message@),
            ),
    {
        self.filter_insert(field, json_text(message));
    }

    /// Records a value by its debug rendering, as a JSON string.
    pub fn record_debug(&mut self, field: &str, rendering: &str)
        ensures
            final(self).recorded() == old(self).recorded().insert(
                field@,
                JsonModel::Text(rendering@),
            ),
    {
        self.filter_insert(field, json_text(rendering));
    }
}

impl Default for JsonVisitor {
    fn default() -> (visitor: JsonVisitor)
        ensures
            visitor.recorded() == Fields::empty(),
    {
        JsonVisitor::new()
    }
}

} // verus!
