//! Records as they arrive from a source: loosely typed JSON documents.
//!
//! A record is a `serde_json::Value`. Verified code never looks inside one; it
//! reads single fields through the accessors below, and contracts speak of a
//! record through `record_fields`, the mapping from field name to value that
//! the document holds.

use vstd::prelude::*;

verus! {

/// What one field of a record holds, as far as the pipeline reads it.
pub enum FieldValue {
    /// A JSON string.
    Text(Seq<char>),
    /// A JSON number. `bits` is the IEEE-754 pattern of the number read as a
    /// 64-bit float; `unsigned` is the number read as an unsigned integer,
    /// where it is one.
    Number { bits: u64, unsigned: Option<u64> },
    /// Null, a boolean, an array or a nested object.
    Other,
}

/// `serde_json::Value`, a JSON document. Verified code holds such documents
/// and hands them on; it reads them through the accessors below only.
#[verifier::external_type_specification]
#[verifier::external_body]
pub struct ExJsonValue(serde_json::Value);

/// The fields of a record, by name. A document that is not a JSON object has
/// no fields.
pub uninterp spec fn record_fields(record: serde_json::Value) -> Map<Seq<char>, FieldValue>;

/// The text under `key`, if the record has that field and it is a string.
pub open spec fn text_at(fields: Map<Seq<char>, FieldValue>, key: Seq<char>) -> Option<Seq<char>> {
    if fields.contains_key(key) {
        match fields[key] {
            FieldValue::Text(s) => Some(s),
            _ => None,
        }
    } else {
        None
    }
}

/// The float bit pattern under `key`, if the record has that field and it is a
/// number.
pub open spec fn number_at(fields: Map<Seq<char>, FieldValue>, key: Seq<char>) -> Option<u64> {
    if fields.contains_key(key) {
        match fields[key] {
            FieldValue::Number { bits, .. } => Some(bits),
            _ => None,
        }
    } else {
        None
    }
}

/// The unsigned integer under `key`, if the record has that field and it is a
/// non-negative integer number.
pub open spec fn unsigned_at(fields: Map<Seq<char>, FieldValue>, key: Seq<char>) -> Option<u64> {
    if fields.contains_key(key) {
        match fields[key] {
            FieldValue::Number { unsigned, .. } => unsigned,
            _ => None,
        }
    } else {
        None
    }
}

/// `record[key].as_str()` of serde_json, with the text copied out: the string
/// under `key`, or `None` where the record is no object, lacks the key, or
/// holds something other than a string there.
#[verifier::external_body]
pub(crate) fn text_field(record: &serde_json::Value, key: &str) -> (found: Option<String>)
    ensures
        found.is_some() == text_at(record_fields(*record), key@).is_some(),
        found matches Some(s) ==> text_at(record_fields(*record), key@) == Some(s@),
{
    match record[key].as_str() {
        Some(s) => Some(s.to_owned()),
        None => None,
    }
}

/// `record[key].as_f64()` of serde_json, handed back as the bit pattern of the
/// float: present exactly where the field is a JSON number.
#[verifier::external_body]
pub(crate) fn number_field(record: &serde_json::Value, key: &str) -> (found: Option<u64>)
    ensures
        found == number_at(record_fields(*record), key@),
{
    match record[key].as_f64() {
        Some(x) => Some(x.to_bits()),
        None => None,
    }
}

/// `record[key].as_u64()` of serde_json: present exactly where the field is a
/// JSON number that is a non-negative integer.
#[verifier::external_body]
pub(crate) fn unsigned_field(record: &serde_json::Value, key: &str) -> (found: Option<u64>)
    ensures
        found == unsigned_at(record_fields(*record), key@),
{
    record[key].as_u64()
}

} // verus!
