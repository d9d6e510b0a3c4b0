//! JSON text: values are handed to `serde_json`, which writes them.

use crate::acme::error::{AcmeError, SigningFailure};
use crate::json::{item_models, member_models, members_map, Json, JsonModel};
use vstd::prelude::*;

verus! {

/// `serde_json::Value`, a JSON value as the `serde_json` crate holds it.
#[verifier::external_type_specification]
#[verifier::external_body]
pub struct ExValue(serde_json::Value);

/// `serde_json::Error`, what the `serde_json` crate fails with.
#[verifier::external_type_specification]
#[verifier::external_body]
pub struct ExError(serde_json::Error);

/// What a `serde_json::Value` holds: the value itself, an array as the
/// sequence of what its items hold, an object as the map from its keys to
/// what its members hold. `serde_json` keeps the members of an object by
/// their keys, so that what a value holds decides how it is written.
pub uninterp spec fn held(value: serde_json::Value) -> JsonModel;

/// The indented text that `serde_json::to_string_pretty` writes for a value.
pub uninterp spec fn pretty_text(value: JsonModel) -> Seq<char>;

/// The text without white space that a `serde_json::Value` is displayed as.
pub uninterp spec fn compact_text(value: JsonModel) -> Seq<char>;

/// `serde_json::Value::Null`.
#[verifier::external_body]
fn value_null() -> (value: serde_json::Value)
    ensures
        held(value) == JsonModel::Null,
{
    serde_json::Value::Null
}

/// `serde_json::Value::Bool` of `b`.
#[verifier::external_body]
fn value_bool(b: bool) -> (value: serde_json::Value)
    ensures
        held(value) == JsonModel::Bool(b),
{
    serde_json::Value::Bool(b)
}

/// `serde_json::Value::from` on an `i64`: the number `i`.
#[verifier::external_body]
fn value_int(i: i64) -> (value: serde_json::Value)
    ensures
        held(value) == JsonModel::Int(i as int),
{
    serde_json::Value::from(i)
}

/// `serde_json::Value::String` of `text`.
#[verifier::external_body]
fn value_string(text: String) -> (value: serde_json::Value)
    ensures
        held(value) == JsonModel::Str(text@),
{
    serde_json::Value::String(text)
}

/// `serde_json::Value::Array` of `items`: the items in their order.
#[verifier::external_body]
fn value_array(items: Vec<serde_json::Value>) -> (value: serde_json::Value)
    ensures
        held(value) == JsonModel::Array(items@.map_values(|item: serde_json::Value| held(item))),
{
    serde_json::Value::Array(items)
}

/// `serde_json::Value::Object` of `serde_json::Map::new()`: an object
/// without members.
#[verifier::external_body]
fn value_empty_object() -> (value: serde_json::Value)
    ensures
        held(value) == JsonModel::Object(Map::empty()),
{
    serde_json::Value::Object(serde_json::Map::new())
}

/// `serde_json::Map::insert` on the members of an object: the member is
/// added, and replaces the one that had the key before.
#[verifier::external_body]
fn insert_member(object: &mut serde_json::Value, key: String, member: serde_json::Value)
    requires
        held(*old(object)) is Object,
    ensures
        held(*final(object)) == JsonModel::Object(
            held(*old(object))->Object_0.insert(key@, held(member)),
        ),
{
    if let serde_json::Value::Object(members) = object {
        members.insert(key, member);
    }
}

/// `serde_json::to_string_pretty` on a `serde_json::Value`: the same value
/// gives the same text every time. The writer fails only where a value
/// refuses to be written or a map has a key that is no string; a
/// `serde_json::Value` does neither, so the text is always there.
#[verifier::external_body]
fn write_pretty(value: &serde_json::Value) -> (written: Result<String, serde_json::Error>)
    ensures
        written is Ok,
        written matches Ok(text) ==> text@ == pretty_text(held(*value)),
{
    serde_json::to_string_pretty(value)
}

/// `to_string` of a `serde_json::Value`, which displays it in compact form:
/// the same value gives the same text every time.
#[verifier::external_body]
fn write_compact(value: &serde_json::Value) -> (text: String)
    ensures
        text@ == compact_text(held(*value)),
{
    value.to_string()
}

impl Json {
    /// The `serde_json::Value` that holds what `self` holds; none where a
    /// number is kept as text.
    fn to_value(&self) -> (converted: Option<serde_json::Value>)
        ensures
            converted is Some <==> !self.has_float(),
            converted matches Some(value) ==> held(value) == self@,
        decreases self,
    {
        match self {
            Json::Null => Some(value_null()),
            Json::Bool(b) => Some(value_bool(*b)),
            Json::Int(i) => Some(value_int(*i)),
            Json::Float(_) => None,
            Json::Str(text) => Some(value_string(text.clone())),
            Json::Array(items) => {
                let mut values: Vec<serde_json::Value> = Vec::new();
                let mut i: usize = 0;
                while i < items.len()
                    invariant
                        *self == Json::Array(*items),
                        i <= items@.len(),
                        values@.len() == i,
                        forall|k: int| 0 <= k < i ==> held(#[trigger] values@[k]) == items@[k]@,
                        forall|k: int| 0 <= k < i ==> !(#[trigger] items@[k]).has_float(),
                    decreases items@.len() - i,
                {
                    match items[i].to_value() {
                        None => {
                            return None;
                        },
                        Some(value) => {
                            values.push(value);
                        },
                    }
                    i = i + 1;
                }
                let value = value_array(values);
                assert(held(value)->Array_0 =~= item_models(items@));
                Some(value)
            },
            Json::Object(members) => {
                let mut object = value_empty_object();
                let mut i: usize = 0;
                while i < members.len()
                    invariant
                        *self == Json::Object(*members),
                        i <= members@.len(),
                        held(object) == JsonModel::Object(
                            members_map(member_models(members@.take(i as int))),
                        ),
                        forall|k: int| 0 <= k < i ==> !(#[trigger] members@[k]).1.has_float(),
                    decreases members@.len() - i,
                {
                    match members[i].1.to_value() {
                        None => {
                            return None;
                        },
                        Some(value) => {
                            proof {
                                let before = member_models(members@.take(i as int));
                                let after = member_models(members@.take(i + 1));
                                assert(after.drop_last() == before);
                            }
                            insert_member(&mut object, members[i].0.clone(), value);
                        },
                    }
                    i = i + 1;
                }
                assert(members@.take(members@.len() as int) == members@);
                Some(object)
            },
        }
    }

    /// The value as indented JSON text. Fails exactly where the value holds
    /// a number kept as text.
    pub fn to_string_pretty(&self) -> (written: Result<String, AcmeError>)
        ensures
            match written {
                Ok(text) => !self.has_float() && text@ == pretty_text(self@),
                Err(e) => e == AcmeError::Signing(SigningFailure::Serialization)
                    && self.has_float(),
            },
    {
        match self.to_value() {
            None => Err(AcmeError::Signing(SigningFailure::Serialization)),
            Some(value) => match write_pretty(&value) {
                Ok(text) => Ok(text),
                Err(_) => Err(AcmeError::Signing(SigningFailure::Serialization)),
            },
        }
    }

    /// The value as JSON text without white space; none where the value
    /// holds a number kept as text.
    pub fn to_compact_string(&self) -> (written: Option<String>)
        ensures
            written is Some <==> !self.has_float(),
            written matches Some(text) ==> text@ == compact_text(self@),
    {
        match self.to_value() {
            None => None,
            Some(value) => Some(write_compact(&value)),
        }
    }
}

} // verus!
