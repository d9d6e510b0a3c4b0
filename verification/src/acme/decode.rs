//! Reading the members of a response body: each reader says what it accepts
//! and fails with a decoding error on everything else.

use crate::acme::error::AcmeError;
use crate::json::{item_models, member, Json, JsonModel};
use vstd::prelude::*;

verus! {

/// The texts of a list of strings.
pub open spec fn texts(list: Seq<String>) -> Seq<Seq<char>> {
    Seq::new(list.len(), |i: int| list[i]@)
}

/// The text of a value that is a string.
pub open spec fn text_of(value: JsonModel) -> Option<Seq<char>> {
    match value {
        JsonModel::Str(text) => Some(text),
        _ => None,
    }
}

/// The string member under `key`.
pub open spec fn text_member(document: JsonModel, key: Seq<char>) -> Option<Seq<char>> {
    match member(document, key) {
        Some(value) => text_of(value),
        None => None,
    }
}

/// The texts of a value that is an array of strings.
pub open spec fn text_list_of(value: JsonModel) -> Option<Seq<Seq<char>>> {
    match value {
        JsonModel::Array(items) => if forall|i: int|
            0 <= i < items.len() ==> text_of(#[trigger] items[i]) is Some {
            Some(Seq::new(items.len(), |i: int| text_of(items[i])->0))
        } else {
            None
        },
        _ => None,
    }
}

/// The member under `key` that must be an array of strings.
pub open spec fn text_list_member(document: JsonModel, key: Seq<char>) -> Option<Seq<Seq<char>>> {
    match member(document, key) {
        Some(value) => text_list_of(value),
        None => None,
    }
}

/// Whether the member under `key` is left out or `null`.
pub open spec fn absent(document: JsonModel, key: Seq<char>) -> bool {
    member(document, key) is None || member(document, key) == Some(JsonModel::Null)
}

/// The member under `key` that may be left out or `null` and is otherwise an
/// array of strings: the outer `None` says that it is something else.
pub open spec fn optional_text_list_member(document: JsonModel, key: Seq<char>) -> Option<
    Option<Seq<Seq<char>>>,
> {
    if absent(document, key) {
        Some(None)
    } else {
        match text_list_member(document, key) {
            Some(list) => Some(Some(list)),
            None => None,
        }
    }
}

/// The member under `key` that may be left out or `null` and is otherwise a
/// boolean: the outer `None` says that it is something else.
pub open spec fn optional_bool_member(document: JsonModel, key: Seq<char>) -> Option<Option<bool>> {
    if absent(document, key) {
        Some(None)
    } else {
        match member(document, key) {
            Some(JsonModel::Bool(b)) => Some(Some(b)),
            _ => None,
        }
    }
}

/// Reads a value that must be a string.
pub fn text(value: &Json) -> (read: Result<String, AcmeError>)
    ensures
        match read {
            Ok(text) => text_of(value@) == Some(text@),
            Err(e) => e == AcmeError::Decode && text_of(value@) is None,
        },
{
    match value {
        Json::Str(text) => Ok(text.clone()),
        _ => Err(AcmeError::Decode),
    }
}

/// Reads the string member under `key`, which must be there.
pub fn required_text(document: &Json, key: &str) -> (read: Result<String, AcmeError>)
    ensures
        match read {
            Ok(text) => text_member(document@, key@) == Some(text@),
            Err(e) => e == AcmeError::Decode && text_member(document@, key@) is None,
        },
{
    match document.get(key) {
        Some(value) => text(value),
        None => Err(AcmeError::Decode),
    }
}

/// Reads a value that must be an array of strings.
pub fn text_list(value: &Json) -> (read: Result<Vec<String>, AcmeError>)
    ensures
        match read {
            Ok(list) => text_list_of(value@) == Some(texts(list@)),
            Err(e) => e == AcmeError::Decode && text_list_of(value@) is None,
        },
{
    match value {
        Json::Array(items) => {
            let mut list: Vec<String> = Vec::new();
            let mut i: usize = 0;
            while i < items.len()
                invariant
                    *value == Json::Array(*items),
                    i <= items@.len(),
                    list@.len() == i,
                    forall|k: int|
                        0 <= k < i ==> text_of((#[trigger] items@[k])@) == Some(list@[k]@),
                decreases items@.len() - i,
            {
                match text(&items[i]) {
                    Ok(text) => {
                        list.push(text);
                    },
                    Err(e) => {
                        assert(text_of(item_models(items@)[i as int]) is None);
                        return Err(e);
                    },
                }
                i = i + 1;
            }
            Ok(list)
        },
        _ => Err(AcmeError::Decode),
    }
}

/// Reads the member under `key`, which must be an array of strings.
pub fn required_text_list(document: &Json, key: &str) -> (read: Result<Vec<String>, AcmeError>)
    ensures
        match read {
            Ok(list) => text_list_member(document@, key@) == Some(texts(list@)),
            Err(e) => e == AcmeError::Decode && text_list_member(document@, key@) is None,
        },
{
    match document.get(key) {
        Some(value) => text_list(value),
        None => Err(AcmeError::Decode),
    }
}

/// Reads the member under `key`, which may be left out or `null` and must
/// otherwise be an array of strings.
pub fn optional_text_list(document: &Json, key: &str) -> (read: Result<
    Option<Vec<String>>,
    AcmeError,
>)
    ensures
        match read {
            Ok(Some(list)) => optional_text_list_member(document@, key@) == Some(
                Some(texts(list@)),
            ),
            Ok(None) => optional_text_list_member(document@, key@) == Some(
                None::<Seq<Seq<char>>>,
            ),
            Err(e) => e == AcmeError::Decode && optional_text_list_member(document@, key@)
                is None,
        },
{
    match document.get(key) {
        None => Ok(None),
        Some(Json::Null) => Ok(None),
        Some(value) => match text_list(value) {
            Ok(list) => Ok(Some(list)),
            Err(e) => Err(e),
        },
    }
}

/// Reads the member under `key`, which may be left out or `null` and must
/// otherwise be a boolean.
pub fn optional_bool(document: &Json, key: &str) -> (read: Result<Option<bool>, AcmeError>)
    ensures
        match read {
            Ok(flag) => optional_bool_member(document@, key@) == Some(flag),
            Err(e) => e == AcmeError::Decode && optional_bool_member(document@, key@) is None,
        },
{
    match document.get(key) {
        None => Ok(None),
        Some(Json::Null) => Ok(None),
        Some(Json::Bool(b)) => Ok(Some(*b)),
        Some(_) => Err(AcmeError::Decode),
    }
}

/// Reads the member under `key`, whatever it holds; it must be there.
pub fn required_value(document: &Json, key: &str) -> (read: Result<Json, AcmeError>)
    ensures
        match read {
            Ok(value) => member(document@, key@) == Some(value@),
            Err(e) => e == AcmeError::Decode && member(document@, key@) is None,
        },
{
    match document.get(key) {
        Some(value) => Ok(value.duplicate()),
        None => Err(AcmeError::Decode),
    }
}

} // verus!
