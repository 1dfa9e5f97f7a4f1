//! The calls into `serde_json` that the documents need. A JSON value is
//! opaque here: what it holds is spoken of through names, and every contract
//! in this file is taken on trust.

use std::collections::HashMap;
use vstd::prelude::*;

verus! {

/// A JSON value of `serde_json`.
#[verifier::external_type_specification]
#[verifier::external_body]
pub struct ExValue(serde_json::Value);

/// The object of `serde_json`: member names with their values, each name once.
#[verifier::external_type_specification]
#[verifier::external_body]
#[verifier::reject_recursive_types(K)]
#[verifier::reject_recursive_types(V)]
pub struct ExMap<K, V>(serde_json::Map<K, V>);

/// What `serde_json` reports when it cannot read or write a text.
#[verifier::external_type_specification]
#[verifier::external_body]
pub struct ExError(serde_json::Error);

/// What `serde_json::from_str` makes of a text as a JSON value.
pub uninterp spec fn parsed(text: Seq<char>) -> Result<serde_json::Value, serde_json::Error>;

/// What `serde_json::from_str` makes of a text as a table from strings to
/// strings.
pub uninterp spec fn parsed_table(text: Seq<char>) -> Result<
    Map<Seq<char>, Seq<char>>,
    serde_json::Error,
>;

/// What `serde_json::to_string_pretty` writes for a list of strings.
pub uninterp spec fn pretty_list(list: Seq<Seq<char>>) -> Result<Seq<char>, serde_json::Error>;

/// The text of a value that is a JSON string; `None` for any other value.
pub uninterp spec fn text_of(value: serde_json::Value) -> Option<Seq<char>>;

/// The truth value of a value that is a JSON boolean; `None` for any other
/// value.
pub uninterp spec fn flag_of(value: serde_json::Value) -> Option<bool>;

/// The elements of a value that is a JSON array, in order; `None` for any
/// other value.
pub uninterp spec fn items_of(value: serde_json::Value) -> Option<Seq<serde_json::Value>>;

/// The object that a value is, if it is a JSON object; `None` for any other
/// value.
pub uninterp spec fn object_of(value: serde_json::Value) -> Option<
    serde_json::Map<String, serde_json::Value>,
>;

/// The members of an object, in the order in which the object hands them
/// out. An object holds each name once.
pub uninterp spec fn members_of(object: serde_json::Map<String, serde_json::Value>) -> Seq<
    (Seq<char>, serde_json::Value),
>;

/// The message of an error of `serde_json`.
pub uninterp spec fn error_text(error: serde_json::Error) -> Seq<char>;

/// The value of the first member named `key` among `members`.
pub open spec fn member(members: Seq<(Seq<char>, serde_json::Value)>, key: Seq<char>) -> Option<
    serde_json::Value,
>
    decreases members.len(),
{
    if members.len() == 0 {
        None
    } else if members.first().0 == key {
        Some(members.first().1)
    } else {
        member(members.drop_first(), key)
    }
}

/// The value of the member `key` of `value`, where `value` is an object that
/// has such a member.
pub open spec fn member_of(value: serde_json::Value, key: Seq<char>) -> Option<serde_json::Value> {
    match object_of(value) {
        Some(object) => member(members_of(object), key),
        None => None,
    }
}

/// Whether `entries` are `members`, one for one and in the same order.
pub open spec fn same_members(
    entries: Seq<(&String, &serde_json::Value)>,
    members: Seq<(Seq<char>, serde_json::Value)>,
) -> bool {
    &&& entries.len() == members.len()
    &&& forall|i: int|
        0 <= i < entries.len() ==> (#[trigger] entries[i]).0@ == members[i].0 && *entries[i].1
            == members[i].1
}

/// `serde_json::from_str` at the type `Value`. What comes back, value or
/// error, depends on the text alone.
#[verifier::external_body]
pub(crate) fn parse_value(text: &str) -> (r: Result<serde_json::Value, serde_json::Error>)
    ensures
        r == parsed(text@),
{
    serde_json::from_str::<serde_json::Value>(text)
}

/// `serde_json::from_str` at the type of a map from strings to strings. What
/// the map holds, or the error, depends on the text alone.
#[verifier::external_body]
pub(crate) fn parse_table(text: &str) -> (r: Result<HashMap<String, String>, serde_json::Error>)
    ensures
        match r {
            Ok(table) => parsed_table(text@) == Ok::<Map<Seq<char>, Seq<char>>, serde_json::Error>(
                table.deep_view(),
            ),
            Err(error) => parsed_table(text@) == Err::<Map<Seq<char>, Seq<char>>, serde_json::Error>(
                error,
            ),
        },
{
    serde_json::from_str::<HashMap<String, String>>(text)
}

/// `serde_json::to_string_pretty` on a list of strings. The text, or the
/// error, depends on the strings alone.
#[verifier::external_body]
pub(crate) fn to_pretty_list(list: &Vec<String>) -> (r: Result<String, serde_json::Error>)
    ensures
        match r {
            Ok(text) => pretty_list(list.deep_view()) == Ok::<Seq<char>, serde_json::Error>(text@),
            Err(error) => pretty_list(list.deep_view()) == Err::<Seq<char>, serde_json::Error>(
                error,
            ),
        },
{
    serde_json::to_string_pretty(list)
}

/// `Value::as_str`: the text of a string, `None` for every other value.
#[verifier::external_body]
pub(crate) fn value_as_str(value: &serde_json::Value) -> (r: Option<&str>)
    ensures
        match r {
            Some(text) => text_of(*value) == Some(text@),
            None => text_of(*value) is None,
        },
{
    value.as_str()
}

/// `Value::as_bool`: the truth value of a boolean, `None` for every other
/// value.
#[verifier::external_body]
pub(crate) fn value_as_bool(value: &serde_json::Value) -> (r: Option<bool>)
    ensures
        r == flag_of(*value),
{
    value.as_bool()
}

/// `Value::as_array`: the elements of an array, `None` for every other value.
#[verifier::external_body]
pub(crate) fn value_as_array(value: &serde_json::Value) -> (r: Option<&Vec<serde_json::Value>>)
    ensures
        match r {
            Some(items) => items_of(*value) == Some(items@),
            None => items_of(*value) is None,
        },
{
    value.as_array()
}

/// `Value::as_object`: the object that the value is, `None` for every other
/// value.
#[verifier::external_body]
pub(crate) fn value_as_object(value: &serde_json::Value) -> (r: Option<
    &serde_json::Map<String, serde_json::Value>,
>)
    ensures
        match r {
            Some(object) => object_of(*value) == Some(*object),
            None => object_of(*value) is None,
        },
{
    value.as_object()
}

/// `Map::iter`, gathered into a vector: the members of the object in the
/// order in which it hands them out.
#[verifier::external_body]
pub(crate) fn map_entries<'a>(object: &'a serde_json::Map<String, serde_json::Value>) -> (r: Vec<
    (&'a String, &'a serde_json::Value),
>)
    ensures
        same_members(r@, members_of(*object)),
{
    object.iter().collect()
}

/// `Map::get`: the value of the member named `key`, `None` where the object
/// has no such member. As an object holds each name once, that member is the
/// first of that name.
#[verifier::external_body]
pub(crate) fn map_get<'a>(
    object: &'a serde_json::Map<String, serde_json::Value>,
    key: &str,
) -> (r: Option<&'a serde_json::Value>)
    ensures
        match r {
            Some(value) => member(members_of(*object), key@) == Some(*value),
            None => member(members_of(*object), key@) is None,
        },
{
    object.get(key)
}

/// The message of an error, as `Display` writes it.
#[verifier::external_body]
pub(crate) fn error_message(error: &serde_json::Error) -> (text: String)
    ensures
        text@ == error_text(*error),
{
    error.to_string()
}

} // verus!
