//! Reading and writing the documents that are lists and tables: the
//! favourites in both of their stored forms, the word lists, and the
//! location table.

use crate::cache::{cache_loaded, empty_cache, Cache};
use crate::error::StoreError;
use crate::found::Found;
use crate::json::{
    error_message, error_text, flag_of, items_of, map_entries, members_of, object_of, parse_table,
    parse_value, parsed, parsed_table, pretty_list, text_of, to_pretty_list, value_as_array,
    value_as_bool, value_as_object, value_as_str,
};
use std::collections::HashMap;
use vstd::prelude::*;

verus! {

/// The strings among `items`, in their order; whatever is no string is left
/// out.
pub open spec fn texts_in(items: Seq<serde_json::Value>) -> Seq<Seq<char>>
    decreases items.len(),
{
    if items.len() == 0 {
        seq![]
    } else {
        let before = texts_in(items.drop_last());
        match text_of(items.last()) {
            Some(text) => before.push(text),
            None => before,
        }
    }
}

/// The names of the members among `members` whose value is the boolean
/// `true`, in their order.
pub open spec fn true_names(members: Seq<(Seq<char>, serde_json::Value)>) -> Seq<Seq<char>>
    decreases members.len(),
{
    if members.len() == 0 {
        seq![]
    } else {
        let before = true_names(members.drop_last());
        if flag_of(members.last().1) == Some(true) {
            before.push(members.last().0)
        } else {
            before
        }
    }
}

/// The list of strings that a stored list holds: the strings of an array,
/// and nothing for any other value.
pub open spec fn strings_of(value: serde_json::Value) -> Seq<Seq<char>> {
    match items_of(value) {
        Some(items) => texts_in(items),
        None => seq![],
    }
}

/// The favourites that a stored value holds. The current form is an array,
/// of which the strings count. The earlier form is an object from identifier
/// to membership, of which the names with the value `true` count, in the
/// order in which the object hands them out. Any other value holds none.
pub open spec fn favourites_of(value: serde_json::Value) -> Seq<Seq<char>> {
    match items_of(value) {
        Some(items) => texts_in(items),
        None => match object_of(value) {
            Some(object) => true_names(members_of(object)),
            None => seq![],
        },
    }
}

/// What a stored value holds as a list: its favourites where the earlier
/// form counts too, its strings where it does not.
pub open spec fn listed(value: serde_json::Value, with_earlier_form: bool) -> Seq<Seq<char>> {
    if with_earlier_form {
        favourites_of(value)
    } else {
        strings_of(value)
    }
}

/// Whether `r` is what loading a list gives for `found`: the empty list for
/// an absent file, the list that the text holds where the text is JSON, and
/// a failure where the file could not be read or its text is no JSON.
pub open spec fn list_loaded(
    found: Found<String>,
    with_earlier_form: bool,
    r: Result<Vec<String>, StoreError>,
) -> bool {
    match found {
        Found::Absent => r matches Ok(list) && list.deep_view() == Seq::<Seq<char>>::empty(),
        Found::Unreadable(text) => r == Err::<Vec<String>, StoreError>(StoreError::Io(text)),
        Found::Corrupt(text) => r == Err::<Vec<String>, StoreError>(StoreError::Decode(text)),
        Found::Present(text) => match parsed(text@) {
            Ok(value) => r matches Ok(list) && list.deep_view() == listed(
                value,
                with_earlier_form,
            ),
            Err(error) => r matches Err(StoreError::Decode(why)) && why@ == error_text(error),
        },
    }
}

/// Whether `r` is what loading the location table gives for `found`: the
/// empty table for an absent file, the table that the text holds where the
/// text is one, and a failure where the file could not be read or its text
/// is no table.
pub open spec fn table_loaded(
    found: Found<String>,
    r: Result<HashMap<String, String>, StoreError>,
) -> bool {
    match found {
        Found::Absent => r matches Ok(table) && table@ == Map::<String, String>::empty(),
        Found::Unreadable(text) => r == Err::<HashMap<String, String>, StoreError>(
            StoreError::Io(text),
        ),
        Found::Corrupt(text) => r == Err::<HashMap<String, String>, StoreError>(
            StoreError::Decode(text),
        ),
        Found::Present(text) => match parsed_table(text@) {
            Ok(held) => r matches Ok(table) && table.deep_view() == held,
            Err(error) => r matches Err(StoreError::Decode(why)) && why@ == error_text(error),
        },
    }
}

/// The strings among `items`, in their order.
fn texts(items: &Vec<serde_json::Value>) -> (out: Vec<String>)
    ensures
        out.deep_view() == texts_in(items@),
{
    let mut out: Vec<String> = Vec::new();
    let mut i: usize = 0;
    assert(items@.take(0) =~= seq![]);
    assert(out.deep_view() =~= seq![]);
    while i < items.len()
        invariant
            i <= items.len(),
            out.deep_view() == texts_in(items@.take(i as int)),
        decreases items.len() - i,
    {
        let ghost before = out.deep_view();
        assert(items@.take(i + 1).drop_last() =~= items@.take(i as int));
        match value_as_str(&items[i]) {
            Some(text) => {
                let owned = text.to_string();
                out.push(owned);
                assert(out.deep_view() =~= before.push(text@));
            },
            None => {},
        }
        i += 1;
    }
    assert(items@.take(items.len() as int) =~= items@);
    out
}

/// The names of the members of `object` whose value is `true`, in the order
/// in which the object hands them out.
fn names_set_true(object: &serde_json::Map<String, serde_json::Value>) -> (out: Vec<String>)
    ensures
        out.deep_view() == true_names(members_of(*object)),
{
    let entries = map_entries(object);
    let ghost members = members_of(*object);
    let mut out: Vec<String> = Vec::new();
    let mut i: usize = 0;
    assert(members.take(0) =~= seq![]);
    assert(out.deep_view() =~= seq![]);
    while i < entries.len()
        invariant
            i <= entries.len(),
            crate::json::same_members(entries@, members),
            out.deep_view() == true_names(members.take(i as int)),
        decreases entries.len() - i,
    {
        let ghost before = out.deep_view();
        assert(members.take(i + 1).drop_last() =~= members.take(i as int));
        let (name, value) = entries[i];
        assert(entries@[i as int].0@ == members[i as int].0);
        match value_as_bool(value) {
            Some(true) => {
                out.push(name.clone());
                assert(out.deep_view() =~= before.push(name@));
            },
            _ => {},
        }
        i += 1;
    }
    assert(members.take(entries.len() as int) =~= members);
    out
}

/// The list of strings that a stored value holds: the strings of an array,
/// in order, and nothing for any other value.
pub fn string_list(value: &serde_json::Value) -> (list: Vec<String>)
    ensures
        list.deep_view() == strings_of(*value),
{
    match value_as_array(value) {
        Some(items) => texts(items),
        None => {
            let list: Vec<String> = Vec::new();
            assert(list.deep_view() =~= seq![]);
            list
        },
    }
}

/// Brings the favourites of either stored form into the one list of
/// identifiers: the strings of an array in their order, or the names of an
/// object whose value is `true`. Any other value gives the empty list.
pub fn normalize_favourites(value: &serde_json::Value) -> (list: Vec<String>)
    ensures
        list.deep_view() == favourites_of(*value),
{
    match value_as_array(value) {
        Some(items) => texts(items),
        None => match value_as_object(value) {
            Some(object) => names_set_true(object),
            None => {
                let list: Vec<String> = Vec::new();
                assert(list.deep_view() =~= seq![]);
                list
            },
        },
    }
}

/// Loads a list from what was found at its place.
fn load_list(found: Found<String>, with_earlier_form: bool) -> (r: Result<Vec<String>, StoreError>)
    ensures
        list_loaded(found, with_earlier_form, r),
{
    match found {
        Found::Absent => {
            let list: Vec<String> = Vec::new();
            assert(list.deep_view() =~= seq![]);
            Ok(list)
        },
        Found::Unreadable(text) => Err(StoreError::Io(text)),
        Found::Corrupt(text) => Err(StoreError::Decode(text)),
        Found::Present(text) => match parse_value(text.as_str()) {
            Ok(value) => if with_earlier_form {
                Ok(normalize_favourites(&value))
            } else {
                Ok(string_list(&value))
            },
            Err(error) => Err(StoreError::Decode(error_message(&error))),
        },
    }
}

/// Loads the favourites from what was found at their place. An absent file
/// gives the empty list; a text that is JSON gives its favourites, whichever
/// of the two forms it has; a file that could not be read and a text that is
/// no JSON fail.
pub fn load_favourites(found: Found<String>) -> (r: Result<Vec<String>, StoreError>)
    ensures
        list_loaded(found, true, r),
{
    load_list(found, true)
}

/// Loads a word list from what was found at its place. An absent file gives
/// the empty list; a text that is JSON gives the strings of its array, and
/// the empty list where it is no array; a file that could not be read and a
/// text that is no JSON fail.
pub fn load_string_list(found: Found<String>) -> (r: Result<Vec<String>, StoreError>)
    ensures
        list_loaded(found, false, r),
{
    load_list(found, false)
}

/// Loads the salutations from what was found at their place, as
/// `load_string_list` does.
pub fn load_salutations(found: Found<String>) -> (r: Result<Vec<String>, StoreError>)
    ensures
        list_loaded(found, false, r),
{
    load_string_list(found)
}

/// Loads the valedictions from what was found at their place, as
/// `load_string_list` does.
pub fn load_valedictions(found: Found<String>) -> (r: Result<Vec<String>, StoreError>)
    ensures
        list_loaded(found, false, r),
{
    load_string_list(found)
}

/// The text under which the favourites are stored: always the list form,
/// whatever form they were read from. Fails only where the list cannot be
/// written out.
pub fn save_favourites(favourites: &Vec<String>) -> (r: Result<String, StoreError>)
    ensures
        match pretty_list(favourites.deep_view()) {
            Ok(text) => r matches Ok(content) && content@ == text,
            Err(error) => r matches Err(StoreError::Io(why)) && why@ == error_text(error),
        },
{
    match to_pretty_list(favourites) {
        Ok(content) => Ok(content),
        Err(error) => Err(StoreError::Io(error_message(&error))),
    }
}

/// Loads the location table from what was found at its place. An absent
/// file gives the empty table; a text that is a JSON object of strings gives
/// that table; a file that could not be read and any other text fail.
pub fn load_locations(found: Found<String>) -> (r: Result<HashMap<String, String>, StoreError>)
    ensures
        table_loaded(found, r),
{
    match found {
        Found::Absent => Ok(HashMap::new()),
        Found::Unreadable(text) => Err(StoreError::Io(text)),
        Found::Corrupt(text) => Err(StoreError::Decode(text)),
        Found::Present(text) => match parse_table(text.as_str()) {
            Ok(table) => Ok(table),
            Err(error) => Err(StoreError::Decode(error_message(&error))),
        },
    }
}

/// A document that was never written is no failure: the cache, the
/// favourites, the word lists and the location table load as their empty
/// values where their file is absent. (Signatures and images are asked for
/// by name, and their absence is reported.)
pub proof fn law_absent_documents_load_as_empty(
    with_earlier_form: bool,
    list: Result<Vec<String>, StoreError>,
    table: Result<HashMap<String, String>, StoreError>,
)
    requires
        list_loaded(Found::Absent, with_earlier_form, list),
        table_loaded(Found::Absent, table),
    ensures
        cache_loaded(Found::Absent) == Ok::<Cache, StoreError>(empty_cache()),
        list matches Ok(items) && items.deep_view().len() == 0,
        table matches Ok(entries) && entries@.len() == 0,
{
}

} // verus!
