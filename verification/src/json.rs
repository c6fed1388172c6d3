//! JSON texts, read and written through `serde_json`.
//!
//! The crate's wire formats are JSON. What `serde_json` makes of a text is not
//! restated here: each call has a name for its result, and the functions of this
//! crate say exactly what they do with those results.

use std::collections::HashMap;
use vstd::prelude::*;

verus! {

/// `serde_json::Error`, the error of reading or writing JSON. The library only
/// carries it: nothing is claimed of what it holds.
#[verifier::external_type_specification]
#[verifier::external_body]
pub struct ExJsonError(serde_json::Error);

/// The members of the JSON object that a text holds, each value as its own JSON
/// text; `None` where `serde_json` does not read the text as an object.
pub uninterp spec fn json_object_members(text: Seq<char>) -> Option<Seq<(Seq<char>, Seq<char>)>>;

/// What `serde_json` reads from a text as an optional string: `Some(None)` for
/// `null`, `Some(Some(s))` for a string, `None` where it reports an error.
pub uninterp spec fn json_optional_string(text: Seq<char>) -> Option<Option<Seq<char>>>;

/// Reads a JSON text as an object with `serde_json::from_str` and hands out its
/// members. The contract claims only that the outcome depends on the text alone.
#[verifier::external_body]
pub(crate) fn parse_object_members(text: &str) -> (members: Option<Vec<(String, String)>>)
    ensures
        members.deep_view() == json_object_members(text@),
{
    match serde_json::from_str::<std::collections::BTreeMap<String, Box<serde_json::value::RawValue>>>(text) {
        Ok(map) => Some(map.into_iter().map(|(k, v)| (k, v.get().to_owned())).collect()),
        Err(_) => None,
    }
}

/// Reads a JSON text as an optional string with `serde_json::from_str`. The
/// contract claims only that the outcome depends on the text alone.
#[verifier::external_body]
pub(crate) fn parse_optional_string(text: &str) -> (value: Option<Option<String>>)
    ensures
        value.deep_view() == json_optional_string(text@),
{
    match serde_json::from_str::<Option<String>>(text) {
        Ok(value) => Some(value),
        Err(_) => None,
    }
}

/// The JSON text that `serde_json` writes for a list of strings; `None` where it
/// reports an error.
pub uninterp spec fn json_string_list(items: Seq<Seq<char>>) -> Option<Seq<char>>;

/// Writes a list of strings as a JSON array with `serde_json::to_string`. The
/// contract claims only that the outcome depends on the strings alone; the error,
/// where there is one, is handed on as it came.
#[verifier::external_body]
pub(crate) fn write_string_list(items: &Vec<String>) -> (text: Result<String, serde_json::Error>)
    ensures
        (match text {
            Ok(t) => json_string_list(items.deep_view()) == Some(t@),
            Err(_) => json_string_list(items.deep_view()) is None,
        }),
{
    serde_json::to_string::<Vec<String>>(items)
}

/// What `serde_json` reads from a text as a signed 64-bit integer; `None` where
/// it reports an error.
pub uninterp spec fn json_integer(text: Seq<char>) -> Option<i64>;

/// Reads a JSON text as an `i64` with `serde_json::from_str`. The contract claims
/// only that the outcome depends on the text alone.
#[verifier::external_body]
pub(crate) fn parse_integer(text: &str) -> (value: Option<i64>)
    ensures
        value == json_integer(text@),
{
    match serde_json::from_str::<i64>(text) {
        Ok(value) => Some(value),
        Err(_) => None,
    }
}

/// What `serde_json` reads from a text as a map from strings to signed 64-bit
/// integers; `None` where it reports an error.
pub uninterp spec fn json_integer_map(text: Seq<char>) -> Option<Map<Seq<char>, i64>>;

/// Reads a JSON text as a map from strings to `i64` with
/// `serde_json::from_str`. The contract claims only that the outcome depends on
/// the text alone.
#[verifier::external_body]
pub(crate) fn parse_integer_map(text: &str) -> (value: Option<HashMap<String, i64>>)
    ensures
        value.deep_view() == json_integer_map(text@),
{
    match serde_json::from_str::<HashMap<String, i64>>(text) {
        Ok(value) => Some(value),
        Err(_) => None,
    }
}

/// The value of the first member of `members` whose key is `key`.
pub open spec fn member(members: Seq<(Seq<char>, Seq<char>)>, key: Seq<char>) -> Option<
    Seq<char>,
>
    decreases members.len(),
{
    if members.len() == 0 {
        None
    } else if members[0].0 == key {
        Some(members[0].1)
    } else {
        member(members.drop_first(), key)
    }
}

/// The string under `key`, which must be there and must be a JSON string.
pub open spec fn string_member(members: Seq<(Seq<char>, Seq<char>)>, key: Seq<char>) -> Option<
    Seq<char>,
> {
    match member(members, key) {
        Some(text) => match json_optional_string(text) {
            Some(Some(value)) => Some(value),
            _ => None,
        },
        None => None,
    }
}

/// The string under `key`, which may be missing or `null` (`Some(None)`); `None`
/// where the member holds anything else.
pub open spec fn optional_string_member(
    members: Seq<(Seq<char>, Seq<char>)>,
    key: Seq<char>,
) -> Option<Option<Seq<char>>> {
    match member(members, key) {
        Some(text) => json_optional_string(text),
        None => Some(None),
    }
}

/// The string under `key`, or the empty string where the member is missing;
/// `None` where the member holds anything but a string.
pub open spec fn defaulted_string_member(
    members: Seq<(Seq<char>, Seq<char>)>,
    key: Seq<char>,
) -> Option<Seq<char>> {
    match member(members, key) {
        Some(_) => string_member(members, key),
        None => Some(Seq::<char>::empty()),
    }
}

/// The integer under `key`, which must be there.
pub open spec fn integer_member(members: Seq<(Seq<char>, Seq<char>)>, key: Seq<char>) -> Option<
    i64,
> {
    match member(members, key) {
        Some(text) => json_integer(text),
        None => None,
    }
}

/// The map under `key`, or the empty map where the member is missing; `None`
/// where the member holds anything but a map from strings to integers.
pub open spec fn integer_map_member(
    members: Seq<(Seq<char>, Seq<char>)>,
    key: Seq<char>,
) -> Option<Map<Seq<char>, i64>> {
    match member(members, key) {
        Some(text) => json_integer_map(text),
        None => Some(Map::<Seq<char>, i64>::empty()),
    }
}

/// The routing key of an inbound text: the string under `channel` of the JSON
/// object that the text holds.
pub open spec fn spec_routing_key(text: Seq<char>) -> Option<Seq<char>> {
    match json_object_members(text) {
        Some(members) => string_member(members, "channel"@),
        None => None,
    }
}

/// Finds the value of the first member whose key is `key`.
pub fn find_member<'a>(members: &'a Vec<(String, String)>, key: &str) -> (value: Option<
    &'a String,
>)
    ensures
        value.deep_view() == member(members.deep_view(), key@),
{
    let wanted = key.to_owned();
    let ghost all = members.deep_view();
    assert(all.subrange(0, all.len() as int) =~= all);
    let mut i: usize = 0;
    while i < members.len()
        invariant
            i <= members.len(),
            all == members.deep_view(),
            wanted@ == key@,
            member(all, key@) == member(all.subrange(i as int, all.len() as int), key@),
        decreases members.len() - i,
    {
        let ghost rest = all.subrange(i as int, all.len() as int);
        assert(rest[0] == all[i as int]);
        assert(all[i as int] == members@[i as int].deep_view());
        if members[i].0 == wanted {
            return Some(&members[i].1);
        }
        assert(rest.drop_first() =~= all.subrange(i + 1, all.len() as int));
        i = i + 1;
    }
    None
}

/// Reads the member `key` as a string that must be there.
pub fn read_string_member(members: &Vec<(String, String)>, key: &str) -> (value: Option<String>)
    ensures
        value.deep_view() == string_member(members.deep_view(), key@),
{
    match find_member(members, key) {
        Some(text) => match parse_optional_string(text.as_str()) {
            Some(Some(value)) => Some(value),
            _ => None,
        },
        None => None,
    }
}

/// Reads the member `key` as a string that may be missing or `null`.
pub fn read_optional_string_member(members: &Vec<(String, String)>, key: &str) -> (value: Option<
    Option<String>,
>)
    ensures
        value.deep_view() == optional_string_member(members.deep_view(), key@),
{
    match find_member(members, key) {
        Some(text) => parse_optional_string(text.as_str()),
        None => Some(None),
    }
}

/// Reads the member `key` as a string, taking a missing member for the empty
/// string.
pub fn read_defaulted_string_member(members: &Vec<(String, String)>, key: &str) -> (value: Option<
    String,
>)
    ensures
        value.deep_view() == defaulted_string_member(members.deep_view(), key@),
{
    match find_member(members, key) {
        Some(_) => read_string_member(members, key),
        None => Some(String::new()),
    }
}

/// Reads the member `key` as an integer that must be there.
pub fn read_integer_member(members: &Vec<(String, String)>, key: &str) -> (value: Option<i64>)
    ensures
        value == integer_member(members.deep_view(), key@),
{
    match find_member(members, key) {
        Some(text) => parse_integer(text.as_str()),
        None => None,
    }
}

/// Reads the member `key` as a map from strings to integers, taking a missing
/// member for the empty map.
pub fn read_integer_map_member(members: &Vec<(String, String)>, key: &str) -> (value: Option<
    HashMap<String, i64>,
>)
    ensures
        value.deep_view() == integer_map_member(members.deep_view(), key@),
{
    match find_member(members, key) {
        Some(text) => parse_integer_map(text.as_str()),
        None => {
            let empty: HashMap<String, i64> = HashMap::new();
            proof {
                vstd::std_specs::hash::lemma_hashmap_deepview_dom(empty);
                assert(empty.deep_view().dom() =~= Set::<Seq<char>>::empty());
                assert(empty.deep_view() =~= Map::<Seq<char>, i64>::empty());
            }
            Some(empty)
        },
    }
}

/// Reads a JSON text as an object and hands out its members; `None` where the
/// text is no JSON object.
pub fn object_members(text: &str) -> (members: Option<Vec<(String, String)>>)
    ensures
        members.deep_view() == json_object_members(text@),
{
    parse_object_members(text)
}

/// Reads the routing key of an inbound text.
pub fn routing_key(text: &str) -> (key: Option<String>)
    ensures
        key.deep_view() == spec_routing_key(text@),
{
    match parse_object_members(text) {
        Some(members) => read_string_member(&members, "channel"),
        None => None,
    }
}

} // verus!
