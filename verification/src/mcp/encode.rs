use crate::assoc::assoc_map;
use crate::environment::handle::{rfc3339_text, Timestamp};
use crate::environment::vars::{pairs_view, EnvVars};
use crate::json::{items_value, members_value, push_member, Json, JsonValue};
use crate::mcp::params::texts;
use vstd::prelude::*;

verus! {

/// An object whose members are the strings of a map.
pub open spec fn string_object(vars: Map<Seq<char>, Seq<char>>) -> JsonValue {
    JsonValue::Object(vars.map_values(|text: Seq<char>| JsonValue::Str(text)))
}

/// An array whose items are the strings of a list.
pub open spec fn string_array(list: Seq<Seq<char>>) -> JsonValue {
    JsonValue::Array(list.map_values(|text: Seq<char>| JsonValue::Str(text)))
}

/// A point in time as a document: its RFC 3339 text with the offset
/// `+00:00`, or `null` where the calendar cannot express it.
pub open spec fn time_value(at: Timestamp) -> JsonValue {
    match rfc3339_text(at.seconds as int, at.nanos as int, false) {
        Some(text) => JsonValue::Str(text),
        None => JsonValue::Null,
    }
}

/// A point in time as a stored document: its RFC 3339 text with the offset
/// `Z`, or `null` where the calendar cannot express it.
pub open spec fn stored_time_value(at: Timestamp) -> JsonValue {
    match rfc3339_text(at.seconds as int, at.nanos as int, true) {
        Some(text) => JsonValue::Str(text),
        None => JsonValue::Null,
    }
}

/// Writes variables as an object of strings.
pub fn encode_vars(vars: &EnvVars) -> (doc: Json)
    ensures
        doc@ == string_object(vars@),
{
    let pairs = vars.to_pairs();
    let ghost all = pairs_view(pairs@);
    let mut members: Vec<(String, Json)> = Vec::new();
    let mut i: usize = 0;
    assert(all.take(0) =~= Seq::empty());
    assert(members_value(members@) =~= assoc_map(all.take(0)).map_values(
        |text: Seq<char>| JsonValue::Str(text),
    ));
    while i < pairs.len()
        invariant
            i <= pairs@.len(),
            all == pairs_view(pairs@),
            members_value(members@) == assoc_map(all.take(i as int)).map_values(
                |text: Seq<char>| JsonValue::Str(text),
            ),
        decreases pairs@.len() - i,
    {
        proof {
            assert(all.take(i as int + 1).drop_last() =~= all.take(i as int));
            assert(all.take(i as int + 1).last() == (pairs@[i as int].0@, pairs@[i as int].1@));
        }
        let ghost done = assoc_map(all.take(i as int));
        push_member(&mut members, pairs[i].0.as_str(), Json::Str(pairs[i].1.clone()));
        assert(members_value(members@) =~= done.insert(
            pairs@[i as int].0@,
            pairs@[i as int].1@,
        ).map_values(|text: Seq<char>| JsonValue::Str(text)));
        i += 1;
    }
    assert(all.take(pairs@.len() as int) =~= all);
    Json::Object(members)
}

/// Writes a list of texts as an array of strings.
pub fn encode_list(list: &Vec<String>) -> (doc: Json)
    ensures
        doc@ == string_array(texts(list@)),
{
    let mut items: Vec<Json> = Vec::new();
    let mut i: usize = 0;
    while i < list.len()
        invariant
            i <= list@.len(),
            items@.len() == i,
            forall|k: int| 0 <= k < i ==> (#[trigger] items@[k])@ == JsonValue::Str(list@[k]@),
        decreases list@.len() - i,
    {
        items.push(Json::Str(list[i].clone()));
        i += 1;
    }
    assert(items_value(items@) =~= texts(list@).map_values(|text: Seq<char>| JsonValue::Str(text)));
    Json::Array(items)
}

/// Writes a point in time as a document.
pub fn encode_time(at: Timestamp) -> (doc: Json)
    ensures
        doc@ == time_value(at),
{
    match at.to_rfc3339() {
        Some(text) => Json::Str(text),
        None => Json::Null,
    }
}

/// Writes a point in time as a stored document.
pub fn encode_stored_time(at: Timestamp) -> (doc: Json)
    ensures
        doc@ == stored_time_value(at),
{
    match at.to_rfc3339_zulu() {
        Some(text) => Json::Str(text),
        None => Json::Null,
    }
}

} // verus!
