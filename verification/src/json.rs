use crate::assoc::{assoc_map, lemma_assoc_dom, lemma_assoc_value};
use crate::text::text_eq;
use vstd::prelude::*;
use vstd::string::StringExecFns;

verus! {

/// The mathematical value of a JSON document: what two documents have in
/// common when they differ only in spacing or in the order of members.
pub enum JsonValue {
    Null,
    Bool(bool),
    Int(int),
    Decimal(Seq<char>),
    Str(Seq<char>),
    Array(Seq<JsonValue>),
    Object(Map<Seq<char>, JsonValue>),
}

/// A JSON document held as plain values.
///
/// An object keeps its members in the order they were written. Where a key
/// occurs twice the later member is the one that counts.
#[derive(Debug, PartialEq, Eq)]
pub enum Json {
    Null,
    Bool(bool),
    /// An integer that fits in 64 signed bits.
    Int(i64),
    /// Any other number, as its JSON text. It is written out as `serde_json`
    /// reads that text, and as `null` where the text is no JSON.
    Decimal(String),
    Str(String),
    Array(Vec<Json>),
    Object(Vec<(String, Json)>),
}

/// The value of each item of a list.
pub open spec fn items_value(items: Seq<Json>) -> Seq<JsonValue>
    decreases items,
{
    Seq::new(items.len(), |i: int| if 0 <= i < items.len() { items[i].value() } else { JsonValue::Null })
}

/// The members of an object as a map; a later member replaces an earlier one
/// with the same key.
pub open spec fn members_value(members: Seq<(String, Json)>) -> Map<Seq<char>, JsonValue>
    decreases members, 0nat,
{
    if members.len() == 0 {
        Map::empty()
    } else {
        let last = members[members.len() - 1];
        members_value(members.subrange(0, members.len() - 1)).insert(last.0@, last.1.value())
    }
}

impl Json {
    /// The mathematical value this document denotes.
    pub open spec fn value(self) -> JsonValue
        decreases self,
    {
        match self {
            Json::Null => JsonValue::Null,
            Json::Bool(b) => JsonValue::Bool(b),
            Json::Int(n) => JsonValue::Int(n as int),
            Json::Decimal(t) => JsonValue::Decimal(t@),
            Json::Str(s) => JsonValue::Str(s@),
            Json::Array(items) => JsonValue::Array(items_value(items@)),
            Json::Object(members) => JsonValue::Object(members_value(members@)),
        }
    }
}

/// The members of an object as key and value pairs.
pub open spec fn members_pairs(members: Seq<(String, Json)>) -> Seq<(Seq<char>, JsonValue)> {
    members.map_values(|m: (String, Json)| (m.0@, m.1.value()))
}

/// The map of an object is the map of its key and value pairs.
pub proof fn lemma_members_value(members: Seq<(String, Json)>)
    ensures
        members_value(members) == assoc_map(members_pairs(members)),
    decreases members.len(),
{
    if members.len() > 0 {
        let front = members.subrange(0, members.len() - 1);
        lemma_members_value(front);
        assert(members_pairs(members).drop_last() =~= members_pairs(front));
    }
}

/// What a document gives under a key: the member with that key where the
/// document is an object that has one.
pub open spec fn value_get(value: JsonValue, key: Seq<char>) -> Option<JsonValue> {
    match value {
        JsonValue::Object(members) => if members.contains_key(key) {
            Some(members[key])
        } else {
            None
        },
        _ => None,
    }
}

/// The text of a document that is a string.
pub open spec fn value_str(value: JsonValue) -> Option<Seq<char>> {
    match value {
        JsonValue::Str(text) => Some(text),
        _ => None,
    }
}

/// The text of the string member under a key.
pub open spec fn value_get_str(value: JsonValue, key: Seq<char>) -> Option<Seq<char>> {
    match value_get(value, key) {
        Some(member) => value_str(member),
        None => None,
    }
}

/// The document that a JSON text denotes, or what is wrong with the text
/// where it is not well formed.
pub uninterp spec fn json_parse(text: Seq<char>) -> Result<JsonValue, Seq<char>>;

/// The compact JSON text of a document, the members of each object in the
/// order of their keys.
pub uninterp spec fn json_text(value: JsonValue) -> Seq<char>;

impl View for Json {
    type V = JsonValue;

    open spec fn view(&self) -> JsonValue {
        self.value()
    }
}

impl Json {
    /// The member under `key`, where this is an object that has one.
    pub fn get(&self, key: &str) -> (r: Option<&Json>)
        ensures
            match r {
                Some(member) => value_get(self@, key@) == Some(member@),
                None => value_get(self@, key@).is_none(),
            },
    {
        match self {
            Json::Object(members) => {
                proof {
                    lemma_members_value(members@);
                    lemma_assoc_dom(members_pairs(members@));
                }
                let mut i: usize = members.len();
                while i > 0
                    invariant
                        i <= members@.len(),
                        self@ == JsonValue::Object(assoc_map(members_pairs(members@))),
                        forall|k: int| i <= k < members@.len() ==> members@[k].0@ != key@,
                    decreases i,
                {
                    i -= 1;
                    if text_eq(members[i].0.as_str(), key) {
                        proof {
                            let pairs = members_pairs(members@);
                            assert(pairs[i as int] == (members@[i as int].0@, members@[i as int].1.value()));
                            assert forall|j: int| i < j < pairs.len() implies (#[trigger] pairs[j]).0
                                != pairs[i as int].0 by {
                                assert(pairs[j].0 == members@[j].0@);
                            }
                            lemma_assoc_value(pairs, i as int);
                        }
                        return Some(&members[i].1);
                    }
                }
                proof {
                    let pairs = members_pairs(members@);
                    assert forall|k: int| 0 <= k < pairs.len() implies (#[trigger] pairs[k]).0 != key@ by {
                        assert(pairs[k].0 == members@[k].0@);
                    }
                }
                None
            },
            _ => None,
        }
    }

    /// The text, where this is a string.
    pub fn as_str(&self) -> (r: Option<&str>)
        ensures
            match r {
                Some(text) => value_str(self@) == Some(text@),
                None => value_str(self@).is_none(),
            },
    {
        match self {
            Json::Str(text) => Some(text.as_str()),
            _ => None,
        }
    }

    /// The text of the string member under `key`.
    pub fn get_str(&self, key: &str) -> (r: Option<&str>)
        ensures
            match r {
                Some(text) => value_get_str(self@, key@) == Some(text@),
                None => value_get_str(self@, key@).is_none(),
            },
    {
        match self.get(key) {
            Some(member) => member.as_str(),
            None => None,
        }
    }
}

/// `serde_json::Value`, carried between the calls into `serde_json` and
/// never looked into.
#[verifier::external_type_specification]
#[verifier::external_body]
pub struct ExValue(serde_json::Value);

/// Copies a `serde_json::Value` into a [`Json`], variant by variant. A number
/// that `Number::as_i64` gives as an integer becomes `Int`, any other number
/// its text.
#[verifier::external_body]
fn from_value(v: &serde_json::Value) -> Json {
    match v {
        serde_json::Value::Null => Json::Null,
        serde_json::Value::Bool(b) => Json::Bool(*b),
        serde_json::Value::Number(n) => match n.as_i64() {
            Some(i) => Json::Int(i),
            None => Json::Decimal(n.to_string()),
        },
        serde_json::Value::String(s) => Json::Str(s.clone()),
        serde_json::Value::Array(a) => Json::Array(a.iter().map(from_value).collect()),
        serde_json::Value::Object(m) => Json::Object(
            m.iter().map(|(k, x)| (k.clone(), from_value(x))).collect(),
        ),
    }
}

/// Copies a [`Json`] into a `serde_json::Value`, variant by variant. The
/// members of an object go into a `serde_json::Map` one `Map::insert` after the
/// other, in the order of the list, so that a later member replaces an earlier
/// one with the same key. The text of a `Decimal` is handed to
/// `serde_json::from_str`, and `null` stands in where that reads nothing.
#[verifier::external_body]
fn to_value(j: &Json) -> serde_json::Value {
    match j {
        Json::Null => serde_json::Value::Null,
        Json::Bool(b) => serde_json::Value::Bool(*b),
        Json::Int(n) => serde_json::Value::from(*n),
        Json::Decimal(t) => serde_json::from_str(t).unwrap_or(serde_json::Value::Null),
        Json::Str(s) => serde_json::Value::String(s.clone()),
        Json::Array(a) => serde_json::Value::Array(a.iter().map(to_value).collect()),
        Json::Object(m) => {
            let mut map = serde_json::Map::new();
            for (k, x) in m { map.insert(k.clone(), to_value(x)); }
            serde_json::Value::Object(map)
        },
    }
}

/// Reads a JSON text with `serde_json::from_str`. Whether the text is well
/// formed, which document it denotes and what the error says depend on the
/// text alone.
#[verifier::external_body]
fn parse_text(text: &str) -> (r: Result<Json, String>)
    ensures
        match r {
            Ok(doc) => json_parse(text@) == Ok::<JsonValue, Seq<char>>(doc@),
            Err(e) => json_parse(text@) == Err::<JsonValue, Seq<char>>(e@),
        },
{
    match serde_json::from_str::<serde_json::Value>(text) {
        Ok(v) => Ok(from_value(&v)),
        Err(e) => Err(e.to_string()),
    }
}

/// Writes a document with `serde_json::to_string`: compact, the members of
/// each object in the order of their keys, which is how `serde_json::Map`
/// keeps them. The text depends on the value of the document alone.
#[verifier::external_body]
fn render_text(doc: &Json) -> (r: String)
    ensures
        r@ == json_text(doc@),
{
    serde_json::to_string(&to_value(doc)).unwrap_or_default()
}

impl Json {
    /// Reads a JSON text; where it is not well formed the error says why.
    pub fn parse(text: &str) -> (r: Result<Json, String>)
        ensures
            match r {
                Ok(doc) => json_parse(text@) == Ok::<JsonValue, Seq<char>>(doc@),
                Err(e) => json_parse(text@) == Err::<JsonValue, Seq<char>>(e@),
            },
    {
        parse_text(text)
    }

    /// Writes the document as compact JSON text.
    pub fn render(&self) -> (r: String)
        ensures
            r@ == json_text(self@),
    {
        render_text(self)
    }
}

impl Clone for Json {
    fn clone(&self) -> (r: Self)
        ensures
            r@ == self@,
        decreases self,
    {
        match self {
            Json::Null => Json::Null,
            Json::Bool(b) => Json::Bool(*b),
            Json::Int(n) => Json::Int(*n),
            Json::Decimal(t) => Json::Decimal(t.clone()),
            Json::Str(s) => Json::Str(s.clone()),
            Json::Array(items) => {
                let mut out: Vec<Json> = Vec::new();
                let mut i: usize = 0;
                while i < items.len()
                    invariant
                        i <= items@.len(),
                        out@.len() == i,
                        forall|k: int| 0 <= k < i ==> (#[trigger] out@[k]).value() == items@[k].value(),
                        decreases_to!(*self => *items),
                    decreases items@.len() - i,
                {
                    proof {
                        vstd::std_specs::vec::axiom_vec_index_decreases(*items, i as int);
                    }
                    out.push(items[i].clone());
                    i += 1;
                }
                assert(items_value(out@) =~= items_value(items@));
                Json::Array(out)
            },
            Json::Object(members) => {
                let mut out: Vec<(String, Json)> = Vec::new();
                let mut i: usize = 0;
                while i < members.len()
                    invariant
                        i <= members@.len(),
                        out@.len() == i,
                        forall|k: int|
                            0 <= k < i ==> (#[trigger] out@[k]).0@ == members@[k].0@ && out@[k].1.value()
                                == members@[k].1.value(),
                        decreases_to!(*self => *members),
                    decreases members@.len() - i,
                {
                    proof {
                        vstd::std_specs::vec::axiom_vec_index_decreases(*members, i as int);
                    }
                    out.push((members[i].0.clone(), members[i].1.clone()));
                    i += 1;
                }
                proof {
                    lemma_members_value(out@);
                    lemma_members_value(members@);
                    assert(members_pairs(out@) =~= members_pairs(members@));
                }
                Json::Object(out)
            },
        }
    }
}

/// The value of a document that may be absent.
pub open spec fn opt_value(doc: Option<Json>) -> Option<JsonValue> {
    match doc {
        Some(d) => Some(d@),
        None => None,
    }
}

/// Adds a member at the end of an object's member list, where it replaces
/// any member with the same key.
pub fn push_member(members: &mut Vec<(String, Json)>, key: &str, value: Json)
    ensures
        members_value(final(members)@) == members_value(old(members)@).insert(key@, value@),
        final(members)@ == old(members)@.push((final(members)@.last().0, value)),
        final(members)@.last().0@ == key@,
{
    let ghost before = members@;
    members.push((String::from_str(key), value));
    assert(members@.subrange(0, members@.len() - 1) =~= before);
}

/// A copy of a document that may be absent.
pub fn clone_opt(doc: &Option<Json>) -> (r: Option<Json>)
    ensures
        opt_value(r) == opt_value(*doc),
{
    match doc {
        Some(d) => Some(d.clone()),
        None => None,
    }
}

/// The members of a document that is an object.
pub open spec fn value_members(value: JsonValue) -> Option<Map<Seq<char>, JsonValue>> {
    match value {
        JsonValue::Object(members) => Some(members),
        _ => None,
    }
}

/// The items of a document that is an array.
pub open spec fn value_items(value: JsonValue) -> Option<Seq<JsonValue>> {
    match value {
        JsonValue::Array(items) => Some(items),
        _ => None,
    }
}

impl Json {
    /// The members, where this is an object. A key may occur twice among
    /// them; the last member with a key is the one that counts.
    pub fn as_object(&self) -> (r: Option<&Vec<(String, Json)>>)
        ensures
            match r {
                Some(members) => value_members(self@) == Some(assoc_map(members_pairs(members@))),
                None => value_members(self@).is_none(),
            },
    {
        match self {
            Json::Object(members) => {
                proof {
                    lemma_members_value(members@);
                }
                Some(members)
            },
            _ => None,
        }
    }

    /// The items, where this is an array.
    pub fn as_array(&self) -> (r: Option<&Vec<Json>>)
        ensures
            match r {
                Some(items) => value_items(self@) == Some(items_value(items@)),
                None => value_items(self@).is_none(),
            },
    {
        match self {
            Json::Array(items) => Some(items),
            _ => None,
        }
    }
}

} // verus!
