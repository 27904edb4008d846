//! JSON documents as the protocol layer reads and writes them.

use vstd::prelude::*;
use crate::text::str_eq;

verus! {

/// One member of a JSON object.
#[derive(Debug, PartialEq)]
pub struct Member {
    pub key: String,
    pub value: Json,
}

/// A JSON document held as plain values.
///
/// Numbers keep their decimal text, so integers of any width and fractions
/// pass through unchanged.
#[derive(Debug, PartialEq)]
pub enum Json {
    Null,
    Bool(bool),
    Number(String),
    Text(String),
    Array(Vec<Json>),
    Object(Vec<Member>),
}

/// The mathematical value of a [`Json`] document.
pub enum JsonValue {
    Null,
    Bool(bool),
    Number(Seq<char>),
    Text(Seq<char>),
    Array(Seq<JsonValue>),
    Object(Seq<Field>),
}

/// The mathematical value of a [`Member`].
pub struct Field {
    pub name: Seq<char>,
    pub value: JsonValue,
}

impl View for Json {
    type V = JsonValue;

    open spec fn view(&self) -> JsonValue
        decreases self,
    {
        match self {
            Json::Null => JsonValue::Null,
            Json::Bool(b) => JsonValue::Bool(*b),
            Json::Number(s) => JsonValue::Number(s@),
            Json::Text(s) => JsonValue::Text(s@),
            Json::Array(items) => JsonValue::Array(
                Seq::new(
                    items@.len(),
                    |i: int|
                        if 0 <= i < items@.len() {
                            items@[i].view()
                        } else {
                            JsonValue::Null
                        },
                ),
            ),
            Json::Object(members) => JsonValue::Object(
                Seq::new(
                    members@.len(),
                    |i: int|
                        if 0 <= i < members@.len() {
                            Field { name: members@[i].key@, value: members@[i].value.view() }
                        } else {
                            Field { name: Seq::empty(), value: JsonValue::Null }
                        },
                ),
            ),
        }
    }
}

/// The value of the first member named `key` at or after position `from`.
pub open spec fn member_from(members: Seq<Field>, key: Seq<char>, from: int) -> Option<JsonValue>
    decreases members.len() - from,
{
    if from < 0 || from >= members.len() {
        None
    } else if members[from].name == key {
        Some(members[from].value)
    } else {
        member_from(members, key, from + 1)
    }
}

impl JsonValue {
    /// The member `key` of an object; `None` for anything but an object that has it.
    pub open spec fn field(self, key: Seq<char>) -> Option<JsonValue> {
        match self {
            JsonValue::Object(members) => member_from(members, key, 0),
            _ => None,
        }
    }

    /// The text of a string value.
    pub open spec fn text(self) -> Option<Seq<char>> {
        match self {
            JsonValue::Text(s) => Some(s),
            _ => None,
        }
    }

    /// The truth value of a boolean.
    pub open spec fn flag(self) -> Option<bool> {
        match self {
            JsonValue::Bool(b) => Some(b),
            _ => None,
        }
    }

    /// The items of an array.
    pub open spec fn items(self) -> Option<Seq<JsonValue>> {
        match self {
            JsonValue::Array(items) => Some(items),
            _ => None,
        }
    }
}

/// `field` through an optional parent: the chained lookup `a.b.c`.
pub open spec fn field_of(parent: Option<JsonValue>, key: Seq<char>) -> Option<JsonValue> {
    match parent {
        Some(v) => v.field(key),
        None => None,
    }
}

/// The document that a text holds, as `serde_json` reads it; `None` where
/// the text is not JSON.
pub uninterp spec fn json_document(text: Seq<char>) -> Option<JsonValue>;

/// What a `serde_json::Value` holds, variant for variant: a number as the
/// text that `serde_json` prints for it, an object's members in the order
/// in which `serde_json` walks them.
pub uninterp spec fn value_model(value: serde_json::Value) -> JsonValue;

/// The `serde_json::Value` built for a document, variant for variant: a
/// number from its text (null where `serde_json` does not take the text),
/// an object by inserting its members in order.
pub uninterp spec fn built_value(json: JsonValue) -> serde_json::Value;

/// The compact text that `serde_json` writes for a value.
pub uninterp spec fn value_rendering(value: serde_json::Value) -> Seq<char>;

/// The compact text of a document.
pub open spec fn json_rendering(value: JsonValue) -> Seq<char> {
    value_rendering(built_value(value))
}

/// `serde_json::Value`, carried as it is; what it holds is read through
/// [`value_model`] alone.
#[verifier::external_type_specification]
#[verifier::external_body]
pub struct ExValue(serde_json::Value);

/// `serde_json::from_str` for a `Value`: the value whose contents
/// [`json_document`] names; `None` exactly where `serde_json` reports an
/// error.
#[verifier::external_body]
fn parse_value(text: &str) -> (out: Option<serde_json::Value>)
    ensures
        match out {
            Some(v) => json_document(text@) == Some(value_model(v)),
            None => json_document(text@) is None,
        },
{
    serde_json::from_str::<serde_json::Value>(text).ok()
}

/// Reads the variants of `serde_json::Value` into a [`Json`], one arm for
/// each, down to the leaves: the contents that [`value_model`] names.
#[verifier::external_body]
fn lower(value: &serde_json::Value) -> (json: Json)
    ensures
        json@ == value_model(*value),
{
    match value {
        serde_json::Value::Null => Json::Null,
        serde_json::Value::Bool(b) => Json::Bool(*b),
        serde_json::Value::Number(n) => Json::Number(n.to_string()),
        serde_json::Value::String(s) => Json::Text(s.clone()),
        serde_json::Value::Array(a) => Json::Array(a.iter().map(lower).collect()),
        serde_json::Value::Object(o) => Json::Object(
            o.iter().map(|(k, v)| Member { key: k.clone(), value: lower(v) }).collect(),
        ),
    }
}

/// Builds the variants of `serde_json::Value` from a [`Json`], one arm for
/// each, down to the leaves: the value that [`built_value`] names.
#[verifier::external_body]
fn raise(json: &Json) -> (value: serde_json::Value)
    ensures
        value == built_value(json@),
{
    match json {
        Json::Null => serde_json::Value::Null,
        Json::Bool(b) => serde_json::Value::Bool(*b),
        Json::Number(n) => n.parse().map_or(serde_json::Value::Null, serde_json::Value::Number),
        Json::Text(s) => serde_json::Value::String(s.clone()),
        Json::Array(a) => serde_json::Value::Array(a.iter().map(raise).collect()),
        Json::Object(o) => serde_json::Value::Object(
            o.iter().map(|m| (m.key.clone(), raise(&m.value))).collect(),
        ),
    }
}

/// `Value::to_string` of `serde_json`: the compact text that
/// [`value_rendering`] names.
#[verifier::external_body]
fn value_text(value: &serde_json::Value) -> (text: String)
    ensures
        text@ == value_rendering(*value),
{
    value.to_string()
}

impl Clone for Json {
    fn clone(&self) -> (copy: Json)
        ensures
            copy@ == self@,
    {
        self.duplicate()
    }
}

impl Clone for Member {
    fn clone(&self) -> (copy: Member)
        ensures
            copy.key@ == self.key@,
            copy.value@ == self.value@,
    {
        Member { key: self.key.clone(), value: self.value.duplicate() }
    }
}

impl Member {
    /// A member with its own copy of the name.
    pub fn new(key: &str, value: Json) -> (member: Member)
        ensures
            member.key@ == key@,
            member.value == value,
    {
        Member { key: key.to_owned(), value }
    }
}

impl Json {
    /// A string value with its own copy of the text.
    pub fn text(text: &str) -> (json: Json)
        ensures
            json@ == JsonValue::Text(text@),
    {
        Json::Text(text.to_owned())
    }

    /// An array of the given items, in order.
    pub fn array(items: Vec<Json>) -> (json: Json)
        ensures
            json@ == JsonValue::Array(items_view(items@)),
    {
        let json = Json::Array(items);
        proof {
            view_of_array(json);
        }
        json
    }

    /// An object of the given members, in order.
    pub fn object(members: Vec<Member>) -> (json: Json)
        ensures
            json@ == JsonValue::Object(members_view(members@)),
    {
        let json = Json::Object(members);
        proof {
            view_of_object(json);
        }
        json
    }

    /// Reads a text as a document; `None` where the text is not JSON.
    pub fn parse(text: &str) -> (doc: Option<Json>)
        ensures
            match doc {
                Some(j) => json_document(text@) == Some(j@),
                None => json_document(text@) is None,
            },
    {
        match parse_value(text) {
            Some(value) => Some(lower(&value)),
            None => None,
        }
    }

    /// The compact text of the document.
    pub fn render(&self) -> (text: String)
        ensures
            text@ == json_rendering(self@),
    {
        let value = raise(self);
        value_text(&value)
    }

    /// The member `key` of an object.
    pub fn get(&self, key: &str) -> (found: Option<&Json>)
        ensures
            match found {
                Some(j) => self@.field(key@) == Some(j@),
                None => self@.field(key@) is None,
            },
    {
        match self {
            Json::Object(members) => {
                let mut i: usize = 0;
                let ghost ms = members_view(members@);
                proof {
                    view_of_object(*self);
                }
                while i < members.len()
                    invariant
                        i <= members.len(),
                        self@ == JsonValue::Object(ms),
                        ms == members_view(members@),
                        member_from(ms, key@, 0) == member_from(ms, key@, i as int),
                    decreases members.len() - i,
                {
                    if str_eq(members[i].key.as_str(), key) {
                        return Some(&members[i].value);
                    }
                    i += 1;
                }
                None
            },
            _ => None,
        }
    }

    /// A deep copy: a document of its own with the same value.
    pub fn duplicate(&self) -> (copy: Json)
        ensures
            copy@ == self@,
        decreases self,
    {
        match self {
            Json::Null => Json::Null,
            Json::Bool(b) => Json::Bool(*b),
            Json::Number(s) => Json::Number(s.clone()),
            Json::Text(s) => Json::Text(s.clone()),
            Json::Array(items) => {
                let mut out: Vec<Json> = Vec::new();
                let mut i: usize = 0;
                while i < items.len()
                    invariant
                        i <= items.len(),
                        out@.len() == i,
                        *self == Json::Array(*items),
                        decreases_to!(*self => *items),
                        forall|k: int| 0 <= k < i ==> (#[trigger] out@[k])@ == items@[k]@,
                    decreases items.len() - i,
                {
                    proof {
                        vstd::std_specs::vec::axiom_vec_index_decreases(*items, i as int);
                    }
                    let item = items[i].duplicate();
                    out.push(item);
                    i += 1;
                }
                let copy = Json::Array(out);
                proof {
                    view_of_array(*self);
                    view_of_array(copy);
                    assert(items_view(copy->Array_0@) =~= items_view(items@));
                }
                copy
            },
            Json::Object(members) => {
                let mut out: Vec<Member> = Vec::new();
                let mut i: usize = 0;
                while i < members.len()
                    invariant
                        i <= members.len(),
                        out@.len() == i,
                        *self == Json::Object(*members),
                        decreases_to!(*self => *members),
                        forall|k: int|
                            0 <= k < i ==> (#[trigger] out@[k]).key@ == members@[k].key@
                                && out@[k].value@ == members@[k].value@,
                    decreases members.len() - i,
                {
                    proof {
                        vstd::std_specs::vec::axiom_vec_index_decreases(*members, i as int);
                    }
                    let value = members[i].value.duplicate();
                    out.push(Member { key: members[i].key.clone(), value });
                    i += 1;
                }
                let copy = Json::Object(out);
                proof {
                    view_of_object(*self);
                    view_of_object(copy);
                    assert(members_view(copy->Object_0@) =~= members_view(members@));
                }
                copy
            },
        }
    }

    /// The text of a string value.
    pub fn as_str(&self) -> (found: Option<&str>)
        ensures
            match found {
                Some(s) => self@.text() == Some(s@),
                None => self@.text() is None,
            },
    {
        match self {
            Json::Text(s) => Some(s.as_str()),
            _ => None,
        }
    }

    /// The truth value of a boolean.
    pub fn as_bool(&self) -> (found: Option<bool>)
        ensures
            found == self@.flag(),
    {
        match self {
            Json::Bool(b) => Some(*b),
            _ => None,
        }
    }

    /// The items of an array.
    pub fn as_array(&self) -> (found: Option<&Vec<Json>>)
        ensures
            match found {
                Some(items) => self@.items() == Some(items_view(items@)),
                None => self@.items() is None,
            },
    {
        proof {
            view_of_array(*self);
        }
        match self {
            Json::Array(items) => Some(items),
            _ => None,
        }
    }
}

/// An object's value lists its members' names and values in order.
pub proof fn view_of_object(json: Json)
    ensures
        json matches Json::Object(members) ==> json@ == JsonValue::Object(members_view(members@)),
{
    if let Json::Object(members) = json {
        assert(json@->Object_0 =~= members_view(members@));
    }
}

/// An array's value lists its items' values in order.
pub proof fn view_of_array(json: Json)
    ensures
        json matches Json::Array(items) ==> json@ == JsonValue::Array(items_view(items@)),
{
    if let Json::Array(items) = json {
        assert(json@->Array_0 =~= items_view(items@));
    }
}

/// The names and values of a run of members.
pub open spec fn members_view(members: Seq<Member>) -> Seq<Field> {
    Seq::new(members.len(), |i: int| Field { name: members[i].key@, value: members[i].value@ })
}

/// The values of a run of documents.
pub open spec fn items_view(items: Seq<Json>) -> Seq<JsonValue> {
    Seq::new(items.len(), |i: int| items[i]@)
}

} // verus!
