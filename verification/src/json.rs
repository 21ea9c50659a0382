//! JSON documents as plain values.

use crate::text::same_text;
use vstd::prelude::*;

verus! {

/// The value type of `serde_json`.
#[verifier::external_type_specification]
#[verifier::external_body]
pub struct ExValue(serde_json::Value);

/// What a JSON value holds.
pub enum JsonModel {
    Null,
    Bool(bool),
    /// A number; with its value where it is an integer that fits an `i64`.
    Number(Option<i64>),
    Text(Seq<char>),
    Array(Seq<JsonModel>),
    /// The members of an object.
    Object(Seq<(Seq<char>, JsonModel)>),
}

/// A JSON value.
#[derive(Debug, PartialEq)]
pub enum Json {
    Null,
    Bool(bool),
    /// A number; with its value where it is an integer that fits an `i64`.
    Number(Option<i64>),
    Text(String),
    Array(Vec<Json>),
    /// The members of an object.
    Object(Vec<(String, Json)>),
}

impl Json {
    /// What the value holds.
    pub open spec fn model(self) -> JsonModel
        decreases self,
    {
        match self {
            Json::Null => JsonModel::Null,
            Json::Bool(b) => JsonModel::Bool(b),
            Json::Number(n) => JsonModel::Number(n),
            Json::Text(s) => JsonModel::Text(s@),
            Json::Array(items) => JsonModel::Array(
                Seq::new(
                    items@.len(),
                    |i: int|
                        if 0 <= i < items@.len() {
                            items@[i].model()
                        } else {
                            JsonModel::Null
                        },
                ),
            ),
            Json::Object(members) => JsonModel::Object(
                Seq::new(
                    members@.len(),
                    |i: int|
                        if 0 <= i < members@.len() {
                            (members@[i].0@, members@[i].1.model())
                        } else {
                            (Seq::empty(), JsonModel::Null)
                        },
                ),
            ),
        }
    }
}

/// What a `serde_json` value holds.
pub uninterp spec fn json_contents(v: serde_json::Value) -> JsonModel;

/// The document that `serde_json::from_str` reads from a text; `None` where it reports an error.
pub uninterp spec fn json_parsed(text: Seq<char>) -> Option<JsonModel>;

/// One level of a `serde_json` value.
enum JsonNode<'a> {
    Null,
    Bool(bool),
    Number(Option<i64>),
    Text(&'a String),
    Array(&'a Vec<serde_json::Value>),
    Object(Vec<(&'a String, &'a serde_json::Value)>),
}

/// `serde_json::from_str` for a `serde_json::Value`: whether it succeeds, and what the value
/// holds, depends on the text alone.
#[verifier::external_body]
fn parse_value(text: &str) -> (r: Option<serde_json::Value>)
    ensures
        json_parsed(text@) == (match r {
            Some(v) => Some(json_contents(v)),
            None => None,
        }),
{
    serde_json::from_str::<serde_json::Value>(text).ok()
}

/// The variants of `serde_json::Value`, told apart, with `serde_json::Number::as_i64` for a
/// number and `serde_json::Map::iter` for the members of an object: the result is what the value
/// holds, one level of it opened.
#[verifier::external_body]
fn open_value<'a>(v: &'a serde_json::Value) -> (r: JsonNode<'a>)
    ensures
        json_contents(*v) == (match r {
            JsonNode::Null => JsonModel::Null,
            JsonNode::Bool(b) => JsonModel::Bool(b),
            JsonNode::Number(n) => JsonModel::Number(n),
            JsonNode::Text(s) => JsonModel::Text(s@),
            JsonNode::Array(items) => JsonModel::Array(
                items@.map_values(|i: serde_json::Value| json_contents(i)),
            ),
            JsonNode::Object(members) => JsonModel::Object(
                members@.map_values(
                    |m: (&String, &serde_json::Value)| (m.0@, json_contents(*m.1)),
                ),
            ),
        }),
{
    match v {
        serde_json::Value::Null => JsonNode::Null,
        serde_json::Value::Bool(b) => JsonNode::Bool(*b),
        serde_json::Value::Number(n) => JsonNode::Number(n.as_i64()),
        serde_json::Value::String(s) => JsonNode::Text(s),
        serde_json::Value::Array(items) => JsonNode::Array(items),
        serde_json::Value::Object(members) => JsonNode::Object(members.iter().collect()),
    }
}

/// Takes a `serde_json` value apart into plain values.
fn plain(v: &serde_json::Value) -> (r: Json)
    ensures
        r.model() == json_contents(*v),
    decreases json_contents(*v),
{
    match open_value(v) {
        JsonNode::Null => Json::Null,
        JsonNode::Bool(b) => Json::Bool(b),
        JsonNode::Number(n) => Json::Number(n),
        JsonNode::Text(s) => Json::Text(s.clone()),
        JsonNode::Array(items) => {
            let ghost model = items@.map_values(|i: serde_json::Value| json_contents(i));
            let mut r: Vec<Json> = Vec::new();
            let mut i: usize = 0;
            while i < items.len()
                invariant
                    i <= items.len(),
                    r.len() == i,
                    model == items@.map_values(|i: serde_json::Value| json_contents(i)),
                    json_contents(*v) == JsonModel::Array(model),
                    forall|j: int| 0 <= j < i ==> (#[trigger] r@[j]).model() == model[j],
                decreases items.len() - i,
            {
                assert(model[i as int] == json_contents(items@[i as int]));
                assert(decreases_to!(json_contents(*v) => json_contents(*v)->Array_0));
                assert(decreases_to!(model => model[i as int]));
                r.push(plain(&items[i]));
                i += 1;
            }
            let out: Json = Json::Array(r);
            proof {
                assert(out.model()->Array_0 =~= model);
            }
            out
        },
        JsonNode::Object(members) => {
            let ghost model = members@.map_values(
                |m: (&String, &serde_json::Value)| (m.0@, json_contents(*m.1)),
            );
            let mut r: Vec<(String, Json)> = Vec::new();
            let mut i: usize = 0;
            while i < members.len()
                invariant
                    i <= members.len(),
                    r.len() == i,
                    model == members@.map_values(
                        |m: (&String, &serde_json::Value)| (m.0@, json_contents(*m.1)),
                    ),
                    json_contents(*v) == JsonModel::Object(model),
                    forall|j: int|
                        0 <= j < i ==> (#[trigger] r@[j]).0@ == model[j].0 && r@[j].1.model()
                            == model[j].1,
                decreases members.len() - i,
            {
                let (name, value) = members[i];
                assert(model[i as int] == (name@, json_contents(*value)));
                assert(decreases_to!(json_contents(*v) => json_contents(*v)->Object_0));
                assert(decreases_to!(model => model[i as int]));
                assert(decreases_to!(model[i as int] => model[i as int].1));
                let p: Json = plain(value);
                r.push((name.clone(), p));
                i += 1;
            }
            let out: Json = Json::Object(r);
            proof {
                assert(out.model()->Object_0 =~= model);
            }
            out
        },
    }
}

/// Reads a JSON document. `None` where the text is not one.
pub fn parse_json(text: &str) -> (r: Option<Json>)
    ensures
        json_parsed(text@) == (match r {
            Some(j) => Some(j.model()),
            None => None,
        }),
{
    match parse_value(text) {
        Some(v) => Some(plain(&v)),
        None => None,
    }
}

/// The first member with the given name, or null where there is none.
pub open spec fn member_of(members: Seq<(Seq<char>, JsonModel)>, name: Seq<char>) -> JsonModel
    decreases members.len(),
{
    if members.len() == 0 {
        JsonModel::Null
    } else if members[0].0 == name {
        members[0].1
    } else {
        member_of(members.drop_first(), name)
    }
}

impl JsonModel {
    /// The member of an object with the given name. Null where there is none, or where the value
    /// is no object.
    pub open spec fn member(self, name: Seq<char>) -> JsonModel {
        match self {
            JsonModel::Object(members) => member_of(members, name),
            _ => JsonModel::Null,
        }
    }

    /// Whether this is an object with a member of the given name.
    pub open spec fn has_member(self, name: Seq<char>) -> bool {
        self matches JsonModel::Object(members) && exists|i: int|
            0 <= i < members.len() && (#[trigger] members[i]).0 == name
    }

    /// The text of a string; empty for any other value.
    pub open spec fn text_or_empty(self) -> Seq<char> {
        match self {
            JsonModel::Text(s) => s,
            _ => Seq::empty(),
        }
    }

    /// The value of a number that fits an `i64`.
    pub open spec fn integer(self) -> Option<i64> {
        match self {
            JsonModel::Number(n) => n,
            _ => None,
        }
    }
}

impl Json {
    /// The member of an object with the given name, if there is one.
    pub fn get(&self, name: &str) -> (r: Option<&Json>)
        ensures
            match r {
                Some(j) => j.model() == self.model().member(name@),
                None => self.model().member(name@) == JsonModel::Null,
            },
            r is Some <==> self.model().has_member(name@),
    {
        match self {
            Json::Object(members) => {
                let ghost model = self.model()->Object_0;
                let mut i: usize = 0;
                assert(model.skip(0) =~= model);
                while i < members.len()
                    invariant
                        i <= members.len(),
                        *self == Json::Object(*members),
                        model == self.model()->Object_0,
                        model.len() == members.len(),
                        forall|j: int| 0 <= j < i ==> (#[trigger] model[j]).0 != name@,
                        member_of(model, name@) == member_of(model.skip(i as int), name@),
                    decreases members.len() - i,
                {
                    assert(model[i as int] == (members@[i as int].0@, members@[i as int].1.model()));
                    if same_text(members[i].0.as_str(), name) {
                        assert(model.skip(i as int)[0] == model[i as int]);
                        return Some(&members[i].1);
                    }
                    assert(model.skip(i as int).drop_first() =~= model.skip(i + 1));
                    i += 1;
                }
                None
            },
            _ => None,
        }
    }

    /// The text of a string; empty for any other value.
    pub fn text(&self) -> (r: String)
        ensures
            r@ == self.model().text_or_empty(),
    {
        match self {
            Json::Text(s) => s.clone(),
            _ => String::new(),
        }
    }

    /// The text of the member with the given name; empty where there is none, or where it is no
    /// string.
    pub fn text_member(&self, name: &str) -> (r: String)
        ensures
            r@ == self.model().member(name@).text_or_empty(),
    {
        match self.get(name) {
            Some(j) => j.text(),
            None => String::new(),
        }
    }

    /// The value of the member with the given name, where it is an integer that fits an `i64`.
    pub fn integer_member(&self, name: &str) -> (r: Option<i64>)
        ensures
            r == self.model().member(name@).integer(),
    {
        match self.get(name) {
            Some(Json::Number(n)) => *n,
            _ => None,
        }
    }
}

} // verus!
