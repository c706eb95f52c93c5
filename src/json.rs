//! A JSON document as the protocol exchanges it, and its mathematical model.

use vstd::prelude::*;
use crate::text::same_text;

verus! {

/// A JSON value. Non-negative integers that fit in 64 bits are held as
/// numbers; any other number keeps its textual form.
#[derive(Debug, PartialEq, Eq)]
pub enum Json {
    Null,
    Bool(bool),
    Int(u64),
    Number(String),
    Str(String),
    Array(Vec<Json>),
    Object(Vec<(String, Json)>),
}

/// The model of a JSON value: text as character sequences, members in
/// their order.
pub enum JsonValue {
    Null,
    Bool(bool),
    Int(u64),
    Number(Seq<char>),
    Str(Seq<char>),
    Array(Seq<JsonValue>),
    Object(Seq<(Seq<char>, JsonValue)>),
}

/// The model of a JSON value.
pub open spec fn json_view(j: Json) -> JsonValue
    decreases j,
{
    match j {
        Json::Null => JsonValue::Null,
        Json::Bool(b) => JsonValue::Bool(b),
        Json::Int(n) => JsonValue::Int(n),
        Json::Number(t) => JsonValue::Number(t@),
        Json::Str(s) => JsonValue::Str(s@),
        Json::Array(items) => JsonValue::Array(
            Seq::new(
                items@.len(),
                |i: int|
                    if 0 <= i < items@.len() {
                        json_view(items@[i])
                    } else {
                        JsonValue::Null
                    },
            ),
        ),
        Json::Object(fields) => JsonValue::Object(
            Seq::new(
                fields@.len(),
                |i: int|
                    if 0 <= i < fields@.len() {
                        (fields@[i].0@, json_view(fields@[i].1))
                    } else {
                        (Seq::empty(), JsonValue::Null)
                    },
            ),
        ),
    }
}

impl View for Json {
    type V = JsonValue;

    open spec fn view(&self) -> JsonValue {
        json_view(*self)
    }
}

/// The model of an optional JSON value.
pub open spec fn optional_view(j: Option<Json>) -> Option<JsonValue> {
    match j {
        Some(v) => Some(v@),
        None => None,
    }
}

/// The value of the first member named `key`.
pub open spec fn lookup(fields: Seq<(Seq<char>, JsonValue)>, key: Seq<char>) -> Option<JsonValue>
    decreases fields.len(),
{
    if fields.len() == 0 {
        None
    } else if fields[0].0 == key {
        Some(fields[0].1)
    } else {
        lookup(fields.drop_first(), key)
    }
}

/// The member `key` of an object; nothing for any other value.
pub open spec fn member(v: JsonValue, key: Seq<char>) -> Option<JsonValue> {
    match v {
        JsonValue::Object(fields) => lookup(fields, key),
        _ => None,
    }
}

/// The text of a JSON string member.
pub open spec fn text_member(v: JsonValue, key: Seq<char>) -> Option<Seq<char>> {
    match member(v, key) {
        Some(JsonValue::Str(s)) => Some(s),
        _ => None,
    }
}

impl Json {
    /// The member `key` of an object, if it is an object that has one.
    pub fn get<'a>(&'a self, key: &str) -> (r: Option<&'a Json>)
        ensures
            match r {
                Some(x) => member(self@, key@) == Some(x@),
                None => member(self@, key@) is None,
            },
    {
        match self {
            Json::Object(fields) => {
                let ghost all = self@->Object_0;
                let mut i: usize = 0;
                assert(all.skip(0) =~= all);
                while i < fields.len()
                    invariant
                        *self == Json::Object(*fields),
                        all == self@->Object_0,
                        all.len() == fields@.len(),
                        i <= fields@.len(),
                        lookup(all, key@) == lookup(all.skip(i as int), key@),
                    decreases fields@.len() - i,
                {
                    assert(all[i as int] == (fields@[i as int].0@, json_view(fields@[i as int].1)));
                    if same_text(fields[i].0.as_str(), key) {
                        return Some(&fields[i].1);
                    }
                    assert(all.skip(i as int).drop_first() =~= all.skip(i + 1));
                    i = i + 1;
                }
                None
            },
            _ => None,
        }
    }

    /// The text of the string member `key`, if there is one.
    pub fn get_text<'a>(&'a self, key: &str) -> (r: Option<&'a String>)
        ensures
            match r {
                Some(s) => text_member(self@, key@) == Some(s@),
                None => text_member(self@, key@) is None,
            },
    {
        match self.get(key) {
            Some(Json::Str(s)) => Some(s),
            _ => None,
        }
    }

    /// A string value.
    pub fn text(s: &str) -> (r: Json)
        ensures
            r@ == JsonValue::Str(s@),
    {
        Json::Str(s.to_owned())
    }

    /// An object with a single member.
    pub fn object1(key: &str, value: Json) -> (r: Json)
        ensures
            r@ == JsonValue::Object(seq![(key@, value@)]),
    {
        let ghost v = value@;
        let r = Json::Object(vec![(key.to_owned(), value)]);
        assert(r@->Object_0 =~= seq![(key@, v)]);
        r
    }

    /// An object with two members.
    pub fn object2(k1: &str, v1: Json, k2: &str, v2: Json) -> (r: Json)
        ensures
            r@ == JsonValue::Object(seq![(k1@, v1@), (k2@, v2@)]),
    {
        let ghost (a, b) = (v1@, v2@);
        let r = Json::Object(vec![(k1.to_owned(), v1), (k2.to_owned(), v2)]);
        assert(r@->Object_0 =~= seq![(k1@, a), (k2@, b)]);
        r
    }

    /// An object with three members.
    pub fn object3(k1: &str, v1: Json, k2: &str, v2: Json, k3: &str, v3: Json) -> (r: Json)
        ensures
            r@ == JsonValue::Object(seq![(k1@, v1@), (k2@, v2@), (k3@, v3@)]),
    {
        let ghost (a, b, c) = (v1@, v2@, v3@);
        let r = Json::Object(vec![(k1.to_owned(), v1), (k2.to_owned(), v2), (k3.to_owned(), v3)]);
        assert(r@->Object_0 =~= seq![(k1@, a), (k2@, b), (k3@, c)]);
        r
    }

    /// An array of one value.
    pub fn array1(item: Json) -> (r: Json)
        ensures
            r@ == JsonValue::Array(seq![item@]),
    {
        let ghost v = item@;
        let r = Json::Array(vec![item]);
        assert(r@->Array_0 =~= seq![v]);
        r
    }

    /// The empty object.
    pub fn empty_object() -> (r: Json)
        ensures
            r@ == JsonValue::Object(seq![]),
    {
        let r = Json::Object(Vec::new());
        assert(r@->Object_0 =~= Seq::<(Seq<char>, JsonValue)>::empty());
        r
    }
}

} // verus!
