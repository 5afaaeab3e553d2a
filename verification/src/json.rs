//! A JSON value as the pipeline reads it, with its mathematical model.

use vstd::prelude::*;
use crate::text::{decimal, i64_text, signed_decimal, str_eq, u64_text};

verus! {

/// A JSON number: a non-negative integer, a negative integer, or another
/// number kept as the text it is written with.
#[derive(Debug, PartialEq, Eq)]
pub enum JsonNumber {
    PosInt(u64),
    NegInt(i64),
    Float(String),
}

/// A JSON value. An object keeps its members in order; a lookup takes the
/// first member with the key.
#[derive(Debug, PartialEq, Eq)]
pub enum Json {
    Null,
    Bool(bool),
    Number(JsonNumber),
    String(String),
    Array(Vec<Json>),
    Object(Vec<(String, Json)>),
}

/// The model of a [`JsonNumber`].
pub enum NumberModel {
    PosInt(u64),
    NegInt(i64),
    Float(Seq<char>),
}

/// The model of a [`Json`] value: strings are sequences of characters,
/// arrays and objects are sequences.
pub enum JsonModel {
    Null,
    Bool(bool),
    Number(NumberModel),
    String(Seq<char>),
    Array(Seq<JsonModel>),
    Object(Seq<(Seq<char>, JsonModel)>),
}

impl View for JsonNumber {
    type V = NumberModel;

    open spec fn view(&self) -> NumberModel {
        match self {
            JsonNumber::PosInt(u) => NumberModel::PosInt(*u),
            JsonNumber::NegInt(i) => NumberModel::NegInt(*i),
            JsonNumber::Float(t) => NumberModel::Float(t@),
        }
    }
}

impl Json {
    /// The model of the value, taken member by member.
    pub open spec fn model(&self) -> JsonModel
        decreases self,
    {
        match self {
            Json::Null => JsonModel::Null,
            Json::Bool(b) => JsonModel::Bool(*b),
            Json::Number(n) => JsonModel::Number(n@),
            Json::String(s) => JsonModel::String(s@),
            Json::Array(items) => JsonModel::Array(
                Seq::new(
                    items@.len(),
                    |i: int|
                        if 0 <= i < items@.len() {
                            items@[i].model()
                        } else {
                            JsonModel::Null
                        },
                ),
            ),
            Json::Object(members) => JsonModel::Object(
                Seq::new(
                    members@.len(),
                    |i: int|
                        if 0 <= i < members@.len() {
                            (members@[i].0@, members@[i].1.model())
                        } else {
                            (Seq::empty(), JsonModel::Null)
                        },
                ),
            ),
        }
    }
}

impl View for Json {
    type V = JsonModel;

    open spec fn view(&self) -> JsonModel {
        self.model()
    }
}

/// The models of the values of `items`, in order.
pub open spec fn models(items: Seq<Json>) -> Seq<JsonModel> {
    Seq::new(items.len(), |i: int| items[i]@)
}

/// The models of the members of an object, in order.
pub open spec fn member_models(members: Seq<(String, Json)>) -> Seq<(Seq<char>, JsonModel)> {
    Seq::new(members.len(), |i: int| (members[i].0@, members[i].1@))
}

/// The view of an array is the sequence of the views of its items, and the
/// view of an object the sequence of its members' keys and values.
pub proof fn lemma_view_unfold(j: Json)
    ensures
        j matches Json::Array(items) ==> j@ == JsonModel::Array(models(items@)),
        j matches Json::Object(members) ==> j@ == JsonModel::Object(member_models(members@)),
{
    reveal_with_fuel(Json::model, 2);
    match j {
        Json::Array(items) => {
            assert(j@->Array_0 =~= models(items@));
        },
        Json::Object(members) => {
            assert(j@->Object_0 =~= member_models(members@));
        },
        _ => {},
    }
}

/// The index of the first member at or after `from` whose key is `key`, or
/// the number of members where there is none.
pub open spec fn first_member(members: Seq<(Seq<char>, JsonModel)>, key: Seq<char>, from: int) -> int
    decreases members.len() - from,
{
    if from < 0 || from >= members.len() {
        members.len() as int
    } else if members[from].0 == key {
        from
    } else {
        first_member(members, key, from + 1)
    }
}

impl NumberModel {
    /// The integer, where it is one that fits in 64 signed bits.
    pub open spec fn as_i64(self) -> Option<i64> {
        match self {
            NumberModel::PosInt(u) => if u <= i64::MAX {
                Some(u as i64)
            } else {
                None
            },
            NumberModel::NegInt(i) => Some(i),
            NumberModel::Float(_) => None,
        }
    }

    /// The number as JSON text writes it.
    pub open spec fn text(self) -> Seq<char> {
        match self {
            NumberModel::PosInt(u) => decimal(u as nat),
            NumberModel::NegInt(i) => signed_decimal(i as int),
            NumberModel::Float(t) => t,
        }
    }
}

impl JsonModel {
    /// The value of the first member named `key` of an object; none for a
    /// missing key and for a value that is no object.
    pub open spec fn get(self, key: Seq<char>) -> Option<JsonModel> {
        match self {
            JsonModel::Object(members) => {
                let at = first_member(members, key, 0);
                if at < members.len() {
                    Some(members[at].1)
                } else {
                    None
                }
            },
            _ => None,
        }
    }

    /// The characters of a string value.
    pub open spec fn as_str(self) -> Option<Seq<char>> {
        match self {
            JsonModel::String(s) => Some(s),
            _ => None,
        }
    }

    /// The items of an array value.
    pub open spec fn as_array(self) -> Option<Seq<JsonModel>> {
        match self {
            JsonModel::Array(items) => Some(items),
            _ => None,
        }
    }

    /// The integer of a number value that fits in 64 signed bits.
    pub open spec fn as_i64(self) -> Option<i64> {
        match self {
            JsonModel::Number(n) => n.as_i64(),
            _ => None,
        }
    }

    /// Whether the value is a number.
    pub open spec fn is_number(self) -> bool {
        self is Number
    }
}

impl JsonNumber {
    /// The integer, where the number is one that fits in 64 signed bits.
    pub fn as_i64(&self) -> (value: Option<i64>)
        ensures
            value == self@.as_i64(),
    {
        match self {
            JsonNumber::PosInt(u) => if *u <= 9223372036854775807u64 {
                Some(*u as i64)
            } else {
                None
            },
            JsonNumber::NegInt(i) => Some(*i),
            JsonNumber::Float(_) => None,
        }
    }

    /// The number as JSON text writes it: an integer in decimal, any other
    /// number by the text it is kept in.
    pub fn text(&self) -> (text: String)
        ensures
            text@ == self@.text(),
    {
        match self {
            JsonNumber::PosInt(u) => u64_text(*u),
            JsonNumber::NegInt(i) => i64_text(*i),
            JsonNumber::Float(t) => t.clone(),
        }
    }
}

impl Clone for JsonNumber {
    fn clone(&self) -> (copy: Self)
        ensures
            copy@ == self@,
    {
        match self {
            JsonNumber::PosInt(u) => JsonNumber::PosInt(*u),
            JsonNumber::NegInt(i) => JsonNumber::NegInt(*i),
            JsonNumber::Float(t) => JsonNumber::Float(t.clone()),
        }
    }
}

impl Clone for Json {
    fn clone(&self) -> (copy: Self)
        ensures
            copy@ == self@,
        decreases self,
    {
        match self {
            Json::Null => Json::Null,
            Json::Bool(b) => Json::Bool(*b),
            Json::Number(n) => Json::Number(n.clone()),
            Json::String(s) => Json::String(s.clone()),
            Json::Array(items) => {
                let mut copies: Vec<Json> = Vec::new();
                let mut i: usize = 0;
                while i < items.len()
                    invariant
                        i <= items.len(),
                        copies.len() == i,
                        *self matches Json::Array(v) && v == *items,
                        forall|k: int| 0 <= k < i ==> copies@[k]@ == items@[k]@,
                    decreases items.len() - i,
                {
                    let item = items[i].clone();
                    copies.push(item);
                    i += 1;
                }
                let copy = Json::Array(copies);
                proof {
                    lemma_view_unfold(copy);
                    lemma_view_unfold(*self);
                    assert(models(copies@) =~= models(items@));
                }
                copy
            },
            Json::Object(members) => {
                let mut copies: Vec<(String, Json)> = Vec::new();
                let mut i: usize = 0;
                while i < members.len()
                    invariant
                        i <= members.len(),
                        copies.len() == i,
                        *self matches Json::Object(v) && v == *members,
                        forall|k: int|
                            0 <= k < i ==> copies@[k].0@ == members@[k].0@ && copies@[k].1@
                                == members@[k].1@,
                    decreases members.len() - i,
                {
                    let key = members[i].0.clone();
                    let value = members[i].1.clone();
                    copies.push((key, value));
                    i += 1;
                }
                let copy = Json::Object(copies);
                proof {
                    lemma_view_unfold(copy);
                    lemma_view_unfold(*self);
                    assert(member_models(copies@) =~= member_models(members@));
                }
                copy
            },
        }
    }
}

impl Json {
    /// The value of the first member named `key`, where `self` is an object
    /// that has one.
    pub fn get(&self, key: &str) -> (found: Option<&Json>)
        ensures
            match found {
                Some(value) => self@.get(key@) == Some(value@),
                None => self@.get(key@) is None,
            },
    {
        match self {
            Json::Object(members) => {
                proof {
                    lemma_view_unfold(*self);
                }
                let mut i: usize = 0;
                while i < members.len()
                    invariant
                        i <= members.len(),
                        self@ == JsonModel::Object(member_models(members@)),
                        first_member(member_models(members@), key@, 0) == first_member(
                            member_models(members@),
                            key@,
                            i as int,
                        ),
                    decreases members.len() - i,
                {
                    if str_eq(members[i].0.as_str(), key) {
                        return Some(&members[i].1);
                    }
                    i += 1;
                }
                None
            },
            _ => None,
        }
    }

    /// The text of a string value.
    pub fn as_str(&self) -> (text: Option<&str>)
        ensures
            match text {
                Some(s) => self@.as_str() == Some(s@),
                None => self@.as_str() is None,
            },
    {
        match self {
            Json::String(s) => Some(s.as_str()),
            _ => None,
        }
    }

    /// The items of an array value.
    pub fn as_array(&self) -> (items: Option<&Vec<Json>>)
        ensures
            match items {
                Some(v) => self@.as_array() == Some(models(v@)),
                None => self@.as_array() is None,
            },
    {
        match self {
            Json::Array(items) => {
                proof {
                    lemma_view_unfold(*self);
                }
                Some(items)
            },
            _ => None,
        }
    }

    /// The integer of a number value that fits in 64 signed bits.
    pub fn as_i64(&self) -> (value: Option<i64>)
        ensures
            value == self@.as_i64(),
    {
        match self {
            Json::Number(n) => n.as_i64(),
            _ => None,
        }
    }

    /// Whether the value is a number.
    pub fn is_number(&self) -> (yes: bool)
        ensures
            yes == self@.is_number(),
    {
        match self {
            Json::Number(_) => true,
            _ => false,
        }
    }
}

} // verus!
