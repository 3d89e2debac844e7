//! A JSON value tree as the directory reads it.
//!
//! Numbers are fixed-point: a number holds its value in thousandths, so the
//! JSON number `0.625` is `Number(625)` and `4` is `Number(4_000)`. A number
//! that 32 bits of thousandths cannot hold is kept as `NumberOutOfRange`: it
//! is in the document, and no reader takes it for a number. Where an object
//! names a member twice, the first one counts.

use crate::lookup::{first_index, lemma_first_index_absent, lemma_first_index_found};
use vstd::prelude::*;

verus! {

/// One node of a JSON document.
#[derive(Debug)]
pub enum JsonValue {
    Null,
    Bool(bool),
    /// A number, in thousandths.
    Number(i32),
    /// A number beyond what `Number` can hold.
    NumberOutOfRange,
    Text(String),
    Array(Vec<JsonValue>),
    /// The members of an object, in document order.
    Object(Vec<JsonMember>),
}

/// One `key: value` pair of a JSON object.
#[derive(Debug)]
pub struct JsonMember {
    pub key: String,
    pub value: JsonValue,
}

/// The names of the members, in order.
pub open spec fn member_keys(members: Seq<JsonMember>) -> Seq<Seq<char>> {
    Seq::new(members.len(), |i: int| members[i].key@)
}

/// The value of the first member named `key`.
pub open spec fn member_value(members: Seq<JsonMember>, key: Seq<char>) -> Option<JsonValue> {
    match first_index(member_keys(members), key) {
        Some(i) => Some(members[i].value),
        None => None,
    }
}

/// Whether every item of a list is a string.
pub open spec fn all_text(items: Seq<JsonValue>) -> bool {
    forall|i: int| 0 <= i < items.len() ==> (#[trigger] items[i]) is Text
}

/// The strings that the items of a list hold, in order.
pub open spec fn texts_of(items: Seq<JsonValue>) -> Seq<Seq<char>> {
    Seq::new(items.len(), |i: int| items[i]->Text_0@)
}

/// The strings of a list as plain values.
pub open spec fn text_views(texts: Seq<String>) -> Seq<Seq<char>> {
    Seq::new(texts.len(), |i: int| texts[i]@)
}

impl JsonValue {
    /// The member named `key`, where this value is an object that has one.
    pub open spec fn field(self, key: Seq<char>) -> Option<JsonValue> {
        match self {
            JsonValue::Object(members) => member_value(members@, key),
            _ => None,
        }
    }

    /// The string that the member named `key` holds, where there is such a
    /// member and it is a string.
    pub open spec fn text_field(self, key: Seq<char>) -> Option<Seq<char>> {
        match self.field(key) {
            Some(JsonValue::Text(text)) => Some(text@),
            _ => None,
        }
    }

    /// The number that the member named `key` holds, where there is such a
    /// member and it is a number.
    pub open spec fn number_field(self, key: Seq<char>) -> Option<i32> {
        match self.field(key) {
            Some(JsonValue::Number(x)) => Some(x),
            _ => None,
        }
    }

    /// The strings of this value, where it is an array of strings.
    pub open spec fn text_list(self) -> Option<Seq<Seq<char>>> {
        match self {
            JsonValue::Array(items) => if all_text(items@) {
                Some(texts_of(items@))
            } else {
                None
            },
            _ => None,
        }
    }

    /// Looks up the first member named `key`. A value that is no object has no
    /// members.
    pub fn get(&self, key: &str) -> (r: Option<&JsonValue>)
        ensures
            match r {
                Some(v) => self.field(key@) == Some(*v),
                None => self.field(key@) is None,
            },
    {
        match self {
            JsonValue::Object(members) => find_member(members, key),
            _ => None,
        }
    }

    /// The string that the member named `key` holds.
    pub fn get_text(&self, key: &str) -> (r: Option<&String>)
        ensures
            match r {
                Some(text) => self.text_field(key@) == Some(text@),
                None => self.text_field(key@) is None,
            },
    {
        match self.get(key) {
            Some(JsonValue::Text(text)) => Some(text),
            _ => None,
        }
    }

    /// The number that the member named `key` holds.
    pub fn get_number(&self, key: &str) -> (r: Option<i32>)
        ensures
            r == self.number_field(key@),
    {
        match self.get(key) {
            Some(JsonValue::Number(x)) => Some(*x),
            _ => None,
        }
    }

    /// The strings of this value, where it is an array of strings.
    #[verifier::loop_isolation(false)]
    pub fn as_text_list(&self) -> (r: Option<Vec<String>>)
        ensures
            match r {
                Some(texts) => self.text_list() == Some(text_views(texts@)),
                None => self.text_list() is None,
            },
    {
        match self {
            JsonValue::Array(items) => {
                let mut texts: Vec<String> = Vec::new();
                let mut i: usize = 0;
                while i < items.len()
                    invariant
                        i <= items.len(),
                        texts@.len() == i,
                        forall|j: int| 0 <= j < i ==> (#[trigger] items@[j]) is Text,
                        forall|j: int|
                            0 <= j < i ==> (#[trigger] texts@[j])@ == items@[j]->Text_0@,
                    decreases items.len() - i,
                {
                    match &items[i] {
                        JsonValue::Text(text) => texts.push(text.clone()),
                        _ => {
                            assert(!all_text(items@));
                            return None;
                        },
                    }
                    i += 1;
                }
                assert(text_views(texts@) =~= texts_of(items@));
                Some(texts)
            },
            _ => None,
        }
    }
}

/// Looks up the first member named `key` in a list of members.
pub fn find_member<'a>(members: &'a Vec<JsonMember>, key: &str) -> (r: Option<&'a JsonValue>)
    ensures
        match r {
            Some(v) => member_value(members@, key@) == Some(*v),
            None => member_value(members@, key@) is None,
        },
{
    let wanted = key.to_owned();
    let mut i: usize = 0;
    while i < members.len()
        invariant
            i <= members.len(),
            wanted@ == key@,
            forall|j: int| 0 <= j < i ==> member_keys(members@)[j] != key@,
        decreases members.len() - i,
    {
        if members[i].key == wanted {
            proof {
                lemma_first_index_found(member_keys(members@), key@, i as int);
            }
            return Some(&members[i].value);
        }
        i += 1;
    }
    proof {
        lemma_first_index_absent(member_keys(members@), key@);
    }
    None
}

} // verus!
