//! A JSON document as plain data: what the rules on vehicle and weapon
//! descriptions read. Numbers are held as bit patterns, and the members of
//! an object in the order of the document.

use vstd::prelude::*;
use crate::text::same_text;

verus! {

/// A JSON value.
pub enum Json {
    Null,
    Bool(bool),
    /// A number, as the bit pattern of its binary64 value.
    Number(u64),
    Text(String),
    Array(Vec<Json>),
    /// The members of an object, each name once.
    Object(Vec<(String, Json)>),
}

/// The first member at or after `from` with the given name.
pub open spec fn lookup(members: Seq<(String, Json)>, name: Seq<char>, from: int) -> Option<Json>
    decreases members.len() - from,
{
    if from < 0 || from >= members.len() {
        None
    } else if members[from].0@ == name {
        Some(members[from].1)
    } else {
        lookup(members, name, from + 1)
    }
}

/// The member of an object with the given name; nothing of any other value.
pub open spec fn member(json: Json, name: Seq<char>) -> Option<Json> {
    match json {
        Json::Object(members) => lookup(members@, name, 0),
        _ => None,
    }
}

/// The member with the given name of a value that may be absent.
pub open spec fn member_of(json: Option<Json>, name: Seq<char>) -> Option<Json> {
    match json {
        Some(j) => member(j, name),
        None => None,
    }
}

/// The text of a text value.
pub open spec fn text_in(json: Option<Json>) -> Option<Seq<char>> {
    match json {
        Some(Json::Text(s)) => Some(s@),
        _ => None,
    }
}

/// The bit pattern of a number.
pub open spec fn number_in(json: Option<Json>) -> Option<u64> {
    match json {
        Some(Json::Number(n)) => Some(n),
        _ => None,
    }
}

/// A reference as the value it refers to.
pub open spec fn deref_of(json: Option<&Json>) -> Option<Json> {
    match json {
        Some(j) => Some(*j),
        None => None,
    }
}

impl Json {
    /// The member of an object with the given name.
    pub fn get(&self, name: &str) -> (r: Option<&Json>)
        ensures
            deref_of(r) == member(*self, name@),
    {
        match self {
            Json::Object(members) => {
                let mut i: usize = 0;
                while i < members.len()
                    invariant
                        i <= members@.len(),
                        member(*self, name@) == lookup(members@, name@, 0),
                        lookup(members@, name@, i as int) == lookup(members@, name@, 0),
                    decreases members@.len() - i,
                {
                    if same_text(members[i].0.as_str(), name) {
                        assert(lookup(members@, name@, i as int) == Some(members@[i as int].1));
                        return Some(&members[i].1);
                    }
                    i += 1;
                }
                None
            },
            _ => None,
        }
    }

    /// The text of a text value.
    pub fn as_text(&self) -> (r: Option<String>)
        ensures
            match r {
                Some(s) => text_in(Some(*self)) == Some(s@),
                None => text_in(Some(*self)) is None,
            },
    {
        match self {
            Json::Text(s) => Some(s.clone()),
            _ => None,
        }
    }

    /// The bit pattern of a number.
    pub fn as_number(&self) -> (r: Option<u64>)
        ensures
            r == number_in(Some(*self)),
    {
        match self {
            Json::Number(n) => Some(*n),
            _ => None,
        }
    }

    pub fn is_object(&self) -> (r: bool)
        ensures
            r == (*self is Object),
    {
        match self {
            Json::Object(_) => true,
            _ => false,
        }
    }
}

/// The text of the member with the given name.
pub fn text_member(json: &Json, name: &str) -> (r: Option<String>)
    ensures
        match r {
            Some(s) => text_in(member(*json, name@)) == Some(s@),
            None => text_in(member(*json, name@)) is None,
        },
{
    match json.get(name) {
        Some(v) => v.as_text(),
        None => None,
    }
}

/// The number of the member with the given name.
pub fn number_member(json: &Json, name: &str) -> (r: Option<u64>)
    ensures
        r == number_in(member(*json, name@)),
{
    match json.get(name) {
        Some(v) => v.as_number(),
        None => None,
    }
}

} // verus!
