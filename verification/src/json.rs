//! Values in the shape of JSON, as far as commands and node events are
//! read from them.

use vstd::prelude::*;
use vstd::string::*;

verus! {

/// A value in the shape of JSON. A number that is no unsigned integer of
/// 64 bits is kept as its text.
#[derive(Debug)]
pub enum JsonValue {
    Null,
    Bool(bool),
    Unsigned(u64),
    Number(String),
    Text(String),
    Array(Vec<JsonValue>),
    Object(Vec<(String, JsonValue)>),
}

/// Where the member named `key` stands among `fields`: the first position
/// from `from` on with that name, or the number of fields.
pub open spec fn member_at(fields: Seq<(String, JsonValue)>, key: Seq<char>, from: int) -> int
    decreases fields.len() - from,
{
    if 0 <= from < fields.len() && fields[from].0@ != key {
        member_at(fields, key, from + 1)
    } else {
        from
    }
}

/// The member named `key` of a value: that of an object that has one.
pub open spec fn member(v: JsonValue, key: Seq<char>) -> Option<JsonValue> {
    match v {
        JsonValue::Object(fields) => {
            let at = member_at(fields@, key, 0);
            if 0 <= at < fields@.len() {
                Some(fields@[at].1)
            } else {
                None
            }
        },
        _ => None,
    }
}

/// The item at `index` of a value: that of an array that is long enough.
pub open spec fn item(v: JsonValue, index: int) -> Option<JsonValue> {
    match v {
        JsonValue::Array(items) => if 0 <= index < items@.len() {
            Some(items@[index])
        } else {
            None
        },
        _ => None,
    }
}

/// The text of a value that is a text.
pub open spec fn text_of(v: JsonValue) -> Option<Seq<char>> {
    match v {
        JsonValue::Text(s) => Some(s@),
        _ => None,
    }
}

/// The number of a value that is an unsigned integer.
pub open spec fn unsigned_of(v: JsonValue) -> Option<u64> {
    match v {
        JsonValue::Unsigned(n) => Some(n),
        _ => None,
    }
}

/// The truth value of a value that is one.
pub open spec fn bool_of(v: JsonValue) -> Option<bool> {
    match v {
        JsonValue::Bool(b) => Some(b),
        _ => None,
    }
}

impl JsonValue {
    /// The member named `key`.
    pub fn get(&self, key: &str) -> (r: Option<&JsonValue>)
        ensures
            match r {
                Some(v) => member(*self, key@) == Some(*v),
                None => member(*self, key@) is None,
            },
    {
        match self {
            JsonValue::Object(fields) => {
                let wanted: String = key.to_owned();
                let mut i: usize = 0;
                while i < fields.len()
                    invariant
                        0 <= i <= fields@.len(),
                        wanted@ == key@,
                        *self == JsonValue::Object(*fields),
                        member_at(fields@, key@, 0) == member_at(fields@, key@, i as int),
                    decreases fields@.len() - i,
                {
                    if fields[i].0 == wanted {
                        proof {
                            assert(member_at(fields@, key@, i as int) == i as int);
                        }
                        return Some(&fields[i].1);
                    }
                    i = i + 1;
                }
                None
            },
            _ => None,
        }
    }

    /// The item at `index`.
    pub fn at(&self, index: usize) -> (r: Option<&JsonValue>)
        ensures
            match r {
                Some(v) => item(*self, index as int) == Some(*v),
                None => item(*self, index as int) is None,
            },
    {
        match self {
            JsonValue::Array(items) => {
                if index < items.len() {
                    Some(&items[index])
                } else {
                    None
                }
            },
            _ => None,
        }
    }

    /// The text, where the value is one.
    pub fn as_str(&self) -> (r: Option<&String>)
        ensures
            r.deep_view() == text_of(*self),
    {
        match self {
            JsonValue::Text(s) => Some(s),
            _ => None,
        }
    }

    /// The unsigned integer, where the value is one.
    pub fn as_u64(&self) -> (r: Option<u64>)
        ensures
            r == unsigned_of(*self),
    {
        match self {
            JsonValue::Unsigned(n) => Some(*n),
            _ => None,
        }
    }

    /// The truth value, where the value is one.
    pub fn as_bool(&self) -> (r: Option<bool>)
        ensures
            r == bool_of(*self),
    {
        match self {
            JsonValue::Bool(b) => Some(*b),
            _ => None,
        }
    }

    /// Whether the value is an object.
    pub fn is_object(&self) -> (r: bool)
        ensures
            r == (*self is Object),
    {
        match self {
            JsonValue::Object(_) => true,
            _ => false,
        }
    }
}

} // verus!
