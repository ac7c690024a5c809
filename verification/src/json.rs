//! An owned, plainly-typed JSON tree.
//!
//! The service replies with (and accepts) JSON documents. This module holds
//! them as [`Json`] values so that the navigation and decoding logic of the
//! rest of the crate can be specified and verified over plain data. A number
//! that is not an integer is carried as the bit pattern of an IEEE-754 double,
//! so the tree itself stays free of floating-point arithmetic while losing
//! nothing of the value.

use vstd::prelude::*;

verus! {

/// A JSON number: an integer, or the bit pattern of an IEEE-754 double for
/// any other number. The distinction mirrors the wire format: coordinate
/// fields are integers, confidence fields are fractions.
#[derive(Debug, PartialEq, Eq, Clone, Copy)]
pub enum JsonNum {
    Int(i64),
    /// Bit pattern (as by `f64::to_bits`) of a number that is not an integer.
    Float(u64),
}

/// One JSON value. Object members keep the order in which they appeared;
/// lookup takes the first member with a matching key.
#[derive(Debug, PartialEq, Eq)]
pub enum Json {
    Null,
    Bool(bool),
    Number(JsonNum),
    Str(String),
    Arr(Vec<Json>),
    Obj(Vec<(String, Json)>),
}

/// Index of the first member at or after `i` whose key reads `key`.
pub open spec fn obj_find_from(fields: Seq<(String, Json)>, key: Seq<char>, i: int) -> Option<int>
    decreases fields.len() - i,
{
    if !(0 <= i < fields.len()) {
        None
    } else if fields[i].0@ == key {
        Some(i)
    } else {
        obj_find_from(fields, key, i + 1)
    }
}

/// The value of the first member whose key reads `key`.
pub open spec fn obj_lookup(fields: Seq<(String, Json)>, key: Seq<char>) -> Option<Json> {
    match obj_find_from(fields, key, 0) {
        Some(i) => Some(fields[i].1),
        None => None,
    }
}

/// Member lookup on an object; `None` on any other value.
pub open spec fn spec_get(j: Json, key: Seq<char>) -> Option<Json> {
    match j {
        Json::Obj(fields) => obj_lookup(fields@, key),
        _ => None,
    }
}

/// Element lookup on an array; `None` on any other value or out of range.
pub open spec fn spec_index(j: Json, i: int) -> Option<Json> {
    match j {
        Json::Arr(elems) => if 0 <= i < elems@.len() {
            Some(elems@[i])
        } else {
            None
        },
        _ => None,
    }
}

/// Finds the first member at or after `i` whose key equals `key`.
pub(crate) fn obj_find_index(fields: &Vec<(String, Json)>, key: &String, i: usize) -> (r: Option<
    usize,
>)
    requires
        i <= fields@.len(),
    ensures
        match r {
            Some(n) => {
                &&& obj_find_from(fields@, key@, i as int) == Some(n as int)
                &&& i <= n < fields@.len()
                &&& fields@[n as int].0@ == key@
            },
            None => obj_find_from(fields@, key@, i as int) is None,
        },
    decreases fields@.len() - i,
{
    if i >= fields.len() {
        None
    } else if fields[i].0 == *key {
        Some(i)
    } else {
        obj_find_index(fields, key, i + 1)
    }
}

impl Json {
    /// Looks a member up in an object, as indexing with a string key does on
    /// a dynamically typed JSON value: `None` when `self` is not an object or
    /// has no member of that key.
    pub fn get<'a>(&'a self, key: &str) -> (r: Option<&'a Json>)
        ensures
            match r {
                Some(v) => spec_get(*self, key@) == Some(*v),
                None => spec_get(*self, key@) is None,
            },
    {
        let owned_key: String = key.to_owned();
        match self {
            Json::Obj(fields) => match obj_find_index(fields, &owned_key, 0) {
                Some(n) => Some(&fields[n].1),
                None => None,
            },
            _ => None,
        }
    }

    /// Looks an element up in an array: `None` when `self` is not an array
    /// or the index is out of range.
    pub fn index<'a>(&'a self, i: usize) -> (r: Option<&'a Json>)
        ensures
            match r {
                Some(v) => spec_index(*self, i as int) == Some(*v),
                None => spec_index(*self, i as int) is None,
            },
    {
        match self {
            Json::Arr(elems) => if i < elems.len() {
                Some(&elems[i])
            } else {
                None
            },
            _ => None,
        }
    }
}

} // verus!
