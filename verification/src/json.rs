//! A plain model of a JSON value: just what the resource decoder reads.
//! Objects keep their fields in order; a lookup takes the first binding of a
//! key, as a JSON object with unique keys would give.
use crate::text::str_eq;
use vstd::prelude::*;

verus! {

#[derive(Debug, PartialEq)]
pub enum JsonVal {
    Null,
    Bool(bool),
    Int(i64),
    Str(String),
    Arr(Vec<JsonVal>),
    Obj(Vec<(String, JsonVal)>),
}

/// The fields of a raw JSON object, in wire order.
pub type JsonObj = Vec<(String, JsonVal)>;

/// The index of the first binding of `key`, or `-1` if there is none.
pub open spec fn key_index(fields: Seq<(String, JsonVal)>, key: Seq<char>) -> int
    decreases fields.len(),
{
    if fields.len() == 0 {
        -1
    } else if fields[0].0@ == key {
        0
    } else {
        let r = key_index(fields.drop_first(), key);
        if r < 0 {
            -1
        } else {
            r + 1
        }
    }
}

pub open spec fn has_key(fields: Seq<(String, JsonVal)>, key: Seq<char>) -> bool {
    key_index(fields, key) >= 0
}

/// The value of the first binding of `key`.
pub open spec fn field_value(fields: Seq<(String, JsonVal)>, key: Seq<char>) -> JsonVal {
    fields[key_index(fields, key)].1
}

/// The object without the first binding of `key`, or unchanged if `key` is
/// not bound.
pub open spec fn remove_key(fields: Seq<(String, JsonVal)>, key: Seq<char>) -> Seq<
    (String, JsonVal),
> {
    if has_key(fields, key) {
        fields.remove(key_index(fields, key))
    } else {
        fields
    }
}

/// Where a key is bound at all, its first binding lies in range and carries
/// that key.
pub proof fn lemma_key_index_in_range(fields: Seq<(String, JsonVal)>, key: Seq<char>)
    ensures
        -1 <= key_index(fields, key) < fields.len(),
        key_index(fields, key) >= 0 ==> fields[key_index(fields, key)].0@ == key,
    decreases fields.len(),
{
    if fields.len() > 0 && fields[0].0@ != key {
        lemma_key_index_in_range(fields.drop_first(), key);
    }
}

/// If nothing before `i` binds `key` and `i` does, then `i` is the first
/// binding of `key`.
proof fn lemma_key_index_first(fields: Seq<(String, JsonVal)>, key: Seq<char>, i: int)
    requires
        0 <= i < fields.len(),
        fields[i].0@ == key,
        forall|j: int| 0 <= j < i ==> fields[j].0@ != key,
    ensures
        key_index(fields, key) == i,
    decreases fields.len(),
{
    if i > 0 {
        lemma_key_index_first(fields.drop_first(), key, i - 1);
    }
}

/// If no binding matches `key`, the key is absent.
proof fn lemma_key_index_none(fields: Seq<(String, JsonVal)>, key: Seq<char>)
    requires
        forall|j: int| 0 <= j < fields.len() ==> fields[j].0@ != key,
    ensures
        key_index(fields, key) == -1,
    decreases fields.len(),
{
    if fields.len() > 0 {
        lemma_key_index_none(fields.drop_first(), key);
    }
}

/// Removes the first binding of `key` from the object and hands its value
/// back; the rest of the object keeps its order.
pub fn take_field(fields: &mut JsonObj, key: &str) -> (r: Option<JsonVal>)
    ensures
        has_key(old(fields)@, key@) ==> {
            &&& r matches Some(v) && v == field_value(old(fields)@, key@)
            &&& final(fields)@ == remove_key(old(fields)@, key@)
        },
        !has_key(old(fields)@, key@) ==> r is None && final(fields)@ == old(fields)@,
    {
    proof {
        lemma_key_index_in_range(old(fields)@, key@);
    }
    let mut i: usize = 0;
    while i < fields.len()
        invariant
            *fields == *old(fields),
            i <= fields@.len(),
            forall|j: int| 0 <= j < i ==> fields@[j].0@ != key@,
        decreases fields@.len() - i,
    {
        if str_eq(fields[i].0.as_str(), key) {
            proof {
                lemma_key_index_first(fields@, key@, i as int);
            }
            let binding = fields.remove(i);
            return Some(binding.1);
        }
        i += 1;
    }
    proof {
        lemma_key_index_none(fields@, key@);
    }
    None
}

/// A borrowed look at the value of the first binding of `key`, if any.
pub fn get_field<'a>(fields: &'a JsonObj, key: &str) -> (r: Option<&'a JsonVal>)
    ensures
        has_key(fields@, key@) ==> (r matches Some(v) && *v == field_value(fields@, key@)),
        !has_key(fields@, key@) ==> r is None,
{
    proof {
        lemma_key_index_in_range(fields@, key@);
    }
    let mut i: usize = 0;
    while i < fields.len()
        invariant
            i <= fields@.len(),
            forall|j: int| 0 <= j < i ==> fields@[j].0@ != key@,
        decreases fields@.len() - i,
    {
        if str_eq(fields[i].0.as_str(), key) {
            proof {
                lemma_key_index_first(fields@, key@, i as int);
            }
            return Some(&fields[i].1);
        }
        i += 1;
    }
    proof {
        lemma_key_index_none(fields@, key@);
    }
    None
}

} // verus!
