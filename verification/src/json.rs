//! A plain model of a JSON document.
//!
//! The feed delivers frames as JSON text. The boundary code turns each frame
//! into this tree of plain values; everything the pipeline then does with a
//! frame — shape matching, field extraction — is verified against it.

use vstd::prelude::*;

verus! {

/// One JSON value, as a tree of plain values.
pub enum JsonValue {
    Null,
    Bool(bool),
    /// A number with an exact unsigned 64-bit integer value.
    Num(u64),
    /// Any other number (negative, fractional, or out of unsigned 64-bit
    /// range). No field the pipeline reads may hold one.
    NumOther,
    Str(String),
    Arr(Vec<JsonValue>),
    Obj(Vec<(String, JsonValue)>),
}

/// The value of the first member of `fields` named `key`, if any.
pub open spec fn lookup(fields: Seq<(String, JsonValue)>, key: Seq<char>) -> Option<JsonValue>
    decreases fields.len(),
{
    if fields.len() == 0 {
        None
    } else if fields[0].0@ == key {
        Some(fields[0].1)
    } else {
        lookup(fields.drop_first(), key)
    }
}

/// The member named `key` of `v`, where `v` is an object; `None` otherwise.
pub open spec fn field_of(v: JsonValue, key: Seq<char>) -> Option<JsonValue> {
    match v {
        JsonValue::Obj(fields) => lookup(fields@, key),
        _ => None,
    }
}

proof fn lemma_lookup_skip(fields: Seq<(String, JsonValue)>, key: Seq<char>, i: int)
    requires
        0 <= i <= fields.len(),
        forall|j: int| 0 <= j < i ==> fields[j].0@ != key,
    ensures
        lookup(fields, key) == lookup(fields.skip(i), key),
    decreases i,
{
    if i > 0 {
        assert(fields[0].0@ != key);
        assert(forall|j: int| 0 <= j < i - 1 ==> fields.drop_first()[j].0@ != key);
        lemma_lookup_skip(fields.drop_first(), key, i - 1);
        assert(fields.drop_first().skip(i - 1) =~= fields.skip(i));
    } else {
        assert(fields.skip(0) =~= fields);
    }
}

/// Finds the first member of `fields` named `key`.
pub fn obj_get<'a>(fields: &'a Vec<(String, JsonValue)>, key: &String) -> (r: Option<&'a JsonValue>)
    ensures
        match r {
            Some(v) => lookup(fields@, key@) == Some(*v),
            None => lookup(fields@, key@) is None,
        },
{
    let n = fields.len();
    for i in 0..n
        invariant
            n == fields@.len(),
            forall|j: int| 0 <= j < i ==> fields@[j].0@ != key@,
    {
        if fields[i].0 == *key {
            proof {
                lemma_lookup_skip(fields@, key@, i as int);
                assert(fields@.skip(i as int)[0] == fields@[i as int]);
            }
            return Some(&fields[i].1);
        }
    }
    proof {
        lemma_lookup_skip(fields@, key@, n as int);
    }
    None
}

} // verus!
