//! A closed model of the semi-structured result rows the backend returns.
//!
//! The backend hands back string-keyed field maps whose values are
//! heterogeneous: numbers, booleans, strings, nested lists and objects.
//! `JsonVal` is the closed variant type for those values; a numeric value is
//! carried as the IEEE-754 bit pattern of its 64-bit floating-point reading,
//! so that contracts can speak of it exactly. `Row` is one result row: its
//! top-level fields in backend order.

use vstd::prelude::*;

verus! {

/// One loosely typed value inside a result row.
#[derive(Debug, PartialEq)]
pub enum JsonVal {
    /// An explicit null.
    Null,
    /// A boolean.
    Bool(bool),
    /// A numeric value, as the bit pattern of its 64-bit floating-point
    /// reading.
    Num(u64),
    /// A string.
    Str(String),
    /// A nested list.
    Arr(Vec<JsonVal>),
    /// A nested object: fields in order.
    Obj(Vec<(String, JsonVal)>),
}

/// One result row: its top-level fields, in the order the backend sent them.
#[derive(Debug, PartialEq)]
pub struct Row {
    pub fields: Vec<(String, JsonVal)>,
}

/// The value of the first field named `key`, if any.
pub open spec fn spec_get(fields: Seq<(String, JsonVal)>, key: Seq<char>) -> Option<JsonVal>
    decreases fields.len(),
{
    if fields.len() == 0 {
        None
    } else if fields[0].0@ == key {
        Some(fields[0].1)
    } else {
        spec_get(fields.skip(1), key)
    }
}

/// Looks up the first field named `key`.
pub fn get_field<'a>(fields: &'a Vec<(String, JsonVal)>, key: &String) -> (r: Option<&'a JsonVal>)
    ensures
        match r {
            Some(v) => spec_get(fields@, key@) == Some(*v),
            None => spec_get(fields@, key@) is None,
        },
{
    let mut i: usize = 0;
    proof {
        assert(fields@.skip(0) =~= fields@);
    }
    while i < fields.len()
        invariant
            0 <= i <= fields@.len(),
            spec_get(fields@, key@) == spec_get(fields@.skip(i as int), key@),
        decreases fields@.len() - i,
    {
        let field = &fields[i];
        proof {
            assert(fields@.skip(i as int)[0] == fields@[i as int]);
        }
        if field.0 == *key {
            return Some(&field.1);
        }
        proof {
            assert(fields@.skip(i as int).skip(1) =~= fields@.skip(i as int + 1));
        }
        i = i + 1;
    }
    None
}

} // verus!
