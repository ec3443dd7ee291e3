use vstd::prelude::*;

verus! {

/// A JSON document as the host sends and receives it.
///
/// Numbers are held as unsigned integers where they are one that fits in a
/// `u64`; every other number (negative, fractional, too large) is
/// `OtherNumber`, since no field this client reads can hold one.
#[derive(Debug, PartialEq)]
pub enum Json {
    Null,
    Bool(bool),
    Uint(u64),
    OtherNumber,
    Str(String),
    Array(Vec<Json>),
    Object(Vec<(String, Json)>),
}

/// The value of `key` among `fields`; where a key repeats, the last one counts.
pub open spec fn lookup(fields: Seq<(String, Json)>, key: Seq<char>) -> Option<Json>
    decreases fields.len(),
{
    if fields.len() == 0 {
        None
    } else if fields.last().0@ == key {
        Some(fields.last().1)
    } else {
        lookup(fields.drop_last(), key)
    }
}

/// The member `key` of `j`, if `j` is an object that has one.
pub open spec fn field(j: Json, key: Seq<char>) -> Option<Json> {
    match j {
        Json::Object(fields) => lookup(fields@, key),
        _ => None,
    }
}

/// An optional borrowed value, as a value.
pub open spec fn owned(v: Option<&Json>) -> Option<Json> {
    match v {
        Some(x) => Some(*x),
        None => None,
    }
}

/// The member `key` of `j`, if `j` is an object that has one.
pub fn get_field<'a>(j: &'a Json, key: &str) -> (r: Option<&'a Json>)
    ensures
        owned(r) == field(*j, key@),
{
    match j {
        Json::Object(fields) => {
            let k = String::from_str(key);
            let mut i: usize = fields.len();
            assert(fields@.subrange(0, i as int) =~= fields@);
            while i > 0
                invariant
                    i <= fields@.len(),
                    k@ == key@,
                    field(*j, key@) == lookup(fields@, key@),
                    lookup(fields@, key@) == lookup(fields@.subrange(0, i as int), key@),
                decreases i,
            {
                let ghost prefix = fields@.subrange(0, i as int);
                assert(prefix.last() == fields@[i - 1]);
                if fields[i - 1].0 == k {
                    return Some(&fields[i - 1].1);
                }
                assert(prefix.drop_last() =~= fields@.subrange(0, i - 1));
                i = i - 1;
            }
            None
        },
        _ => None,
    }
}

} // verus!
