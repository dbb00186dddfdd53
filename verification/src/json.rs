//! The library's own model of a semi-structured JSON record.
//!
//! Records reach the engine as trees of objects, arrays and scalars with no
//! fixed schema. The engine only ever reads plain values out of them: strings,
//! booleans, the decimal rendering of a number, and its integer views. A
//! number therefore carries exactly those projections; object members keep
//! their order, and a lookup takes the first member with the asked-for key.

use vstd::prelude::*;
use crate::text::str_eq;

verus! {

/// A JSON number, reduced to the projections the matching rules read:
/// its decimal rendering and its integer views, when it has them.
#[derive(Debug, PartialEq, Eq)]
pub struct JsonNum {
    /// The number as it prints in decimal.
    pub text: String,
    /// The value as a signed 64-bit integer, if the number is an integer
    /// in that range.
    pub as_int: Option<i64>,
    /// The value as an unsigned 64-bit integer, if the number is a
    /// non-negative integer in that range.
    pub as_uint: Option<u64>,
}

/// One semi-structured record, or any subtree of one.
#[derive(Debug, PartialEq, Eq)]
pub enum Json {
    Null,
    Bool(bool),
    Num(JsonNum),
    Str(String),
    Arr(Vec<Json>),
    Obj(Vec<(String, Json)>),
}

/// The value of the first member of `fields` whose key reads `key`.
pub open spec fn lookup_fields(fields: Seq<(String, Json)>, key: Seq<char>) -> Option<Json>
    decreases fields.len(),
{
    if fields.len() == 0 {
        None
    } else if fields[0].0@ == key {
        Some(fields[0].1)
    } else {
        lookup_fields(fields.drop_first(), key)
    }
}

impl Json {
    /// The member of this value at `key`: the first object member with that
    /// key, or nothing when the value is not an object or lacks the key.
    pub open spec fn spec_get(self, key: Seq<char>) -> Option<Json> {
        match self {
            Json::Obj(fields) => lookup_fields(fields@, key),
            _ => None,
        }
    }

    /// Field lookup on a record subtree.
    #[verifier::loop_isolation(false)]
    pub fn get<'a>(&'a self, key: &str) -> (r: Option<&'a Json>)
        ensures
            match r {
                Some(v) => self.spec_get(key@) == Some(*v),
                None => self.spec_get(key@) is None,
            },
    {
        match self {
            Json::Obj(fields) => {
                let n = fields.len();
                let mut i: usize = 0;
                proof {
                    assert(fields@.skip(0) =~= fields@);
                }
                while i < n
                    invariant
                        n == fields@.len(),
                        i <= n,
                        lookup_fields(fields@, key@) == lookup_fields(
                            fields@.skip(i as int),
                            key@,
                        ),
                    decreases n - i,
                {
                    let pair = &fields[i];
                    proof {
                        assert(fields@.skip(i as int)[0] == fields@[i as int]);
                    }
                    if str_eq(pair.0.as_str(), key) {
                        proof {
                            assert(lookup_fields(fields@.skip(i as int), key@) == Some(
                                fields@[i as int].1,
                            ));
                        }
                        return Some(&pair.1);
                    }
                    proof {
                        assert(fields@.skip(i as int).drop_first() =~= fields@.skip(
                            i as int + 1,
                        ));
                    }
                    i += 1;
                }
                None
            },
            _ => None,
        }
    }
}

} // verus!
