//! The library's model of a JSON request body.  The gateway never interprets
//! the payloads it carries beyond the object structure around them, so the
//! model keeps every value as plain data: a number that does not fit `i64`
//! travels as its decimal text.

use vstd::prelude::*;
use crate::strutil::str_eq;

verus! {

/// A JSON value as the gateway carries it.
#[derive(Debug, PartialEq)]
pub enum JsonVal {
    Null,
    Bool(bool),
    Int(i64),
    /// a number outside the range of `i64`, as its decimal text
    Num(String),
    Str(String),
    Arr(Vec<JsonVal>),
    Obj(Vec<(String, JsonVal)>),
}

/// The value under `key` among `entries`: the first entry whose key holds
/// exactly the characters of `key`.
pub open spec fn spec_entries_lookup(entries: Seq<(String, JsonVal)>, key: Seq<char>) -> Option<
    JsonVal,
>
    decreases entries.len(),
{
    if entries.len() == 0 {
        None
    } else if entries[0].0@ == key {
        Some(entries[0].1)
    } else {
        spec_entries_lookup(entries.drop_first(), key)
    }
}

/// The value under `key` when `v` is an object with such an entry.
pub open spec fn spec_lookup(v: JsonVal, key: Seq<char>) -> Option<JsonVal> {
    match v {
        JsonVal::Obj(entries) => spec_entries_lookup(entries@, key),
        _ => None,
    }
}

proof fn lemma_lookup_first_match(entries: Seq<(String, JsonVal)>, key: Seq<char>, i: int)
    requires
        0 <= i < entries.len(),
        entries[i].0@ == key,
        forall|j: int| 0 <= j < i ==> entries[j].0@ != key,
    ensures
        spec_entries_lookup(entries, key) == Some(entries[i].1),
    decreases i,
{
    if i > 0 {
        lemma_lookup_first_match(entries.drop_first(), key, i - 1);
    }
}

proof fn lemma_lookup_no_match(entries: Seq<(String, JsonVal)>, key: Seq<char>)
    requires
        forall|j: int| 0 <= j < entries.len() ==> entries[j].0@ != key,
    ensures
        spec_entries_lookup(entries, key) is None,
    decreases entries.len(),
{
    if entries.len() > 0 {
        lemma_lookup_no_match(entries.drop_first(), key);
    }
}

impl JsonVal {
    /// The entry under `key` when `self` is an object holding one, as
    /// object lookup on a parsed body behaves.
    pub fn get<'a>(&'a self, key: &str) -> (r: Option<&'a JsonVal>)
        ensures
            (match r {
                Some(p) => spec_lookup(*self, key@) == Some(*p),
                None => spec_lookup(*self, key@) is None,
            }),
    {
        match self {
            JsonVal::Obj(entries) => {
                let n: usize = entries.len();
                let mut i: usize = 0;
                while i < n
                    invariant
                        spec_lookup(*self, key@) == spec_entries_lookup(entries@, key@),
                        n == entries@.len(),
                        i <= n,
                        forall|j: int| 0 <= j < i ==> entries@[j].0@ != key@,
                    decreases n - i,
                {
                    let pair: &(String, JsonVal) = &entries[i];
                    if str_eq(pair.0.as_str(), key) {
                        proof {
                            lemma_lookup_first_match(entries@, key@, i as int);
                        }
                        return Some(&pair.1);
                    }
                    i = i + 1;
                }
                proof {
                    lemma_lookup_no_match(entries@, key@);
                }
                None
            },
            _ => None,
        }
    }
}

/// Takes the entry under `key` out of `v`, when `v` is an object holding
/// one, handing the value back by move.
pub fn take_key(v: JsonVal, key: &str) -> (r: Option<JsonVal>)
    ensures
        (match r {
            Some(p) => spec_lookup(v, key@) == Some(p),
            None => spec_lookup(v, key@) is None,
        }),
{
    match v {
        JsonVal::Obj(mut entries) => {
            let ghost orig_entries: Seq<(String, JsonVal)> = entries@;
            let n: usize = entries.len();
            let mut i: usize = 0;
            while i < n
                invariant
                    spec_lookup(v, key@) == spec_entries_lookup(orig_entries, key@),
                    entries@ == orig_entries,
                    n == entries@.len(),
                    i <= n,
                    forall|j: int| 0 <= j < i ==> entries@[j].0@ != key@,
                decreases n - i,
            {
                let found: bool = str_eq(entries[i].0.as_str(), key);
                if found {
                    proof {
                        lemma_lookup_first_match(entries@, key@, i as int);
                    }
                    let pair: (String, JsonVal) = entries.remove(i);
                    return Some(pair.1);
                }
                i = i + 1;
            }
            proof {
                lemma_lookup_no_match(entries@, key@);
            }
            None
        },
        _ => None,
    }
}

} // verus!
