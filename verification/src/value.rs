//! The structured form of a wire document.
//!
//! A generic serialization layer outside this crate turns raw text into a
//! [`Value`] tree and back; everything from the tree to the schema types is
//! decided here. Numbers are carried as IEEE-754 binary64 bit patterns, so
//! that numeric rules can be stated and checked exactly without
//! floating-point arithmetic.

use vstd::prelude::*;

verus! {

/// One node of a structured wire document.
#[derive(Debug, PartialEq)]
pub enum Value {
    Null,
    Bool(bool),
    /// A number, as the bit pattern of its IEEE-754 binary64 form.
    Num(u64),
    Str(String),
    Arr(Vec<Value>),
    /// An object: its key/value entries in wire order.
    Obj(Vec<(String, Value)>),
}

/// The value under the first entry whose key reads `key`, if any.
pub open spec fn lookup(pairs: Seq<(String, Value)>, key: Seq<char>) -> Option<Value>
    decreases pairs.len(),
{
    if pairs.len() == 0 {
        None
    } else if pairs[0].0@ == key {
        Some(pairs[0].1)
    } else {
        lookup(pairs.skip(1), key)
    }
}

pub proof fn lemma_lookup_none(pairs: Seq<(String, Value)>, key: Seq<char>)
    requires
        forall|j: int| 0 <= j < pairs.len() ==> pairs[j].0@ != key,
    ensures
        lookup(pairs, key) is None,
    decreases pairs.len(),
{
    if pairs.len() > 0 {
        lemma_lookup_none(pairs.skip(1), key);
    }
}

pub proof fn lemma_lookup_first_match(pairs: Seq<(String, Value)>, i: int, key: Seq<char>)
    requires
        0 <= i < pairs.len(),
        forall|j: int| 0 <= j < i ==> pairs[j].0@ != key,
        pairs[i].0@ == key,
    ensures
        lookup(pairs, key) == Some(pairs[i].1),
    decreases i,
{
    if i > 0 {
        lemma_lookup_first_match(pairs.skip(1), i - 1, key);
    }
}

/// Removing an entry of one key leaves the lookup of every other key as it
/// was.
pub proof fn lemma_lookup_after_remove(
    pairs: Seq<(String, Value)>,
    i: int,
    key: Seq<char>,
    other: Seq<char>,
)
    requires
        0 <= i < pairs.len(),
        pairs[i].0@ == key,
        other != key,
    ensures
        lookup(pairs.remove(i), other) == lookup(pairs, other),
    decreases i,
{
    if i == 0 {
        assert(pairs.remove(0) =~= pairs.skip(1));
    } else {
        assert(pairs.remove(i).skip(1) =~= pairs.skip(1).remove(i - 1));
        lemma_lookup_after_remove(pairs.skip(1), i - 1, key, other);
    }
}

/// Whether two string slices read the same characters.
pub fn str_eq(a: &str, b: &str) -> (r: bool)
    ensures
        r == (a@ == b@),
{
    let left: String = a.to_owned();
    let right: String = b.to_owned();
    left == right
}

/// Takes the value of the first entry whose key reads `key` out of `pairs`,
/// leaving every other key's first entry in place.
pub fn lookup_remove(pairs: &mut Vec<(String, Value)>, key: &str) -> (r: Option<Value>)
    ensures
        r == lookup(old(pairs)@, key@),
        forall|other: Seq<char>|
            other != key@ ==> lookup(final(pairs)@, other) == lookup(old(pairs)@, other),
{
    let mut i: usize = 0;
    while i < pairs.len()
        invariant
            i <= pairs.len(),
            pairs@ == old(pairs)@,
            forall|j: int| 0 <= j < i ==> pairs@[j].0@ != key@,
        decreases pairs.len() - i,
    {
        if str_eq(pairs[i].0.as_str(), key) {
            proof {
                lemma_lookup_first_match(pairs@, i as int, key@);
                assert forall|other: Seq<char>| other != key@ implies lookup(
                    pairs@.remove(i as int),
                    other,
                ) == lookup(pairs@, other) by {
                    lemma_lookup_after_remove(pairs@, i as int, key@, other);
                }
            }
            let entry = pairs.remove(i);
            return Some(entry.1);
        }
        i += 1;
    }
    proof {
        lemma_lookup_none(pairs@, key@);
    }
    None
}

} // verus!
