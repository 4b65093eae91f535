use vstd::prelude::*;
use crate::store::{first_match, lemma_first_match, lemma_first_match_at, opt_index};

verus! {

pub open spec fn key_is<V>(k: u64) -> spec_fn((u64, V)) -> bool {
    |e: (u64, V)| e.0 == k
}

/// The entries with `k` set to `v`: the first entry for `k` is overwritten, or
/// one is appended when there is none.
pub open spec fn upsert<V>(s: Seq<(u64, V)>, k: u64, v: V) -> Seq<(u64, V)> {
    let i = first_match(s, key_is(k));
    if i >= 0 {
        s.update(i, (k, v))
    } else {
        s.push((k, v))
    }
}

/// The value of the first entry for `k`.
pub open spec fn lookup<V>(s: Seq<(u64, V)>, k: u64) -> Option<V> {
    let i = first_match(s, key_is(k));
    if i >= 0 {
        Some(s[i].1)
    } else {
        None
    }
}

pub fn find_key<V: Copy>(v: &Vec<(u64, V)>, k: u64) -> (r: Option<usize>)
    ensures
        opt_index(r) == first_match(v@, key_is(k)),
        r matches Some(i) ==> i < v@.len() && v@[i as int].0 == k,
{
    let mut i: usize = 0;
    while i < v.len()
        invariant
            i <= v@.len(),
            forall|j: int| 0 <= j < i ==> (#[trigger] v@[j]).0 != k,
        decreases v@.len() - i,
    {
        if v[i].0 == k {
            proof {
                lemma_first_match_at(v@, key_is(k), i as int);
            }
            return Some(i);
        }
        i = i + 1;
    }
    proof {
        lemma_first_match(v@, key_is(k));
    }
    None
}

/// Sets the value for `k`, overwriting its first entry or appending one.
pub fn upsert_pair<V: Copy>(v: &mut Vec<(u64, V)>, k: u64, val: V)
    ensures
        final(v)@ == upsert(old(v)@, k, val),
{
    match find_key(v, k) {
        Some(i) => {
            v.set(i, (k, val));
        },
        None => {
            v.push((k, val));
        },
    }
}

/// The value of the first entry for `k`.
pub fn lookup_pair<V: Copy>(v: &Vec<(u64, V)>, k: u64) -> (r: Option<V>)
    ensures
        r == lookup(v@, k),
{
    match find_key(v, k) {
        Some(i) => Some(v[i].1),
        None => None,
    }
}

/// Whether `x` is in `v`.
pub fn contains_id(v: &Vec<u64>, x: u64) -> (r: bool)
    ensures
        r == v@.contains(x),
{
    let mut i: usize = 0;
    while i < v.len()
        invariant
            i <= v@.len(),
            forall|j: int| 0 <= j < i ==> v@[j] != x,
        decreases v@.len() - i,
    {
        if v[i] == x {
            return true;
        }
        i = i + 1;
    }
    false
}

/// Some entry of `s` reads `t`.
pub open spec fn has_text(s: Seq<String>, t: Seq<char>) -> bool {
    exists|i: int| 0 <= i < s.len() && (#[trigger] s[i])@ == t
}

/// Whether some entry of `v` reads the same as `t`.
pub fn contains_text_entry(v: &Vec<String>, t: &String) -> (r: bool)
    ensures
        r == has_text(v@, t@),
{
    let mut i: usize = 0;
    while i < v.len()
        invariant
            i <= v@.len(),
            forall|j: int| 0 <= j < i ==> (#[trigger] v@[j])@ != t@,
        decreases v@.len() - i,
    {
        if v[i] == *t {
            return true;
        }
        i = i + 1;
    }
    false
}

} // verus!
