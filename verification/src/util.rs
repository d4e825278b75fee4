//! Small verified vector helpers.

use vstd::prelude::*;

verus! {

/// A fresh vector holding the same elements as `v`.
pub fn copy_vec<T: Copy>(v: &Vec<T>) -> (r: Vec<T>)
    ensures
        r@ == v@,
{
    let mut r: Vec<T> = Vec::new();
    let n = v.len();
    for i in 0..n
        invariant
            n == v@.len(),
            r@ == v@.take(i as int),
    {
        r.push(v[i]);
        proof {
            assert(r@ =~= v@.take(i + 1));
        }
    }
    proof {
        assert(r@ =~= v@);
    }
    r
}

/// A vector of `n` copies of `value`.
pub fn filled_vec<T: Copy>(n: usize, value: T) -> (r: Vec<T>)
    ensures
        r@.len() == n,
        forall|i: int| 0 <= i < n ==> r@[i] == value,
{
    let mut r: Vec<T> = Vec::new();
    for i in 0..n
        invariant
            r@.len() == i,
            forall|j: int| 0 <= j < i ==> r@[j] == value,
    {
        r.push(value);
    }
    r
}

/// Whether `v` holds `key`.
pub fn vec_contains_u32(v: &Vec<u32>, key: u32) -> (r: bool)
    ensures
        r == v@.contains(key),
{
    let n = v.len();
    for i in 0..n
        invariant
            n == v@.len(),
            forall|j: int| 0 <= j < i ==> v@[j] != key,
    {
        if v[i] == key {
            return true;
        }
    }
    false
}

/// Whether `v` holds `key`.
pub fn vec_contains_i16(v: &Vec<i16>, key: i16) -> (r: bool)
    ensures
        r == v@.contains(key),
{
    let n = v.len();
    for i in 0..n
        invariant
            n == v@.len(),
            forall|j: int| 0 <= j < i ==> v@[j] != key,
    {
        if v[i] == key {
            return true;
        }
    }
    false
}

} // verus!
