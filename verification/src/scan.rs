//! Small verified helpers over byte sequences.

use vstd::prelude::*;

verus! {

/// The needle `n` occurs in `h` starting at index `i`.
pub open spec fn occurs_at(h: Seq<u8>, n: Seq<u8>, i: int) -> bool {
    &&& 0 <= i
    &&& i + n.len() <= h.len()
    &&& h.subrange(i, i + n.len() as int) =~= n
}

/// The needle `n` occurs somewhere in `h`.
pub open spec fn contains_seq(h: Seq<u8>, n: Seq<u8>) -> bool {
    exists|i: int| occurs_at(h, n, i)
}

/// Whether `h` starts at index `at` with the bytes of `n`.
fn matches_at(h: &[u8], n: &[u8], at: usize) -> (r: bool)
    requires
        at + n@.len() <= h@.len(),
    ensures
        r == occurs_at(h@, n@, at as int),
{
    let hlen = h.len();
    let mut i: usize = 0;
    while i < n.len()
        invariant
            0 <= i <= n.len(),
            at + n@.len() <= h@.len(),
            hlen == h@.len(),
            forall|j: int| 0 <= j < i ==> h@[at + j] == n@[j],
        decreases n.len() - i,
    {
        if h[at + i] != n[i] {
            assert(h@.subrange(at as int, at + n@.len() as int)[i as int] != n@[i as int]);
            return false;
        }
        i += 1;
    }
    assert(h@.subrange(at as int, at + n@.len() as int) =~= n@);
    true
}

/// Index of the first occurrence of `n` in `h`, if there is one.
pub fn find_seq(h: &[u8], n: &[u8]) -> (r: Option<usize>)
    ensures
        match r {
            Some(i) => occurs_at(h@, n@, i as int) && forall|j: int|
                0 <= j < i ==> !occurs_at(h@, n@, j),
            None => !contains_seq(h@, n@),
        },
{
    if n.len() > h.len() {
        assert(forall|i: int| occurs_at(h@, n@, i) ==> i + n@.len() <= h@.len());
        return None;
    }
    let last = h.len() - n.len();
    let mut at: usize = 0;
    loop
        invariant
            0 <= at <= last,
            last == h@.len() - n@.len(),
            forall|j: int| 0 <= j < at ==> !occurs_at(h@, n@, j),
        decreases last - at,
    {
        if matches_at(h, n, at) {
            return Some(at);
        }
        if at == last {
            assert(forall|i: int| occurs_at(h@, n@, i) ==> i <= last);
            return None;
        }
        at += 1;
    }
}

/// The first index at or after `from` holding the byte `b`.
pub open spec fn find_byte(s: Seq<u8>, b: u8, from: int) -> Option<int>
    decreases s.len() - from
        when 0 <= from
{
    if from < 0 || from >= s.len() {
        None
    } else if s[from] == b {
        Some(from)
    } else {
        find_byte(s, b, from + 1)
    }
}

/// Find the byte `b` at or after `from`.
pub fn find_byte_from(s: &[u8], b: u8, from: usize) -> (r: Option<usize>)
    requires
        from <= s@.len(),
    ensures
        match r {
            Some(i) => find_byte(s@, b, from as int) == Some(i as int) && from <= i < s@.len(),
            None => find_byte(s@, b, from as int) == None::<int>,
        },
{
    let mut i = from;
    while i < s.len() && s[i] != b
        invariant
            from <= i <= s@.len(),
            find_byte(s@, b, from as int) == find_byte(s@, b, i as int),
        decreases s@.len() - i,
    {
        i += 1;
    }
    if i < s.len() {
        Some(i)
    } else {
        None
    }
}

/// The bytes of `a` followed by the bytes of `b`, as a fresh vector.
pub fn concat_bytes(a: &[u8], b: &[u8]) -> (r: Vec<u8>)
    ensures
        r@ == a@ + b@,
{
    let mut r = vstd::slice::slice_to_vec(a);
    let mut i: usize = 0;
    while i < b.len()
        invariant
            0 <= i <= b@.len(),
            r@ =~= a@ + b@.subrange(0, i as int),
        decreases b@.len() - i,
    {
        r.push(b[i]);
        assert(a@ + b@.subrange(0, i + 1) =~= (a@ + b@.subrange(0, i as int)).push(b@[i as int]));
        i += 1;
    }
    assert(b@.subrange(0, b@.len() as int) =~= b@);
    r
}

/// Whether `n` occurs somewhere in `h`.
pub fn contains_bytes(h: &[u8], n: &[u8]) -> (r: bool)
    ensures
        r == contains_seq(h@, n@),
{
    match find_seq(h, n) {
        Some(_) => true,
        None => false,
    }
}

} // verus!
