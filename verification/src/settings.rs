//! The saved data-directory preference.
//!
//! The surrounding application reads the settings file — a JSON object kept
//! by an external collaborator at a fixed per-platform path — and hands the
//! raw bytes here. Only one key matters, `dataDirectory`, and every failure
//! degrades the same way: a missing file, content in which the key cannot
//! be found the plain way below, or a value using escape sequences all mean
//! "no saved preference", never an error.
//!
//! The reader is deliberately simple: it takes the first occurrence of the
//! quoted key, expects a colon and a quoted value after optional
//! whitespace, and reads the value up to the next quote. A value containing
//! a backslash is treated as no preference rather than half-decoded.

use vstd::prelude::*;

use crate::scan::{find_byte, find_byte_from, occurs_at};

verus! {

/// `"dataDirectory"`, quotes included.
pub open spec fn key_pattern() -> Seq<u8> {
    seq![
        34u8, 100u8, 97u8, 116u8, 97u8, 68u8, 105u8, 114u8, 101u8, 99u8, 116u8, 111u8,
        114u8, 121u8, 34u8,
    ]
}

/// JSON insignificant whitespace: space, tab, line feed, carriage return.
pub open spec fn is_ws(b: u8) -> bool {
    b == 32 || b == 9 || b == 10 || b == 13
}

/// The first index at or after `from` where `n` occurs in `h`.
pub open spec fn find_index(h: Seq<u8>, n: Seq<u8>, from: int) -> Option<int>
    decreases h.len() - from
        when 0 <= from

{
    if from < 0 || from + n.len() > h.len() {
        None
    } else if occurs_at(h, n, from) {
        Some(from)
    } else {
        find_index(h, n, from + 1)
    }
}

/// The first index at or after `from` that holds a byte other than
/// whitespace, or the length of `s` if only whitespace remains.
pub open spec fn skip_ws(s: Seq<u8>, i: int) -> int
    decreases s.len() - i
        when 0 <= i

{
    if 0 <= i < s.len() && is_ws(s[i]) {
        skip_ws(s, i + 1)
    } else {
        i
    }
}

/// The saved preference in settings content `s`, if one can be read: the
/// bytes of the first plainly quoted string value following the first
/// occurrence of the quoted key `dataDirectory` and a colon. Anything else
/// — no key, no colon, no quoted value, an unterminated value, a value
/// holding a backslash — is no preference.
pub open spec fn spec_data_directory(s: Seq<u8>) -> Option<Seq<u8>> {
    match find_index(s, key_pattern(), 0) {
        None => None,
        Some(k) => {
            let i = skip_ws(s, k + key_pattern().len());
            if i < s.len() && s[i] == 58 {
                let j = skip_ws(s, i + 1);
                if j < s.len() && s[j] == 34 {
                    match find_byte(s, 34, j + 1) {
                        None => None,
                        Some(e) => if exists|t: int| j + 1 <= t < e && s[t] == 92 {
                            None
                        } else {
                            Some(s.subrange(j + 1, e))
                        },
                    }
                } else {
                    None
                }
            } else {
                None
            }
        },
    }
}

/// An occurrence with none before it is what `find_index` returns.
proof fn lemma_find_index_first(h: Seq<u8>, n: Seq<u8>, from: int, i: int)
    requires
        0 <= from <= i,
        occurs_at(h, n, i),
        forall|j: int| from <= j < i ==> !occurs_at(h, n, j),
    ensures
        find_index(h, n, from) == Some(i),
    decreases i - from,
{
    if from < i {
        lemma_find_index_first(h, n, from + 1, i);
    }
}

/// No occurrence at or after `from` means `find_index` finds nothing.
proof fn lemma_find_index_none(h: Seq<u8>, n: Seq<u8>, from: int)
    requires
        0 <= from,
        forall|j: int| from <= j ==> !occurs_at(h, n, j),
    ensures
        find_index(h, n, from) == None::<int>,
    decreases h.len() - from,
{
    if from + n.len() <= h.len() {
        lemma_find_index_none(h, n, from + 1);
    }
}

/// The bytes of the quoted key `"dataDirectory"`.
fn key_pattern_bytes() -> (r: Vec<u8>)
    ensures
        r@ == key_pattern(),
{
    let mut v: Vec<u8> = Vec::new();
    v.push(34);
    v.push(100);
    v.push(97);
    v.push(116);
    v.push(97);
    v.push(68);
    v.push(105);
    v.push(114);
    v.push(101);
    v.push(99);
    v.push(116);
    v.push(111);
    v.push(114);
    v.push(121);
    v.push(34);
    proof {
        assert(v@ =~= key_pattern());
    }
    v
}

/// Step past whitespace, starting at `from`.
fn skip_ws_from(s: &[u8], from: usize) -> (r: usize)
    requires
        from <= s@.len(),
    ensures
        r == skip_ws(s@, from as int),
        from <= r <= s@.len(),
{
    let mut i = from;
    while i < s.len() && (s[i] == 32 || s[i] == 9 || s[i] == 10 || s[i] == 13)
        invariant
            from <= i <= s@.len(),
            skip_ws(s@, from as int) == skip_ws(s@, i as int),
        decreases s@.len() - i,
    {
        i += 1;
    }
    i
}

/// Read the saved data-directory preference out of the settings content.
///
/// Every way the content can fail to yield a value returns `None`; nothing
/// here is an error.
#[verifier::loop_isolation(false)]
pub fn read_data_directory(content: &[u8]) -> (r: Option<Vec<u8>>)
    ensures
        match r {
            Some(v) => spec_data_directory(content@) == Some(v@),
            None => spec_data_directory(content@) == None::<Seq<u8>>,
        },
{
    let pattern = key_pattern_bytes();
    let k = match crate::scan::find_seq(content, pattern.as_slice()) {
        Some(k) => {
            proof {
                lemma_find_index_first(content@, key_pattern(), 0, k as int);
            }
            k
        },
        None => {
            proof {
                lemma_find_index_none(content@, key_pattern(), 0);
            }
            return None;
        },
    };
    let clen = content.len();
    assert(k + pattern@.len() <= clen);
    let i = skip_ws_from(content, k + pattern.len());
    if !(i < content.len() && content[i] == 58) {
        return None;
    }
    let j = skip_ws_from(content, i + 1);
    if !(j < content.len() && content[j] == 34) {
        return None;
    }
    let e = match find_byte_from(content, 34, j + 1) {
        Some(e) => e,
        None => {
            return None;
        },
    };
    let mut t = j + 1;
    while t < e
        invariant
            j + 1 <= t <= e <= content@.len(),
            forall|u: int| j + 1 <= u < t ==> content@[u] != 92,
        decreases e - t,
    {
        if content[t] == 92 {
            proof {
                assert(j + 1 <= (t as int) && (t as int) < (e as int) && content@[t as int]
                    == 92);
            }
            return None;
        }
        t += 1;
    }
    let value = vstd::slice::slice_to_vec(vstd::slice::slice_subrange(content, j + 1, e));
    Some(value)
}

} // verus!
