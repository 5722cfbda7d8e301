//! Recognition of the child's port announcement line.
//!
//! The child reports its dynamically chosen listening port out of band, as a
//! single line on standard output of the exact form `PORT=<decimal-uint16>`
//! with nothing else on the line. Any other line carries no port.

use vstd::prelude::*;

verus! {

/// The fixed announcement prefix, `PORT=`.
pub open spec fn port_prefix() -> Seq<u8> {
    seq![80u8, 79u8, 82u8, 84u8, 61u8]
}

/// An ASCII decimal digit.
pub open spec fn is_digit(b: u8) -> bool {
    48 <= b <= 57
}

/// Every byte of `s` is an ASCII decimal digit.
pub open spec fn all_digits(s: Seq<u8>) -> bool {
    forall|i: int| 0 <= i < s.len() ==> is_digit(#[trigger] s[i])
}

/// The value of `s` read as a decimal numeral, most significant digit first.
pub open spec fn dec_value(s: Seq<u8>) -> int
    decreases s.len(),
{
    if s.len() == 0 {
        0
    } else {
        dec_value(s.drop_last()) * 10 + (s.last() - 48)
    }
}

/// The port announced by `line`, if any: the line must consist of the
/// `PORT=` prefix followed by one or more decimal digits whose value fits in
/// an unsigned 16-bit integer, and nothing else.
pub open spec fn spec_port_announcement(line: Seq<u8>) -> Option<u16> {
    if line.len() > 5 && line.subrange(0, 5) =~= port_prefix() && all_digits(line.skip(5))
        && 0 <= dec_value(line.skip(5)) <= u16::MAX {
        Some(dec_value(line.skip(5)) as u16)
    } else {
        None
    }
}

/// A numeral never shrinks when digits are appended: the value of a prefix
/// of a digit string is at most the value of the whole string.
proof fn lemma_dec_value_prefix_le(s: Seq<u8>, k: int)
    requires
        0 <= k <= s.len(),
        all_digits(s),
    ensures
        dec_value(s.subrange(0, k)) <= dec_value(s),
        0 <= dec_value(s.subrange(0, k)),
    decreases s.len() - k,
{
    if k == s.len() {
        assert(s.subrange(0, k) =~= s);
        lemma_dec_value_nonneg(s);
    } else {
        assert(s.subrange(0, k + 1).drop_last() =~= s.subrange(0, k));
        assert(s.subrange(0, k + 1).last() == s[k]);
        lemma_dec_value_prefix_le(s, k + 1);
        lemma_dec_value_nonneg(s.subrange(0, k));
    }
}

/// A digit string's value is never negative.
proof fn lemma_dec_value_nonneg(s: Seq<u8>)
    requires
        all_digits(s),
    ensures
        0 <= dec_value(s),
    decreases s.len(),
{
    if s.len() > 0 {
        assert(all_digits(s.drop_last())) by {
            assert(forall|i: int|
                0 <= i < s.drop_last().len() ==> #[trigger] s.drop_last()[i] == s[i]);
        }
        lemma_dec_value_nonneg(s.drop_last());
    }
}

/// Parse one stdout line as a port announcement.
///
/// Returns the announced port for a line of the exact form
/// `PORT=<decimal-uint16>`, and nothing for every other line.
pub fn parse_port_announcement(line: &[u8]) -> (r: Option<u16>)
    ensures
        r == spec_port_announcement(line@),
{
    if line.len() <= 5 {
        return None;
    }
    if line[0] != 80 || line[1] != 79 || line[2] != 82 || line[3] != 84 || line[4] != 61 {
        proof {
            assert(forall|j: int|
                0 <= j < 5 ==> line@.subrange(0, 5)[j] == line@[j]);
        }
        return None;
    }
    assert(line@.subrange(0, 5) =~= port_prefix());
    let len = line.len();
    let mut acc: u32 = 0;
    let mut i: usize = 5;
    while i < len
        invariant
            5 <= i <= len,
            len == line@.len(),
            all_digits(line@.subrange(5, i as int)),
            acc == dec_value(line@.subrange(5, i as int)),
            acc <= u16::MAX,
        decreases len - i,
    {
        let b = line[i];
        let ghost before = line@.subrange(5, i as int);
        let ghost upto = line@.subrange(5, i + 1);
        assert(upto.drop_last() =~= before);
        assert(upto.last() == line@[i as int]);
        if b < 48 || b > 57 {
            proof {
                assert(line@.skip(5)[i - 5] == line@[i as int]);
            }
            return None;
        }
        assert(all_digits(upto)) by {
            assert(forall|j: int| 0 <= j < upto.len() - 1 ==> upto[j] == before[j]);
        }
        acc = acc * 10 + (b - 48) as u32;
        if acc > u16::MAX as u32 {
            proof {
                if all_digits(line@.skip(5)) {
                    assert(upto =~= line@.skip(5).subrange(0, i + 1 - 5));
                    lemma_dec_value_prefix_le(line@.skip(5), i + 1 - 5);
                    assert(dec_value(line@.skip(5)) > u16::MAX);
                }
            }
            return None;
        }
        i += 1;
    }
    assert(line@.subrange(5, len as int) =~= line@.skip(5));
    Some(acc as u16)
}

} // verus!
