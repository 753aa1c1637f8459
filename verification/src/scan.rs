//! Character-level scanning primitives shared by every grammar: first
//! occurrence of a delimiter, literal prefix tests, segment comparison,
//! decimal parsing and the uppercase-hex test, each with an exact
//! specification over the line's view.

use vstd::prelude::*;
use vstd::string::StrSliceExecFns;

verus! {

/// The first index of `c` in `s` within `[from, to)`, or `None`.
pub open spec fn first_in(s: Seq<char>, from: int, to: int, c: char) -> Option<int>
    decreases to - from,
{
    if from < 0 || from >= to || to > s.len() {
        None
    } else if s[from] == c {
        Some(from)
    } else {
        first_in(s, from + 1, to, c)
    }
}

/// `p` occurs in `s` starting exactly at `pos`.
pub open spec fn has_prefix(s: Seq<char>, pos: int, p: Seq<char>) -> bool {
    0 <= pos && pos + p.len() <= s.len() && s.subrange(pos, pos + p.len()) == p
}

/// `c` is a decimal digit.
pub open spec fn is_digit(c: char) -> bool {
    48 <= c as u32 <= 57
}

/// The numeric value of a digit character.
pub open spec fn digit_val(c: char) -> int {
    (c as u32) as int - 48
}

/// Every character of `s` in `[from, to)` is a decimal digit.
pub open spec fn all_digits(s: Seq<char>, from: int, to: int) -> bool {
    forall|k: int| from <= k < to ==> is_digit(#[trigger] s[k])
}

/// The value of the decimal numeral `s[from .. to]`.
pub open spec fn dec_val(s: Seq<char>, from: int, to: int) -> int
    decreases to - from,
{
    if from >= to {
        0
    } else {
        dec_val(s, from, to - 1) * 10 + digit_val(s[to - 1])
    }
}

/// What parsing `s[from .. to]` as an unsigned decimal integer bounded by
/// `max` yields: the segment must be non-empty, all digits, and its value
/// must not exceed `max`.
pub open spec fn dec_result(s: Seq<char>, from: int, to: int, max: int) -> Option<int> {
    if from < to && all_digits(s, from, to) && dec_val(s, from, to) <= max {
        Some(dec_val(s, from, to))
    } else {
        None
    }
}

/// `c` is an uppercase hexadecimal digit (the queue-id alphabet).
pub open spec fn is_uhex(c: char) -> bool {
    48 <= c as u32 <= 57 || 65 <= c as u32 <= 70
}

/// Every character of `s` in `[from, to)` is uppercase hex.
pub open spec fn all_uhex(s: Seq<char>, from: int, to: int) -> bool {
    forall|k: int| from <= k < to ==> is_uhex(#[trigger] s[k])
}

/// A decimal numeral's value is never negative.
pub proof fn lemma_dec_val_nonneg(s: Seq<char>, from: int, to: int)
    requires
        all_digits(s, from, to),
    ensures
        dec_val(s, from, to) >= 0,
    decreases to - from,
{
    if from < to {
        lemma_dec_val_nonneg(s, from, to - 1);
    }
}

/// Extending a decimal numeral to the right never decreases its value.
pub proof fn lemma_dec_val_mono(s: Seq<char>, from: int, mid: int, to: int)
    requires
        from <= mid <= to,
        all_digits(s, from, to),
    ensures
        dec_val(s, from, to) >= dec_val(s, from, mid),
    decreases to - mid,
{
    if mid < to {
        lemma_dec_val_mono(s, from, mid, to - 1);
        lemma_dec_val_nonneg(s, from, to - 1);
    }
}

/// First occurrence of `c` in `s` within `[from, to)`.
pub fn find_in(s: &str, from: usize, to: usize, c: char) -> (r: Option<usize>)
    requires
        from <= to,
        to <= s@.len(),
    ensures
        match r {
            Some(i) => from <= i < to && s@[i as int] == c && first_in(
                s@,
                from as int,
                to as int,
                c,
            ) == Some(i as int),
            None => first_in(s@, from as int, to as int, c) is None,
        },
{
    let mut i = from;
    while i < to
        invariant
            from <= i <= to,
            to <= s@.len(),
            first_in(s@, from as int, to as int, c) == first_in(s@, i as int, to as int, c),
        decreases to - i,
    {
        if s.get_char(i) == c {
            return Some(i);
        }
        i = i + 1;
    }
    None
}

/// Does `p` occur in `s` starting exactly at `pos`?
pub fn starts_with_at(s: &str, pos: usize, p: &str) -> (b: bool)
    requires
        pos <= s@.len(),
    ensures
        b == has_prefix(s@, pos as int, p@),
{
    let n = p.unicode_len();
    let total = s.unicode_len();
    if n > total - pos {
        return false;
    }
    let mut j: usize = 0;
    while j < n
        invariant
            0 <= j <= n,
            n == p@.len(),
            pos + n <= s@.len(),
            pos + n <= usize::MAX,
            forall|k: int| 0 <= k < j ==> s@[pos + k] == p@[k],
        decreases n - j,
    {
        if s.get_char(pos + j) != p.get_char(j) {
            proof {
                if has_prefix(s@, pos as int, p@) {
                    assert(s@.subrange(pos as int, pos + p@.len())[j as int] == s@[pos + j]);
                }
            }
            return false;
        }
        j = j + 1;
    }
    proof {
        assert(s@.subrange(pos as int, pos + p@.len()) =~= p@);
    }
    true
}

/// Is the segment `s[from .. to]` exactly the text `p`?
pub fn range_eq(s: &str, from: usize, to: usize, p: &str) -> (b: bool)
    requires
        from <= to,
        to <= s@.len(),
    ensures
        b == (s@.subrange(from as int, to as int) == p@),
{
    let n = p.unicode_len();
    if to - from != n {
        proof {
            assert(s@.subrange(from as int, to as int).len() != p@.len());
        }
        return false;
    }
    let mut j: usize = 0;
    while j < n
        invariant
            0 <= j <= n,
            n == p@.len(),
            to - from == n,
            to <= s@.len(),
            forall|k: int| 0 <= k < j ==> s@[from + k] == p@[k],
        decreases n - j,
    {
        if s.get_char(from + j) != p.get_char(j) {
            proof {
                if s@.subrange(from as int, to as int) == p@ {
                    assert(s@.subrange(from as int, to as int)[j as int] == s@[from + j]);
                }
            }
            return false;
        }
        j = j + 1;
    }
    proof {
        assert(s@.subrange(from as int, to as int) =~= p@);
    }
    true
}

/// Parse the segment `s[from .. to]` as an unsigned decimal integer of at
/// most `max`, exactly when the segment is a non-empty run of digits whose
/// value fits.
pub fn parse_dec(s: &str, from: usize, to: usize, max: u64) -> (r: Option<u64>)
    requires
        from <= to,
        to <= s@.len(),
    ensures
        match r {
            Some(v) => v <= max && dec_result(s@, from as int, to as int, max as int) == Some(
                v as int,
            ),
            None => dec_result(s@, from as int, to as int, max as int) is None,
        },
{
    if from == to {
        return None;
    }
    let mut val: u64 = 0;
    let mut i = from;
    while i < to
        invariant
            from <= i <= to,
            from < to,
            to <= s@.len(),
            all_digits(s@, from as int, i as int),
            val <= max,
            val as int == dec_val(s@, from as int, i as int),
        decreases to - i,
    {
        let c = s.get_char(i);
        let u = c as u32;
        if u < 48 || u > 57 {
            proof {
                assert(!is_digit(s@[i as int]));
                assert(!all_digits(s@, from as int, to as int));
            }
            return None;
        }
        let d = (u - 48) as u64;
        proof {
            assert(max / 10 * 10 + max % 10 == max) by (nonlinear_arith);
        }
        if val > max / 10 {
            proof {
                assert(val * 10 >= (max / 10 + 1) * 10) by (nonlinear_arith)
                    requires
                        val >= max / 10 + 1,
                ;
                assert(dec_val(s@, from as int, i + 1) > max);
                if all_digits(s@, from as int, to as int) {
                    lemma_dec_val_mono(s@, from as int, i + 1, to as int);
                }
            }
            return None;
        }
        let v10 = val * 10;
        proof {
            assert(val * 10 <= max / 10 * 10) by (nonlinear_arith)
                requires
                    val <= max / 10,
            ;
        }
        if d > max - v10 {
            proof {
                assert(dec_val(s@, from as int, i + 1) > max);
                if all_digits(s@, from as int, to as int) {
                    lemma_dec_val_mono(s@, from as int, i + 1, to as int);
                }
            }
            return None;
        }
        val = v10 + d;
        i = i + 1;
    }
    Some(val)
}

/// Is every character of `s[from .. to]` an uppercase hex digit?
pub fn uhex_range(s: &str, from: usize, to: usize) -> (b: bool)
    requires
        from <= to,
        to <= s@.len(),
    ensures
        b == all_uhex(s@, from as int, to as int),
{
    let mut i = from;
    while i < to
        invariant
            from <= i <= to,
            to <= s@.len(),
            all_uhex(s@, from as int, i as int),
        decreases to - i,
    {
        let u = s.get_char(i) as u32;
        if !(48 <= u && u <= 57 || 65 <= u && u <= 70) {
            proof {
                assert(!is_uhex(s@[i as int]));
                assert(!all_uhex(s@, from as int, to as int));
            }
            return false;
        }
        i = i + 1;
    }
    true
}

} // verus!
