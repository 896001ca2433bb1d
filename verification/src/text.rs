//! Small verified text utilities: decimal digit runs, substring search,
//! character search and space trimming over string views. The segment
//! watcher and the encoder's device-listing scan are built on these.

use vstd::prelude::*;

verus! {

/// A decimal digit character.
pub open spec fn is_digit_char(c: char) -> bool {
    '0' <= c && c <= '9'
}

/// The value of one decimal digit character.
pub open spec fn digit_val(c: char) -> int {
    (c as int) - 48
}

/// Every character of the sequence is a decimal digit.
pub open spec fn all_digits(s: Seq<char>) -> bool {
    forall|i: int| 0 <= i < s.len() ==> is_digit_char(#[trigger] s[i])
}

/// The value of a sequence of decimal digits, most significant first.
pub open spec fn digits_val(s: Seq<char>) -> int
    decreases s.len(),
{
    if s.len() == 0 {
        0
    } else {
        digits_val(s.drop_last()) * 10 + digit_val(s.last())
    }
}

/// The value of a non-empty all-digit sequence that fits a u32; nothing
/// for any other sequence.
pub open spec fn spec_parse_digits(s: Seq<char>) -> Option<u32> {
    if s.len() > 0 && all_digits(s) && digits_val(s) <= u32::MAX {
        Some(digits_val(s) as u32)
    } else {
        None
    }
}

/// The first index at or after `from` holding `c`, and the length of the
/// sequence when there is none.
pub open spec fn spec_find(s: Seq<char>, c: char, from: int) -> int
    decreases s.len() - from,
{
    if from < 0 || from >= s.len() {
        s.len() as int
    } else if s[from] == c {
        from
    } else {
        spec_find(s, c, from + 1)
    }
}

/// The first index in `[from, to)` holding something other than a space,
/// and `to` when there is none.
pub open spec fn spec_skip_spaces_fwd(s: Seq<char>, from: int, to: int) -> int
    decreases to - from,
{
    if from < to && 0 <= from < s.len() && s[from] == ' ' {
        spec_skip_spaces_fwd(s, from + 1, to)
    } else {
        from
    }
}

/// One past the last index in `[from, to)` holding something other than a
/// space, and `from` when there is none.
pub open spec fn spec_skip_spaces_back(s: Seq<char>, from: int, to: int) -> int
    decreases to - from,
{
    if to > from && 0 <= to - 1 < s.len() && s[to - 1] == ' ' {
        spec_skip_spaces_back(s, from, to - 1)
    } else {
        to
    }
}

/// The needle occurs in the haystack as a contiguous run.
pub open spec fn spec_str_contains(hay: Seq<char>, needle: Seq<char>) -> bool {
    exists|i: int|
        0 <= i <= hay.len() - needle.len() && #[trigger] hay.subrange(i, i + needle.len())
            == needle
}

/// Parses the decimal digits of `s` between `lo` and `hi`: their value
/// when the run is non-empty, all digits, and within u32 range.
pub fn parse_digits_range(s: &str, lo: usize, hi: usize) -> (r: Option<u32>)
    requires
        lo <= hi <= s@.len(),
    ensures
        r == spec_parse_digits(s@.subrange(lo as int, hi as int)),
{
    let ghost run = s@.subrange(lo as int, hi as int);
    if lo == hi {
        return None;
    }
    let mut value: u64 = 0;
    let mut too_big: bool = false;
    let mut i: usize = lo;
    while i < hi
        invariant
            lo <= i <= hi <= s@.len(),
            run == s@.subrange(lo as int, hi as int),
            all_digits(s@.subrange(lo as int, i as int)),
            !too_big ==> value == digits_val(s@.subrange(lo as int, i as int)) && value
                <= u32::MAX,
            too_big ==> digits_val(s@.subrange(lo as int, i as int)) > u32::MAX,
        decreases hi - i,
    {
        let c = s.get_char(i);
        if c < '0' || c > '9' {
            proof {
                assert(!is_digit_char(run[i - lo]));
            }
            return None;
        }
        let d: u64 = (c as u32 as u64) - 48;
        proof {
            let prev = s@.subrange(lo as int, i as int);
            let next = s@.subrange(lo as int, i + 1 as int);
            assert(next.drop_last() =~= prev);
            assert(next.last() == s@[i as int]);
            assert(digits_val(next) == digits_val(prev) * 10 + digit_val(s@[i as int]));
        }
        if too_big {
            proof {
                let prev = s@.subrange(lo as int, i as int);
                assert(digits_val(prev) * 10 + digit_val(s@[i as int]) > u32::MAX) by {
                    assert(digits_val(prev) > u32::MAX);
                    assert(digit_val(s@[i as int]) >= 0);
                    assert(digits_val(prev) * 10 >= digits_val(prev) * 1) by (nonlinear_arith)
                        requires
                            digits_val(prev) >= 0,
                    ;
                };
            }
        } else {
            let next_value = value * 10 + d;
            if next_value > 0xFFFF_FFFF {
                too_big = true;
            } else {
                value = next_value;
            }
        }
        i = i + 1;
    }
    proof {
        assert(s@.subrange(lo as int, i as int) =~= run);
    }
    if too_big {
        None
    } else {
        Some(value as u32)
    }
}

/// The first position at or after `from` holding `c`, and the string's
/// length when there is none.
pub fn find_char_from(s: &str, c: char, from: usize) -> (r: usize)
    requires
        from <= s@.len(),
    ensures
        r as int == spec_find(s@, c, from as int),
        from <= r <= s@.len(),
{
    let len = s.unicode_len();
    let mut i: usize = from;
    while i < len
        invariant
            from <= i <= len,
            len == s@.len(),
            spec_find(s@, c, from as int) == spec_find(s@, c, i as int),
        decreases len - i,
    {
        if s.get_char(i) == c {
            return i;
        }
        i = i + 1;
        proof {
            assert(spec_find(s@, c, i - 1) == spec_find(s@, c, i as int));
        }
    }
    len
}

/// The first position in `[from, to)` holding something other than a
/// space, and `to` when there is none.
pub fn skip_spaces_fwd(s: &str, from: usize, to: usize) -> (r: usize)
    requires
        from <= to <= s@.len(),
    ensures
        r as int == spec_skip_spaces_fwd(s@, from as int, to as int),
        from <= r <= to,
{
    let mut i: usize = from;
    while i < to
        invariant
            from <= i <= to <= s@.len(),
            spec_skip_spaces_fwd(s@, from as int, to as int) == spec_skip_spaces_fwd(
                s@,
                i as int,
                to as int,
            ),
        decreases to - i,
    {
        if s.get_char(i) != ' ' {
            return i;
        }
        i = i + 1;
        proof {
            assert(spec_skip_spaces_fwd(s@, i - 1, to as int) == spec_skip_spaces_fwd(
                s@,
                i as int,
                to as int,
            ));
        }
    }
    to
}

/// One past the last position in `[from, to)` holding something other
/// than a space, and `from` when there is none.
pub fn skip_spaces_back(s: &str, from: usize, to: usize) -> (r: usize)
    requires
        from <= to <= s@.len(),
    ensures
        r as int == spec_skip_spaces_back(s@, from as int, to as int),
        from <= r <= to,
{
    let mut i: usize = to;
    while i > from
        invariant
            from <= i <= to <= s@.len(),
            spec_skip_spaces_back(s@, from as int, to as int) == spec_skip_spaces_back(
                s@,
                from as int,
                i as int,
            ),
        decreases i,
    {
        if s.get_char(i - 1) != ' ' {
            return i;
        }
        i = i - 1;
        proof {
            assert(spec_skip_spaces_back(s@, from as int, i + 1) == spec_skip_spaces_back(
                s@,
                from as int,
                i as int,
            ));
        }
    }
    from
}

/// Whether the needle matches the haystack at position `i`.
fn matches_at(hay: &str, i: usize, needle: &str) -> (r: bool)
    requires
        i + needle@.len() <= hay@.len(),
        hay@.len() <= usize::MAX,
    ensures
        r == (hay@.subrange(i as int, i + needle@.len()) == needle@),
{
    let n = needle.unicode_len();
    let mut j: usize = 0;
    while j < n
        invariant
            j <= n,
            n == needle@.len(),
            i + n <= hay@.len(),
            hay@.len() <= usize::MAX,
            forall|k: int| 0 <= k < j ==> hay@[i + k] == needle@[k],
        decreases n - j,
    {
        if hay.get_char(i + j) != needle.get_char(j) {
            proof {
                assert(hay@.subrange(i as int, i + needle@.len())[j as int] == hay@[i + j]);
            }
            return false;
        }
        j = j + 1;
    }
    proof {
        assert(hay@.subrange(i as int, i + needle@.len()) =~= needle@);
    }
    true
}

/// Whether the needle occurs anywhere in the haystack.
pub fn str_contains(hay: &str, needle: &str) -> (r: bool)
    ensures
        r == spec_str_contains(hay@, needle@),
{
    let hl = hay.unicode_len();
    let nl = needle.unicode_len();
    if nl > hl {
        return false;
    }
    if nl == 0 {
        proof {
            assert(hay@.subrange(0, 0 + needle@.len() as int) =~= needle@);
        }
        return true;
    }
    let mut i: usize = 0;
    while i <= hl - nl
        invariant
            1 <= nl <= hl,
            hl == hay@.len(),
            nl == needle@.len(),
            i <= hl - nl + 1,
            forall|k: int|
                0 <= k < i ==> #[trigger] hay@.subrange(k, k + needle@.len()) != needle@,
        decreases hl - nl - i + 1,
    {
        if matches_at(hay, i, needle) {
            return true;
        }
        i = i + 1;
    }
    false
}

} // verus!
