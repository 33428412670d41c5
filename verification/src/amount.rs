//! The grammar of amount tokens accepted by the `/send` command: an optional
//! sign, then either a special word (`inf`, `infinity`, `nan`, in any letter
//! case) or a base-10 number with an optional fraction and an optional
//! exponent. This is the grammar of base-10 floating-point literals that the
//! standard library's string-to-float conversion accepts.

use vstd::prelude::*;

use crate::strutil::{find_either, lemma_find_either};

verus! {

/// Whether a character is an ASCII decimal digit.
pub open spec fn is_digit_char(c: char) -> bool {
    '0' <= c && c <= '9'
}

/// All characters of `s` are decimal digits.
pub open spec fn all_digits(s: Seq<char>) -> bool {
    forall|i: int| 0 <= i < s.len() ==> is_digit_char(#[trigger] s[i])
}

/// A mantissa: digits with at most one decimal point, and at least one digit.
/// The decimal point, if present, is the first one in the token; digits on
/// both sides may be empty, but not both.
pub open spec fn is_mantissa(m: Seq<char>) -> bool {
    let dot = find_either(m, '.', '.');
    if dot is Some && 0 <= dot->Some_0 < m.len() {
        m.len() > 1 && all_digits(m.take(dot->Some_0)) && all_digits(m.skip(dot->Some_0 + 1))
    } else {
        m.len() > 0 && all_digits(m)
    }
}

/// What may follow an exponent marker: an optional sign, then one or more
/// digits.
pub open spec fn is_exponent_tail(t: Seq<char>) -> bool {
    if t.len() > 0 && (t[0] == '+' || t[0] == '-') {
        t.len() > 1 && all_digits(t.skip(1))
    } else {
        t.len() > 0 && all_digits(t)
    }
}

/// A number: a mantissa, optionally followed by `e` or `E` and an exponent.
/// The marker, if present, is the first `e` or `E` in the token.
pub open spec fn is_number(s: Seq<char>) -> bool {
    let marker = find_either(s, 'e', 'E');
    if marker is Some && 0 <= marker->Some_0 < s.len() {
        is_mantissa(s.take(marker->Some_0)) && is_exponent_tail(s.skip(marker->Some_0 + 1))
    } else {
        is_mantissa(s)
    }
}

/// The word `inf` in any letter case.
pub open spec fn is_inf_word(s: Seq<char>) -> bool {
    s.len() == 3 && (s[0] == 'i' || s[0] == 'I') && (s[1] == 'n' || s[1] == 'N') && (s[2] == 'f'
        || s[2] == 'F')
}

/// The word `infinity` in any letter case.
pub open spec fn is_infinity_word(s: Seq<char>) -> bool {
    s.len() == 8 && (s[0] == 'i' || s[0] == 'I') && (s[1] == 'n' || s[1] == 'N') && (s[2] == 'f'
        || s[2] == 'F') && (s[3] == 'i' || s[3] == 'I') && (s[4] == 'n' || s[4] == 'N') && (s[5]
        == 'i' || s[5] == 'I') && (s[6] == 't' || s[6] == 'T') && (s[7] == 'y' || s[7] == 'Y')
}

/// The word `nan` in any letter case.
pub open spec fn is_nan_word(s: Seq<char>) -> bool {
    s.len() == 3 && (s[0] == 'n' || s[0] == 'N') && (s[1] == 'a' || s[1] == 'A') && (s[2] == 'n'
        || s[2] == 'N')
}

/// A token without its sign: a special word or a number.
pub open spec fn is_unsigned_amount(s: Seq<char>) -> bool {
    is_inf_word(s) || is_infinity_word(s) || is_nan_word(s) || is_number(s)
}

/// A well-formed amount token: an optional sign, then a special word or a
/// number.
pub open spec fn is_amount_token(s: Seq<char>) -> bool {
    if s.len() > 0 && (s[0] == '+' || s[0] == '-') {
        is_unsigned_amount(s.skip(1))
    } else {
        is_unsigned_amount(s)
    }
}

/// All characters of `s` in positions `from..to` are digits.
fn digits_in_range(s: &str, from: usize, to: usize) -> (r: bool)
    requires
        from <= to <= s@.len(),
    ensures
        r == all_digits(s@.subrange(from as int, to as int)),
{
    let mut i = from;
    while i < to
        invariant
            from <= i <= to <= s@.len(),
            forall|j: int| from <= j < i ==> is_digit_char(#[trigger] s@[j]),
        decreases to - i,
    {
        let c = s.get_char(i);
        if !('0' <= c && c <= '9') {
            proof {
                assert(s@.subrange(from as int, to as int)[i - from] == s@[i as int]);
            }
            return false;
        }
        i += 1;
    }
    proof {
        assert forall|j: int| 0 <= j < to - from implies is_digit_char(
            #[trigger] s@.subrange(from as int, to as int)[j],
        ) by {
            assert(s@.subrange(from as int, to as int)[j] == s@[from + j]);
        }
    }
    true
}

/// Index of the first occurrence of `a` or `b` in `s` at or after `from`,
/// as `find_either` names it on the suffix.
fn scan_either(s: &str, from: usize, a: char, b: char) -> (r: Option<usize>)
    requires
        from <= s@.len(),
    ensures
        match r {
            Some(i) => from <= i < s@.len() && find_either(s@.skip(from as int), a, b) == Some(
                i - from,
            ),
            None => find_either(s@.skip(from as int), a, b) is None,
        },
{
    let n = s.unicode_len();
    let mut i = from;
    while i < n
        invariant
            from <= i <= n,
            n == s@.len(),
            forall|j: int| from <= j < i ==> s@[j] != a && s@[j] != b,
        decreases n - i,
    {
        let c = s.get_char(i);
        if c == a || c == b {
            proof {
                let t = s@.skip(from as int);
                assert(forall|j: int| 0 <= j < t.len() ==> t[j] == s@[from + j]);
                crate::strutil::lemma_find_either_at(t, a, b, i - from);
            }
            return Some(i);
        }
        i += 1;
    }
    proof {
        let t = s@.skip(from as int);
        assert(forall|j: int| 0 <= j < t.len() ==> t[j] == s@[from + j]);
        lemma_find_either(t, a, b);
        if find_either(t, a, b) is Some {
            let k = find_either(t, a, b)->Some_0;
            assert(s@[from + k] != a && s@[from + k] != b);
        }
    }
    None
}

/// Whether `s` in positions `from..to` forms a mantissa.
fn mantissa_in_range(s: &str, from: usize, to: usize) -> (r: bool)
    requires
        from <= to <= s@.len(),
    ensures
        r == is_mantissa(s@.subrange(from as int, to as int)),
{
    let ghost m = s@.subrange(from as int, to as int);
    let dot = match scan_either(s, from, '.', '.') {
        Some(i) => if i < to {
            Some(i)
        } else {
            None
        },
        None => None,
    };
    proof {
        let t = s@.skip(from as int);
        assert(forall|j: int| 0 <= j < m.len() ==> m[j] == t[j]);
        match dot {
            Some(i) => {
                // the first dot of the suffix lies inside the range, so it is
                // the first dot of the range
                lemma_find_either(t, '.', '.');
                crate::strutil::lemma_find_either_at(m, '.', '.', i - from);
            },
            None => {
                // no dot inside the range: a dot in the range would be a dot
                // of the suffix before its first one
                lemma_find_either(m, '.', '.');
                lemma_find_either(t, '.', '.');
                if find_either(m, '.', '.') is Some {
                    let k = find_either(m, '.', '.')->Some_0;
                    assert(t[k] == '.');
                    assert(false);
                }
            },
        }
    }
    match dot {
        Some(i) => {
            let digits_before = digits_in_range(s, from, i);
            let digits_after = digits_in_range(s, i + 1, to);
            proof {
                assert(m.take(i - from) =~= s@.subrange(from as int, i as int));
                assert(m.skip(i - from + 1) =~= s@.subrange(i + 1, to as int));
            }
            to - from > 1 && digits_before && digits_after
        },
        None => {
            let digits = digits_in_range(s, from, to);
            to > from && digits
        },
    }
}

/// Whether `s` in positions `from..to` forms an exponent tail.
fn exponent_tail_in_range(s: &str, from: usize, to: usize) -> (r: bool)
    requires
        from <= to <= s@.len(),
    ensures
        r == is_exponent_tail(s@.subrange(from as int, to as int)),
{
    let ghost t = s@.subrange(from as int, to as int);
    if from < to {
        let c = s.get_char(from);
        if c == '+' || c == '-' {
            let digits = digits_in_range(s, from + 1, to);
            proof {
                assert(t[0] == s@[from as int]);
                assert(t.skip(1) =~= s@.subrange(from + 1, to as int));
            }
            to - from > 1 && digits
        } else {
            let digits = digits_in_range(s, from, to);
            proof {
                assert(t[0] == s@[from as int]);
            }
            digits
        }
    } else {
        false
    }
}

/// Whether `s` in positions `from..to` forms a number.
fn number_in_range(s: &str, from: usize, to: usize) -> (r: bool)
    requires
        from <= to <= s@.len(),
    ensures
        r == is_number(s@.subrange(from as int, to as int)),
{
    let ghost m = s@.subrange(from as int, to as int);
    let marker = match scan_either(s, from, 'e', 'E') {
        Some(i) => if i < to {
            Some(i)
        } else {
            None
        },
        None => None,
    };
    proof {
        let t = s@.skip(from as int);
        assert(forall|j: int| 0 <= j < m.len() ==> m[j] == t[j]);
        match marker {
            Some(i) => {
                lemma_find_either(t, 'e', 'E');
                crate::strutil::lemma_find_either_at(m, 'e', 'E', i - from);
            },
            None => {
                lemma_find_either(m, 'e', 'E');
                lemma_find_either(t, 'e', 'E');
                if find_either(m, 'e', 'E') is Some {
                    let k = find_either(m, 'e', 'E')->Some_0;
                    assert(t[k] == 'e' || t[k] == 'E');
                    assert(false);
                }
            },
        }
    }
    match marker {
        Some(i) => {
            let mant = mantissa_in_range(s, from, i);
            let tail = exponent_tail_in_range(s, i + 1, to);
            proof {
                assert(m.take(i - from) =~= s@.subrange(from as int, i as int));
                assert(m.skip(i - from + 1) =~= s@.subrange(i + 1, to as int));
            }
            mant && tail
        },
        None => mantissa_in_range(s, from, to),
    }
}

/// Whether the whole of `s` is a well-formed amount token.
pub fn amount_token_valid(s: &str) -> (r: bool)
    ensures
        r == is_amount_token(s@),
{
    let n = s.unicode_len();
    let mut from: usize = 0;
    if n > 0 {
        let c = s.get_char(0);
        if c == '+' || c == '-' {
            from = 1;
        }
    }
    let ghost u = if from == 1 {
        s@.skip(1)
    } else {
        s@
    };
    proof {
        assert(u =~= s@.subrange(from as int, n as int));
    }
    if str_eq_in_range_ci3(s, from, n, 'i', 'n', 'f') || str_eq_in_range_ci_infinity(s, from, n)
        || str_eq_in_range_ci3(s, from, n, 'n', 'a', 'n') {
        return true;
    }
    number_in_range(s, from, n)
}

/// Whether `s` in positions `from..to` is the three-letter word `abc`,
/// ignoring ASCII letter case.
fn str_eq_in_range_ci3(s: &str, from: usize, to: usize, a: char, b: char, c: char) -> (r: bool)
    requires
        from <= to <= s@.len(),
        'a' <= a <= 'z',
        'a' <= b <= 'z',
        'a' <= c <= 'z',
    ensures
        r == (s@.subrange(from as int, to as int).len() == 3 && {
            let t = s@.subrange(from as int, to as int);
            (t[0] == a || t[0] == upper(a)) && (t[1] == b || t[1] == upper(b)) && (t[2] == c
                || t[2] == upper(c))
        }),
{
    if to - from != 3 {
        return false;
    }
    let ghost t = s@.subrange(from as int, to as int);
    proof {
        assert(t[0] == s@[from as int]);
        assert(t[1] == s@[from + 1]);
        assert(t[2] == s@[from + 2]);
    }
    let c0 = s.get_char(from);
    let c1 = s.get_char(from + 1);
    let c2 = s.get_char(from + 2);
    (c0 == a || c0 == upper_char(a)) && (c1 == b || c1 == upper_char(b)) && (c2 == c || c2
        == upper_char(c))
}

/// The upper-case form of a lower-case ASCII letter.
pub open spec fn upper(c: char) -> char {
    if c == 'a' { 'A' } else if c == 'b' { 'B' } else if c == 'c' { 'C' } else if c == 'd' { 'D' }
    else if c == 'e' { 'E' } else if c == 'f' { 'F' } else if c == 'g' { 'G' }
    else if c == 'h' { 'H' } else if c == 'i' { 'I' } else if c == 'j' { 'J' }
    else if c == 'k' { 'K' } else if c == 'l' { 'L' } else if c == 'm' { 'M' }
    else if c == 'n' { 'N' } else if c == 'o' { 'O' } else if c == 'p' { 'P' }
    else if c == 'q' { 'Q' } else if c == 'r' { 'R' } else if c == 's' { 'S' }
    else if c == 't' { 'T' } else if c == 'u' { 'U' } else if c == 'v' { 'V' }
    else if c == 'w' { 'W' } else if c == 'x' { 'X' } else if c == 'y' { 'Y' }
    else if c == 'z' { 'Z' } else { c }
}

/// Executable counterpart of `upper`.
fn upper_char(c: char) -> (r: char)
    ensures
        r == upper(c),
{
    if c == 'a' { 'A' } else if c == 'b' { 'B' } else if c == 'c' { 'C' } else if c == 'd' { 'D' }
    else if c == 'e' { 'E' } else if c == 'f' { 'F' } else if c == 'g' { 'G' }
    else if c == 'h' { 'H' } else if c == 'i' { 'I' } else if c == 'j' { 'J' }
    else if c == 'k' { 'K' } else if c == 'l' { 'L' } else if c == 'm' { 'M' }
    else if c == 'n' { 'N' } else if c == 'o' { 'O' } else if c == 'p' { 'P' }
    else if c == 'q' { 'Q' } else if c == 'r' { 'R' } else if c == 's' { 'S' }
    else if c == 't' { 'T' } else if c == 'u' { 'U' } else if c == 'v' { 'V' }
    else if c == 'w' { 'W' } else if c == 'x' { 'X' } else if c == 'y' { 'Y' }
    else if c == 'z' { 'Z' } else { c }
}

/// Whether `s` in positions `from..to` is the word `infinity`, ignoring
/// ASCII letter case.
fn str_eq_in_range_ci_infinity(s: &str, from: usize, to: usize) -> (r: bool)
    requires
        from <= to <= s@.len(),
    ensures
        r == is_infinity_word(s@.subrange(from as int, to as int)),
{
    if to - from != 8 {
        return false;
    }
    let ghost t = s@.subrange(from as int, to as int);
    proof {
        assert forall|j: int| 0 <= j < 8 implies #[trigger] t[j] == s@[from + j] by {}
    }
    let c0 = s.get_char(from);
    let c1 = s.get_char(from + 1);
    let c2 = s.get_char(from + 2);
    let c3 = s.get_char(from + 3);
    let c4 = s.get_char(from + 4);
    let c5 = s.get_char(from + 5);
    let c6 = s.get_char(from + 6);
    let c7 = s.get_char(from + 7);
    (c0 == 'i' || c0 == 'I') && (c1 == 'n' || c1 == 'N') && (c2 == 'f' || c2 == 'F') && (c3 == 'i'
        || c3 == 'I') && (c4 == 'n' || c4 == 'N') && (c5 == 'i' || c5 == 'I') && (c6 == 't' || c6
        == 'T') && (c7 == 'y' || c7 == 'Y')
}

} // verus!
