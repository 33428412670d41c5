//! Small verified utilities over strings and character sequences: equality,
//! first occurrence of a separator, and splitting on a separator character.
//! The command tokenizer and the wallet-output scanner are built on these.

use vstd::prelude::*;

verus! {

/// Index of the first character of `s` equal to `a` or to `b`, if any.
pub open spec fn find_either(s: Seq<char>, a: char, b: char) -> Option<int>
    decreases s.len(),
{
    if s.len() == 0 {
        None
    } else if s[0] == a || s[0] == b {
        Some(0int)
    } else {
        match find_either(s.skip(1), a, b) {
            Some(i) => Some(i + 1),
            None => None,
        }
    }
}

/// Index of the first character of `s` equal to `c`, if any.
pub open spec fn find_char(s: Seq<char>, c: char) -> Option<int> {
    find_either(s, c, c)
}

/// `find_either` names the least index holding `a` or `b`, and `None` means
/// neither occurs.
pub proof fn lemma_find_either(s: Seq<char>, a: char, b: char)
    ensures
        match find_either(s, a, b) {
            Some(i) => 0 <= i < s.len() && (s[i] == a || s[i] == b) && (forall|j: int|
                0 <= j < i ==> s[j] != a && s[j] != b),
            None => forall|j: int| 0 <= j < s.len() ==> s[j] != a && s[j] != b,
        },
    decreases s.len(),
{
    if s.len() == 0 {
    } else if s[0] == a || s[0] == b {
    } else {
        lemma_find_either(s.skip(1), a, b);
        match find_either(s.skip(1), a, b) {
            Some(i) => {
                assert(s.skip(1)[i] == s[i + 1]);
                assert forall|j: int| 0 <= j < i + 1 implies s[j] != a && s[j] != b by {
                    if j > 0 {
                        assert(s.skip(1)[j - 1] == s[j]);
                    }
                }
            },
            None => {
                assert forall|j: int| 0 <= j < s.len() implies s[j] != a && s[j] != b by {
                    if j > 0 {
                        assert(s.skip(1)[j - 1] == s[j]);
                    }
                }
            },
        }
    }
}

/// If `k` is the least index of `s` holding `a` or `b`, then `find_either`
/// returns exactly `k`.
pub proof fn lemma_find_either_at(s: Seq<char>, a: char, b: char, k: int)
    requires
        0 <= k < s.len(),
        s[k] == a || s[k] == b,
        forall|j: int| 0 <= j < k ==> s[j] != a && s[j] != b,
    ensures
        find_either(s, a, b) == Some(k),
{
    lemma_find_either(s, a, b);
    match find_either(s, a, b) {
        Some(i) => {
            if i < k {
                assert(s[i] != a && s[i] != b);
            } else if k < i {
                assert(s[k] != a && s[k] != b);
            }
        },
        None => {
            assert(s[k] != a && s[k] != b);
        },
    }
}

/// The pieces of `s` between occurrences of the separator `c`, in order.
/// An `s` without separators yields the one-element sequence of `s` itself,
/// so the result is never empty.
pub open spec fn split_char(s: Seq<char>, c: char) -> Seq<Seq<char>>
    decreases s.len(),
{
    let found = find_char(s, c);
    if found is Some && 0 <= found->Some_0 < s.len() {
        seq![s.take(found->Some_0)] + split_char(s.skip(found->Some_0 + 1), c)
    } else {
        seq![s]
    }
}

/// A sequence without the separator splits into itself alone.
pub proof fn lemma_split_char_whole(s: Seq<char>, c: char)
    requires
        forall|j: int| 0 <= j < s.len() ==> s[j] != c,
    ensures
        split_char(s, c) == seq![s],
{
    lemma_find_either(s, c, c);
    if find_char(s, c) is Some {
        let i = find_char(s, c)->Some_0;
        assert(s[i] != c);
    }
}

/// Splitting at the first separator: the piece before it, then the split of
/// what follows it.
pub proof fn lemma_split_char_step(s: Seq<char>, c: char, k: int)
    requires
        0 <= k < s.len(),
        s[k] == c,
        forall|j: int| 0 <= j < k ==> s[j] != c,
    ensures
        split_char(s, c) == seq![s.take(k)] + split_char(s.skip(k + 1), c),
{
    lemma_find_either_at(s, c, c, k);
}

/// Every split has at least one piece.
pub proof fn lemma_split_char_nonempty(s: Seq<char>, c: char)
    ensures
        split_char(s, c).len() >= 1,
{
}

/// The views of a sequence of borrowed strings.
pub open spec fn str_views(ts: Seq<&str>) -> Seq<Seq<char>> {
    Seq::new(ts.len(), |i: int| ts[i]@)
}

/// Character-for-character equality of two strings.
pub fn str_eq(a: &str, b: &str) -> (r: bool)
    ensures
        r == (a@ == b@),
{
    let n = a.unicode_len();
    if n != b.unicode_len() {
        return false;
    }
    let mut i: usize = 0;
    while i < n
        invariant
            n == a@.len(),
            n == b@.len(),
            0 <= i <= n,
            forall|j: int| 0 <= j < i ==> a@[j] == b@[j],
        decreases n - i,
    {
        if a.get_char(i) != b.get_char(i) {
            return false;
        }
        i += 1;
    }
    proof {
        assert(a@ =~= b@);
    }
    true
}

/// Splits `s` on each occurrence of `c`, as `split_char` describes.
pub fn split_str<'a>(s: &'a str, c: char) -> (r: Vec<&'a str>)
    ensures
        str_views(r@) == split_char(s@, c),
        r@.len() >= 1,
{
    let n = s.unicode_len();
    let mut r: Vec<&'a str> = Vec::new();
    let mut start: usize = 0;
    let mut i: usize = 0;
    proof {
        assert(s@.skip(0) =~= s@);
        assert(str_views(r@) + split_char(s@.skip(0), c) =~~= split_char(s@, c));
    }
    while i < n
        invariant
            n == s@.len(),
            0 <= start <= i <= n,
            forall|j: int| start <= j < i ==> s@[j] != c,
            split_char(s@, c) =~~= str_views(r@) + split_char(s@.skip(start as int), c),
        decreases n - i,
    {
        if s.get_char(i) == c {
            let tok = s.substring_char(start, i);
            proof {
                let t = s@.skip(start as int);
                assert(forall|j: int| 0 <= j < t.len() ==> t[j] == s@[start + j]);
                lemma_split_char_step(t, c, i - start);
                assert(t.take(i - start) =~= tok@);
                assert(t.skip(i - start + 1) =~= s@.skip(i + 1));
                assert(str_views(r@.push(tok)) =~~= str_views(r@) + seq![tok@]);
            }
            r.push(tok);
            start = i + 1;
        }
        i += 1;
    }
    let tok = s.substring_char(start, n);
    proof {
        let t = s@.skip(start as int);
        assert(forall|j: int| 0 <= j < t.len() ==> t[j] == s@[start + j]);
        lemma_split_char_whole(t, c);
        assert(t =~= tok@);
        assert(str_views(r@.push(tok)) =~~= str_views(r@) + seq![tok@]);
    }
    r.push(tok);
    proof {
        assert(str_views(r@) =~~= split_char(s@, c));
    }
    r
}

} // verus!
