//! Character-level text helpers: locating separators, trimming surrounding
//! white space, splitting header lines at colons and tag values at commas,
//! and lowercasing.

use vstd::prelude::*;

verus! {

/// Index of the first occurrence of `c` in `s`, or `s.len()` when `c` does
/// not occur.
pub open spec fn char_pos(s: Seq<char>, c: char) -> int
    decreases s.len(),
{
    if s.len() == 0 {
        0
    } else if s[0] == c {
        0
    } else {
        1 + char_pos(s.drop_first(), c)
    }
}

/// `char_pos` finds the first occurrence: everything before it differs from
/// `c`, and the position itself holds `c` unless `c` is absent altogether.
pub proof fn lemma_char_pos(s: Seq<char>, c: char)
    ensures
        0 <= char_pos(s, c) <= s.len(),
        char_pos(s, c) < s.len() ==> s[char_pos(s, c)] == c,
        forall|j: int| 0 <= j < char_pos(s, c) ==> s[j] != c,
    decreases s.len(),
{
    if s.len() == 0 || s[0] == c {
    } else {
        lemma_char_pos(s.drop_first(), c);
        let p = char_pos(s, c);
        assert forall|j: int| 0 <= j < p implies s[j] != c by {
            if j >= 1 {
                assert(s.drop_first()[j - 1] == s[j]);
            }
        }
        if p < s.len() {
            assert(s[p] == s.drop_first()[p - 1]);
        }
    }
}

/// First index of `c` in `s`, or the character length of `s` when absent.
pub fn find_char(s: &str, c: char) -> (i: usize)
    ensures
        i as int == char_pos(s@, c),
{
    let n = s.unicode_len();
    let mut i: usize = 0;
    while i < n
        invariant
            0 <= i <= n,
            n == s@.len(),
            forall|j: int| 0 <= j < i ==> s@[j] != c,
        decreases n - i,
    {
        if s.get_char(i) == c {
            proof {
                lemma_char_pos(s@, c);
                let p = char_pos(s@, c);
                assert(s@[i as int] == c);
                if p < i {
                    assert(s@[p] == c);
                }
            }
            return i;
        }
        i += 1;
    }
    proof {
        lemma_char_pos(s@, c);
        let p = char_pos(s@, c);
        if p < s@.len() {
            assert(s@[p] == c);
        }
    }
    i
}

/// Character-for-character equality of two string slices.
pub fn str_eq(a: &str, b: &str) -> (r: bool)
    ensures
        r <==> a@ == b@,
{
    let na = a.unicode_len();
    let nb = b.unicode_len();
    if na != nb {
        return false;
    }
    let mut i: usize = 0;
    while i < na
        invariant
            0 <= i <= na,
            na == a@.len(),
            na == b@.len(),
            forall|j: int| 0 <= j < i ==> a@[j] == b@[j],
        decreases na - i,
    {
        if a.get_char(i) != b.get_char(i) {
            return false;
        }
        i += 1;
    }
    proof {
        assert(a@ =~= b@);
    }
    true
}

/// The characters with the Unicode `White_Space` property: the set that
/// surrounding-white-space trimming removes.
pub open spec fn is_space(c: char) -> bool {
    ||| c == ' '
    ||| c == '\t'
    ||| c == '\n'
    ||| c == '\u{b}'
    ||| c == '\u{c}'
    ||| c == '\r'
    ||| c == '\u{85}'
    ||| c == '\u{a0}'
    ||| c == '\u{1680}'
    ||| c == '\u{2000}'
    ||| c == '\u{2001}'
    ||| c == '\u{2002}'
    ||| c == '\u{2003}'
    ||| c == '\u{2004}'
    ||| c == '\u{2005}'
    ||| c == '\u{2006}'
    ||| c == '\u{2007}'
    ||| c == '\u{2008}'
    ||| c == '\u{2009}'
    ||| c == '\u{200a}'
    ||| c == '\u{2028}'
    ||| c == '\u{2029}'
    ||| c == '\u{202f}'
    ||| c == '\u{205f}'
    ||| c == '\u{3000}'
}

/// Whether `c` counts as white space for trimming.
#[verifier::when_used_as_spec(is_space)]
pub fn is_space_char(c: char) -> (r: bool)
    ensures
        r == is_space(c),
{
    c == ' ' || c == '\t' || c == '\n' || c == '\u{b}' || c == '\u{c}' || c == '\r'
        || c == '\u{85}' || c == '\u{a0}' || c == '\u{1680}' || c == '\u{2000}'
        || c == '\u{2001}' || c == '\u{2002}' || c == '\u{2003}' || c == '\u{2004}'
        || c == '\u{2005}' || c == '\u{2006}' || c == '\u{2007}' || c == '\u{2008}'
        || c == '\u{2009}' || c == '\u{200a}' || c == '\u{2028}' || c == '\u{2029}'
        || c == '\u{202f}' || c == '\u{205f}' || c == '\u{3000}'
}

/// `s` without its leading white space.
pub open spec fn trim_start_spec(s: Seq<char>) -> Seq<char>
    decreases s.len(),
{
    if s.len() > 0 && is_space(s[0]) {
        trim_start_spec(s.drop_first())
    } else {
        s
    }
}

/// `s` without its trailing white space.
pub open spec fn trim_end_spec(s: Seq<char>) -> Seq<char>
    decreases s.len(),
{
    if s.len() > 0 && is_space(s.last()) {
        trim_end_spec(s.drop_last())
    } else {
        s
    }
}

/// `s` without its leading and trailing white space.
pub open spec fn trim_spec(s: Seq<char>) -> Seq<char> {
    trim_end_spec(trim_start_spec(s))
}

/// A copy of `s` with leading and trailing white space removed.
pub fn trim(s: &str) -> (r: String)
    ensures
        r@ == trim_spec(s@),
{
    let n = s.unicode_len();
    proof {
        assert(s@.subrange(0, n as int) =~= s@);
    }
    let mut lo: usize = 0;
    while lo < n && is_space_char(s.get_char(lo))
        invariant
            0 <= lo <= n,
            n == s@.len(),
            trim_start_spec(s@) == trim_start_spec(s@.subrange(lo as int, n as int)),
        decreases n - lo,
    {
        proof {
            let t = s@.subrange(lo as int, n as int);
            assert(t.drop_first() =~= s@.subrange(lo as int + 1, n as int));
        }
        lo += 1;
    }
    if lo == n {
        proof {
            assert(s@.subrange(lo as int, n as int) =~= Seq::<char>::empty());
        }
        return String::new();
    }
    proof {
        let t = s@.subrange(lo as int, n as int);
        assert(t[0] == s@[lo as int]);
        assert(trim_start_spec(t) == t);
    }
    let mut hi: usize = n;
    while hi > lo + 1 && is_space_char(s.get_char(hi - 1))
        invariant
            lo < hi <= n,
            n == s@.len(),
            !is_space(s@[lo as int]),
            trim_start_spec(s@) == s@.subrange(lo as int, n as int),
            trim_end_spec(s@.subrange(lo as int, n as int)) == trim_end_spec(
                s@.subrange(lo as int, hi as int),
            ),
        decreases hi,
    {
        proof {
            let t = s@.subrange(lo as int, hi as int);
            assert(t.drop_last() =~= s@.subrange(lo as int, hi as int - 1));
        }
        hi -= 1;
    }
    proof {
        let t = s@.subrange(lo as int, hi as int);
        assert(t.last() == s@[hi as int - 1]);
        assert(!is_space(t.last()));
        assert(trim_end_spec(t) == t);
    }
    s.substring_char(lo, hi).to_owned()
}

/// Whether `s` contains a colon.
pub open spec fn has_colon(s: Seq<char>) -> bool {
    char_pos(s, ':') < s.len()
}

/// The part of `s` before its first colon.
pub open spec fn key_of(s: Seq<char>) -> Seq<char> {
    s.subrange(0, char_pos(s, ':'))
}

/// The part of `s` after its first colon.
pub open spec fn val_of(s: Seq<char>) -> Seq<char> {
    s.subrange(char_pos(s, ':') + 1, s.len() as int)
}

/// Splits `s` at its first colon into the part before and the part after;
/// `None` when `s` holds no colon.
pub fn split_colon(s: &str) -> (r: Option<(String, String)>)
    ensures
        r is Some <==> has_colon(s@),
        r matches Some(kv) ==> kv.0@ == key_of(s@) && kv.1@ == val_of(s@),
{
    let n = s.unicode_len();
    let i = find_char(s, ':');
    proof {
        lemma_char_pos(s@, ':');
    }
    if i == n {
        None
    } else {
        let key = s.substring_char(0, i).to_owned();
        let val = s.substring_char(i + 1, n).to_owned();
        Some((key, val))
    }
}

/// The pieces of `s` separated by commas, in order. Splitting a sequence
/// without commas — the empty sequence included — yields that one piece.
pub open spec fn split_commas_spec(s: Seq<char>) -> Seq<Seq<char>>
    decreases s.len(),
    via split_commas_spec_decreases
{
    if char_pos(s, ',') == s.len() {
        seq![s]
    } else {
        seq![s.subrange(0, char_pos(s, ','))] + split_commas_spec(
            s.subrange(char_pos(s, ',') + 1, s.len() as int),
        )
    }
}

#[via_fn]
proof fn split_commas_spec_decreases(s: Seq<char>) {
    lemma_char_pos(s, ',');
}

/// Splits `s` on commas; the pieces carry no comma and come in order.
pub fn split_commas(s: &str) -> (r: Vec<String>)
    ensures
        r@.len() == split_commas_spec(s@).len(),
        forall|k: int| 0 <= k < r@.len() ==> r@[k]@ == split_commas_spec(s@)[k],
    decreases s@.len(),
{
    let n = s.unicode_len();
    let i = find_char(s, ',');
    proof {
        lemma_char_pos(s@, ',');
    }
    if i == n {
        let mut v: Vec<String> = Vec::new();
        v.push(s.to_owned());
        v
    } else {
        let head = s.substring_char(0, i).to_owned();
        let tail = s.substring_char(i + 1, n);
        let mut v = split_commas(tail);
        v.insert(0, head);
        v
    }
}

/// The lowercase conversion that `str::to_lowercase` performs; its value is
/// a function of the characters alone.
pub uninterp spec fn lower_of(s: Seq<char>) -> Seq<char>;

/// Relies on `str::to_lowercase`: the result is the Unicode lowercase
/// conversion of `s`, determined by the characters of `s` alone.
#[verifier::external_body]
pub(crate) fn to_lower(s: &str) -> (r: String)
    ensures
        r@ == lower_of(s@),
{
    s.to_lowercase()
}

/// Relies on `String::push`: it appends the given character at the end.
#[verifier::external_body]
pub(crate) fn push_char(s: &mut String, c: char)
    ensures
        final(s)@ == old(s)@.push(c),
{
    s.push(c);
}

} // verus!
