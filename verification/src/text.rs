//! Small operations on text that the rest of the library builds on.
use vstd::prelude::*;

verus! {

/// Appends one character. Calls `String::push` of std, which adds `c` at
/// the end of the string; that is all that is claimed of it.
#[verifier::external_body]
pub fn push_char(s: &mut String, c: char)
    ensures
        final(s)@ == old(s)@.push(c),
{
    s.push(c);
}


/// Whether `c` is white space as `trim` counts it: a control character
/// from tab to carriage return, or a character of the Unicode categories
/// Zs (space separators, among them U+180E), Zl or Zp.
pub open spec fn is_space(c: char) -> bool {
    ||| ('\u{9}' <= c && c <= '\u{d}')
    ||| c == ' '
    ||| c == '\u{a0}'
    ||| c == '\u{1680}'
    ||| c == '\u{180e}'
    ||| ('\u{2000}' <= c && c <= '\u{200a}')
    ||| c == '\u{2028}'
    ||| c == '\u{2029}'
    ||| c == '\u{202f}'
    ||| c == '\u{205f}'
    ||| c == '\u{3000}'
}

/// Whether `c` is white space as `trim` counts it.
pub fn is_whitespace(c: char) -> (r: bool)
    ensures
        r == is_space(c),
{
    ('\u{9}' <= c && c <= '\u{d}') || c == ' ' || c == '\u{a0}' || c == '\u{1680}' || c == '\u{180e}'
        || ('\u{2000}' <= c && c <= '\u{200a}') || c == '\u{2028}' || c == '\u{2029}' || c
        == '\u{202f}' || c == '\u{205f}' || c == '\u{3000}'
}

/// `r` is `t` without the white space at its start and at its end.
pub open spec fn is_trimmed(t: Seq<char>, r: Seq<char>) -> bool {
    exists|lo: int, hi: int|
        #![trigger t.subrange(lo, hi)]
        {
            &&& 0 <= lo <= hi <= t.len()
            &&& r == t.subrange(lo, hi)
            &&& forall|k: int| 0 <= k < lo ==> is_space(#[trigger] t[k])
            &&& forall|k: int| hi <= k < t.len() ==> is_space(#[trigger] t[k])
            &&& r.len() > 0 ==> !is_space(r[0]) && !is_space(r.last())
        }
}

/// The index of the first space in `s` at or after `from`, or the length
/// of `s` where there is none.
pub open spec fn space_from(s: Seq<char>, from: int) -> int
    decreases s.len() - from,
{
    if from >= s.len() {
        s.len() as int
    } else if s[from] == ' ' {
        from
    } else {
        space_from(s, from + 1)
    }
}

/// The index of the first space in `s` at or after `from`, or the length
/// of `s` where there is none.
pub fn find_space(s: &str, from: usize) -> (r: usize)
    requires
        from <= s@.len(),
    ensures
        r == space_from(s@, from as int),
        s@.len() <= usize::MAX,
{
    let n = s.unicode_len();
    let mut k = from;
    while k < n
        invariant
            n == s@.len(),
            from <= k <= n,
            space_from(s@, from as int) == space_from(s@, k as int),
        decreases n - k,
    {
        if s.get_char(k) == ' ' {
            return k;
        }
        k = k + 1;
    }
    k
}

/// The characters of `s` from `lo` up to `hi`, without the white space at
/// their start and at their end.
pub fn trimmed(s: &str, lo: usize, hi: usize) -> (r: String)
    requires
        lo <= hi <= s@.len(),
    ensures
        is_trimmed(s@.subrange(lo as int, hi as int), r@),
{
    let ghost t = s@.subrange(lo as int, hi as int);
    let mut a = lo;
    while a < hi && is_whitespace(s.get_char(a))
        invariant
            lo <= a <= hi <= s@.len(),
            t == s@.subrange(lo as int, hi as int),
            forall|k: int| 0 <= k < a - lo ==> is_space(#[trigger] t[k]),
        decreases hi - a,
    {
        a = a + 1;
    }
    let mut b = hi;
    while b > a && is_whitespace(s.get_char(b - 1))
        invariant
            lo <= a <= b <= hi <= s@.len(),
            t == s@.subrange(lo as int, hi as int),
            forall|k: int| b - lo <= k < hi - lo ==> is_space(#[trigger] t[k]),
        decreases b - a,
    {
        b = b - 1;
    }
    let mut r = String::new();
    let mut k = a;
    while k < b
        invariant
            a <= k <= b <= s@.len(),
            r@ == s@.subrange(a as int, k as int),
        decreases b - k,
    {
        push_char(&mut r, s.get_char(k));
        assert(r@ =~= s@.subrange(a as int, k + 1));
        k = k + 1;
    }
    proof {
        let lo2 = a - lo;
        let hi2 = b - lo;
        assert(r@ =~= t.subrange(lo2 as int, hi2 as int));
        if r@.len() > 0 {
            assert(r@[0] == s@[a as int]);
            assert(r@.last() == s@[b - 1]);
        }
        assert(forall|k: int| 0 <= k < lo2 ==> is_space(#[trigger] t[k]));
    }
    r
}


/// `space_from` lies between `from` and the length of `s`.
pub proof fn lemma_space_from_bounds(s: Seq<char>, from: int)
    requires
        0 <= from <= s.len(),
    ensures
        from <= space_from(s, from) <= s.len(),
    decreases s.len() - from,
{
    if from < s.len() && s[from] != ' ' {
        lemma_space_from_bounds(s, from + 1);
    }
}

/// Where `s` holds a space at or after `from`, `space_from` finds one.
pub proof fn lemma_space_from_finds(s: Seq<char>, from: int)
    requires
        0 <= from <= s.len(),
        exists|k: int| from <= k < s.len() && s[k] == ' ',
    ensures
        space_from(s, from) < s.len(),
        s[space_from(s, from)] == ' ',
    decreases s.len() - from,
{
    if s[from] != ' ' {
        let k = choose|k: int| from <= k < s.len() && s[k] == ' ';
        assert(k != from);
        lemma_space_from_finds(s, from + 1);
    }
}

/// `space_from` finds the first space at or after `from`: none lies
/// between `from` and it, and it is a space unless it is the end of `s`.
pub proof fn lemma_space_from_first(s: Seq<char>, from: int)
    requires
        0 <= from <= s.len(),
    ensures
        from <= space_from(s, from) <= s.len(),
        space_from(s, from) < s.len() ==> s[space_from(s, from)] == ' ',
        forall|k: int| from <= k < space_from(s, from) ==> #[trigger] s[k] != ' ',
    decreases s.len() - from,
{
    if from < s.len() && s[from] != ' ' {
        lemma_space_from_first(s, from + 1);
    }
}

} // verus!
