//! Character-level helpers: Unicode whitespace and trimming.

use vstd::prelude::*;

verus! {

/// The characters with the Unicode `White_Space` property.
pub open spec fn is_space(c: char) -> bool {
    ('\u{9}' <= c && c <= '\u{d}') || c == ' ' || c == '\u{85}' || c == '\u{a0}' || c
        == '\u{1680}' || ('\u{2000}' <= c && c <= '\u{200a}') || c == '\u{2028}' || c
        == '\u{2029}' || c == '\u{202f}' || c == '\u{205f}' || c == '\u{3000}'
}

/// `s` with leading and trailing whitespace removed.
pub open spec fn trim(s: Seq<char>) -> Seq<char>
    decreases s.len(),
{
    if s.len() == 0 {
        s
    } else if is_space(s[0]) {
        trim(s.drop_first())
    } else if is_space(s.last()) {
        trim(s.drop_last())
    } else {
        s
    }
}

/// Whether `c` is a Unicode whitespace character.
pub fn is_whitespace(c: char) -> (r: bool)
    ensures
        r == is_space(c),
{
    ('\u{9}' <= c && c <= '\u{d}') || c == ' ' || c == '\u{85}' || c == '\u{a0}' || c
        == '\u{1680}' || ('\u{2000}' <= c && c <= '\u{200a}') || c == '\u{2028}' || c
        == '\u{2029}' || c == '\u{202f}' || c == '\u{205f}' || c == '\u{3000}'
}

/// The characters of `s`, in order.
pub fn chars_of(s: &str) -> (v: Vec<char>)
    ensures
        v@ == s@,
{
    let mut v: Vec<char> = Vec::new();
    for c in it: s.chars()
        invariant
            it.seq() == s@,
            v@ == it.seq().take(it.index() as int),
    {
        v.push(c);
    }
    v
}

/// The bounds of `trim(cs[lo..hi])` inside `cs`.
pub fn trim_bounds(cs: &Vec<char>, lo: usize, hi: usize) -> (r: (usize, usize))
    requires
        lo <= hi <= cs.len(),
    ensures
        lo <= r.0 <= r.1 <= hi,
        cs@.subrange(r.0 as int, r.1 as int) == trim(cs@.subrange(lo as int, hi as int)),
{
    let mut i = lo;
    let mut j = hi;
    while i < j && is_whitespace(cs[i])
        invariant
            lo <= i <= j,
            j == hi,
            hi <= cs.len(),
            trim(cs@.subrange(i as int, j as int)) == trim(cs@.subrange(lo as int, hi as int)),
        decreases j - i,
    {
        let ghost t = cs@.subrange(i as int, j as int);
        assert(t.drop_first() =~= cs@.subrange(i + 1, j as int));
        i = i + 1;
    }
    while j > i && is_whitespace(cs[j - 1])
        invariant
            lo <= i <= j <= hi,
            hi <= cs.len(),
            i < j ==> !is_space(cs@[i as int]),
            trim(cs@.subrange(i as int, j as int)) == trim(cs@.subrange(lo as int, hi as int)),
        decreases j - i,
    {
        let ghost t = cs@.subrange(i as int, j as int);
        assert(t.drop_last() =~= cs@.subrange(i as int, j - 1));
        j = j - 1;
    }
    proof {
        let t = cs@.subrange(i as int, j as int);
        if i < j {
            assert(t[0] == cs@[i as int]);
            assert(t.last() == cs@[j - 1]);
        }
    }
    (i, j)
}

/// Whether `s` holds nothing but whitespace.
pub fn is_blank(s: &str) -> (r: bool)
    ensures
        r == (trim(s@).len() == 0),
{
    let cs = chars_of(s);
    let (a, b) = trim_bounds(&cs, 0, cs.len());
    assert(cs@.subrange(0, cs@.len() as int) =~= cs@);
    a == b
}

/// The index of the first `c` in `s`, or the length of `s` where there is none.
pub open spec fn index_of(s: Seq<char>, c: char) -> nat
    decreases s.len(),
{
    if s.len() == 0 {
        0
    } else if s[0] == c {
        0
    } else {
        1 + index_of(s.drop_first(), c)
    }
}

proof fn lemma_index_of(s: Seq<char>, c: char, r: int)
    requires
        0 <= r <= s.len(),
        forall|k: int| 0 <= k < r ==> s[k] != c,
        r < s.len() ==> s[r] == c,
    ensures
        index_of(s, c) == r,
    decreases r,
{
    if r > 0 {
        assert forall|k: int| 0 <= k < r - 1 implies s.drop_first()[k] != c by {
            assert(s.drop_first()[k] == s[k + 1]);
        }
        lemma_index_of(s.drop_first(), c, r - 1);
    }
}

/// The position of the first `c` in `cs[from..to]`, or `to` where there is none.
pub fn find_char(cs: &Vec<char>, c: char, from: usize, to: usize) -> (r: usize)
    requires
        from <= to <= cs.len(),
    ensures
        r == from + index_of(cs@.subrange(from as int, to as int), c),
        from <= r <= to,
{
    let mut i = from;
    while i < to && cs[i] != c
        invariant
            from <= i <= to <= cs.len(),
            forall|k: int| from <= k < i ==> cs@[k] != c,
        decreases to - i,
    {
        i = i + 1;
    }
    proof {
        lemma_index_of(cs@.subrange(from as int, to as int), c, i - from);
    }
    i
}

/// Whether `cs[from..to]` is exactly `w`.
pub fn slice_eq(cs: &Vec<char>, from: usize, to: usize, w: &Vec<char>) -> (r: bool)
    requires
        from <= to <= cs.len(),
    ensures
        r == (cs@.subrange(from as int, to as int) == w@),
{
    if to - from != w.len() {
        return false;
    }
    let mut i: usize = 0;
    while i < w.len()
        invariant
            to - from == w.len(),
            from <= to <= cs.len(),
            i <= w.len(),
            forall|k: int| 0 <= k < i ==> cs@[from + k] == w@[k],
        decreases w.len() - i,
    {
        if cs[from + i] != w[i] {
            assert(cs@.subrange(from as int, to as int)[i as int] != w@[i as int]);
            return false;
        }
        i = i + 1;
    }
    assert(cs@.subrange(from as int, to as int) =~= w@);
    true
}

/// Whether two characters are equal once ASCII letters are folded to lower case.
pub open spec fn same_ignoring_ascii_case(a: char, b: char) -> bool {
    a == b || ('A' <= a && a <= 'Z' && b as u32 == a as u32 + 32) || ('A' <= b && b <= 'Z'
        && a as u32 == b as u32 + 32)
}

/// Whether two texts are equal once ASCII letters are folded to lower case.
pub open spec fn eq_ignoring_ascii_case(s: Seq<char>, t: Seq<char>) -> bool {
    s.len() == t.len() && forall|k: int|
        0 <= k < s.len() ==> same_ignoring_ascii_case(#[trigger] s[k], t[k])
}

/// Whether `cs[from..to]` equals `w` up to the case of ASCII letters.
pub fn slice_eq_ignore_ascii_case(cs: &Vec<char>, from: usize, to: usize, w: &Vec<char>) -> (r:
    bool)
    requires
        from <= to <= cs.len(),
    ensures
        r == eq_ignoring_ascii_case(cs@.subrange(from as int, to as int), w@),
{
    let ghost s = cs@.subrange(from as int, to as int);
    if to - from != w.len() {
        return false;
    }
    let mut i: usize = 0;
    while i < w.len()
        invariant
            to - from == w.len(),
            from <= to <= cs.len(),
            i <= w.len(),
            s == cs@.subrange(from as int, to as int),
            forall|k: int| 0 <= k < i ==> same_ignoring_ascii_case(#[trigger] s[k], w@[k]),
        decreases w.len() - i,
    {
        let a = cs[from + i];
        let b = w[i];
        assert(s[i as int] == a);
        let same = a == b || ('A' <= a && a <= 'Z' && b as u32 == a as u32 + 32) || ('A' <= b
            && b <= 'Z' && a as u32 == b as u32 + 32);
        if !same {
            return false;
        }
        i = i + 1;
    }
    true
}

} // verus!
