//! Parsers for the values of settings given as text: numbers, the bind
//! address and the webhook switch.

use crate::text::{chars_of, eq_ignoring_ascii_case, find_char, index_of, slice_eq_ignore_ascii_case};
use vstd::prelude::*;

verus! {

/// Whether `c` is an ASCII decimal digit.
pub open spec fn is_digit(c: char) -> bool {
    '0' <= c && c <= '9'
}

/// The number that the digits `s` write in decimal.
pub open spec fn digits_value(s: Seq<char>) -> int
    decreases s.len(),
{
    if s.len() == 0 {
        0
    } else {
        digits_value(s.drop_last()) * 10 + (s.last() as int - '0' as int)
    }
}

/// `s` without a leading `+`.
pub open spec fn unsigned_digits(s: Seq<char>) -> Seq<char> {
    if s.len() > 0 && s[0] == '+' {
        s.drop_first()
    } else {
        s
    }
}

/// The number that `s` writes in decimal, after an optional `+`, where it is
/// at most `max`; `None` for an empty text, any other character, or a
/// larger number.
pub open spec fn decimal_value(s: Seq<char>, max: int) -> Option<int> {
    let d = unsigned_digits(s);
    if d.len() > 0 && (forall|i: int| 0 <= i < d.len() ==> is_digit(#[trigger] d[i]))
        && digits_value(d) <= max {
        Some(digits_value(d))
    } else {
        None
    }
}

proof fn lemma_digits_prefix(d: Seq<char>, k: int)
    requires
        0 <= k <= d.len(),
        forall|i: int| 0 <= i < d.len() ==> is_digit(#[trigger] d[i]),
    ensures
        0 <= digits_value(d.take(k)) <= digits_value(d),
    decreases d.len(),
{
    if k < d.len() {
        let e = d.drop_last();
        assert(e.take(k) =~= d.take(k));
        assert forall|i: int| 0 <= i < e.len() implies is_digit(#[trigger] e[i]) by {
            assert(e[i] == d[i]);
        }
        lemma_digits_prefix(e, k);
        lemma_digits_prefix(e, e.len() as int);
        assert(e.take(e.len() as int) =~= e);
    } else {
        assert(d.take(k) =~= d);
        if d.len() > 0 {
            let e = d.drop_last();
            assert forall|i: int| 0 <= i < e.len() implies is_digit(#[trigger] e[i]) by {
                assert(e[i] == d[i]);
            }
            lemma_digits_prefix(e, e.len() as int);
            assert(e.take(e.len() as int) =~= e);
        }
    }
}

/// Reads the decimal number in `cs[from..to]` (see `decimal_value`).
fn parse_decimal(cs: &Vec<char>, from: usize, to: usize, max: u32) -> (r: Option<u32>)
    requires
        from <= to <= cs.len(),
        max <= 65535,
    ensures
        r matches Some(v) ==> decimal_value(cs@.subrange(from as int, to as int), max as int)
            == Some(v as int),
        r is None ==> decimal_value(cs@.subrange(from as int, to as int), max as int) is None,
{
    let ghost s = cs@.subrange(from as int, to as int);
    let start = if from < to && cs[from] == '+' {
        from + 1
    } else {
        from
    };
    let ghost d = cs@.subrange(start as int, to as int);
    assert(d =~= unsigned_digits(s));
    if start == to {
        return None;
    }
    let mut acc: u32 = 0;
    let mut i = start;
    while i < to
        invariant
            from <= start <= i <= to <= cs.len(),
            max <= 65535,
            d == cs@.subrange(start as int, to as int),
            s == cs@.subrange(from as int, to as int),
            d == unsigned_digits(s),
            acc <= max,
            acc as int == digits_value(cs@.subrange(start as int, i as int)),
            forall|j: int| start <= j < i ==> is_digit(#[trigger] cs@[j]),
        decreases to - i,
    {
        let c = cs[i];
        if !('0' <= c && c <= '9') {
            assert(!is_digit(d[i - start]));
            assert(!(forall|j: int| 0 <= j < d.len() ==> is_digit(#[trigger] d[j])));
            return None;
        }
        let ghost prefix = cs@.subrange(start as int, i + 1);
        assert(prefix.drop_last() =~= cs@.subrange(start as int, i as int));
        let next = acc * 10 + (c as u32 - '0' as u32);
        assert(next as int == digits_value(prefix));
        if next > max {
            proof {
                if forall|j: int| 0 <= j < d.len() ==> is_digit(#[trigger] d[j]) {
                    assert(d.take(i + 1 - start) =~= prefix);
                    lemma_digits_prefix(d, i + 1 - start);
                }
            }
            return None;
        }
        acc = next;
        i = i + 1;
    }
    assert(cs@.subrange(start as int, i as int) =~= d);
    assert forall|j: int| 0 <= j < d.len() implies is_digit(#[trigger] d[j]) by {
        assert(d[j] == cs@[start + j]);
    }
    Some(acc)
}

/// A port number as `BIND_PORT` gives it: decimal, at most 65535.
pub fn parse_port(s: &str) -> (r: Option<u16>)
    ensures
        r matches Some(p) ==> decimal_value(s@, 65535) == Some(p as int),
        r is None ==> decimal_value(s@, 65535) is None,
{
    let cs = chars_of(s);
    assert(cs@.subrange(0, cs@.len() as int) =~= s@);
    match parse_decimal(&cs, 0, cs.len(), 65535) {
        Some(v) => Some(v as u16),
        None => None,
    }
}

/// The values of the dot-separated parts of `s` that are decimal numbers up
/// to 255, in order; the other parts are skipped.
pub open spec fn octets(s: Seq<char>) -> Seq<u8>
    decreases s.len(),
{
    let k = index_of(s, '.');
    let here = match decimal_value(s.take(k as int), 255) {
        Some(v) => seq![v as u8],
        None => Seq::empty(),
    };
    if k < s.len() {
        here + octets(s.skip(k + 1 as int))
    } else {
        here
    }
}

/// An IPv4 address as `BIND_ADDRESS` gives it: exactly four of its
/// dot-separated parts must be numbers up to 255 (see `octets`).
pub fn parse_bind_address(s: &str) -> (r: Option<[u8; 4]>)
    ensures
        r matches Some(a) ==> a@ == octets(s@),
        r is None ==> octets(s@).len() != 4,
{
    let cs = chars_of(s);
    let n = cs.len();
    let mut vals: Vec<u8> = Vec::new();
    let mut start: usize = 0;
    assert(cs@.subrange(0, n as int) =~= s@);
    loop
        invariant_except_break
            octets(s@) == vals@ + octets(cs@.subrange(start as int, n as int)),
        invariant
            start <= n == cs.len(),
            cs@ == s@,
        ensures
            octets(s@) == vals@,
        decreases n - start,
    {
        let ghost t = cs@.subrange(start as int, n as int);
        let k = find_char(&cs, '.', start, n);
        assert(t.take(k - start) =~= cs@.subrange(start as int, k as int));
        let ghost before = vals@;
        match parse_decimal(&cs, start, k, 255) {
            Some(v) => {
                vals.push(v as u8);
            },
            None => {},
        }
        if k == n {
            assert(vals@ =~= before + octets(t));
            assert(octets(s@) =~= vals@);
            break;
        }
        assert(t.skip(k - start + 1) =~= cs@.subrange(k + 1, n as int));
        assert(vals@ + octets(cs@.subrange(k + 1, n as int)) =~= before + octets(t));
        start = k + 1;
    }
    if vals.len() == 4 {
        let a = [vals[0], vals[1], vals[2], vals[3]];
        assert(a@ =~= vals@);
        Some(a)
    } else {
        None
    }
}

/// The webhook switch as `WEBHOOK_MODE` gives it: `true` or `false` in any
/// letter case.
pub fn parse_webhook_mode(s: &str) -> (r: Option<bool>)
    ensures
        r == Some(true) <==> eq_ignoring_ascii_case(s@, seq!['t', 'r', 'u', 'e']),
        r == Some(false) <==> eq_ignoring_ascii_case(s@, seq!['f', 'a', 'l', 's', 'e']),
{
    let cs = chars_of(s);
    let t = chars_of("true");
    let f = chars_of("false");
    proof {
        reveal_strlit("true");
        reveal_strlit("false");
        assert(t@ =~= seq!['t', 'r', 'u', 'e']);
        assert(f@ =~= seq!['f', 'a', 'l', 's', 'e']);
        assert(cs@.subrange(0, cs@.len() as int) =~= s@);
    }
    if slice_eq_ignore_ascii_case(&cs, 0, cs.len(), &t) {
        Some(true)
    } else if slice_eq_ignore_ascii_case(&cs, 0, cs.len(), &f) {
        Some(false)
    } else {
        None
    }
}

} // verus!
