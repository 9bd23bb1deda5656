use vstd::prelude::*;
use vstd::string::*;

verus! {

/// The concatenation of two string slices as an owned string.
pub fn concat_str(a: &str, b: &str) -> (r: String)
    ensures
        r@ == a@ + b@,
{
    let mut s = a.to_owned();
    s.append(b);
    s
}

/// The concatenation of three string slices as an owned string.
pub fn concat3(a: &str, b: &str, c: &str) -> (r: String)
    ensures
        r@ == a@ + b@ + c@,
{
    let mut s = a.to_owned();
    s.append(b);
    s.append(c);
    s
}

/// Character-wise equality of two string slices.
pub fn str_eq(a: &str, b: &str) -> (r: bool)
    ensures
        r == (a@ == b@),
{
    let n = a.unicode_len();
    if n != b.unicode_len() {
        return false;
    }
    let mut i: usize = 0;
    while i < n
        invariant
            n == a@.len(),
            n == b@.len(),
            i <= n,
            forall|k: int| 0 <= k < i ==> a@[k] == b@[k],
        decreases n - i,
    {
        if a.get_char(i) != b.get_char(i) {
            return false;
        }
        i = i + 1;
    }
    assert(a@ =~= b@);
    true
}

pub open spec fn is_ascii_digit(c: char) -> bool {
    48 <= (c as int) && (c as int) <= 57
}

pub open spec fn all_digits(s: Seq<char>) -> bool {
    forall|k: int| 0 <= k < s.len() ==> is_ascii_digit(#[trigger] s[k])
}

/// The number that a string of decimal digits denotes.
pub open spec fn digits_value(s: Seq<char>) -> int
    decreases s.len(),
{
    if s.len() == 0 {
        0
    } else {
        digits_value(s.drop_last()) * 10 + (s.last() as int - 48)
    }
}

/// The digits of an unsigned decimal literal: one optional leading `+` is skipped.
pub open spec fn unsigned_digits(s: Seq<char>) -> Seq<char> {
    if s.len() > 0 && s[0] == '+' {
        s.drop_first()
    } else {
        s
    }
}

/// What `str::parse::<u16>` accepts: an optional `+`, then at least one ASCII digit and
/// nothing else, denoting a value that fits in 16 bits.
pub open spec fn spec_parse_u16(s: Seq<char>) -> Option<u16> {
    let d = unsigned_digits(s);
    if d.len() > 0 && all_digits(d) && digits_value(d) <= 65535 {
        Some(digits_value(d) as u16)
    } else {
        None
    }
}

proof fn lemma_digits_value_nonneg(s: Seq<char>)
    requires
        all_digits(s),
    ensures
        digits_value(s) >= 0,
    decreases s.len(),
{
    if s.len() > 0 {
        assert(all_digits(s.drop_last())) by {
            assert forall|k: int| 0 <= k < s.drop_last().len() implies is_ascii_digit(
                #[trigger] s.drop_last()[k],
            ) by {
                assert(s.drop_last()[k] == s[k]);
            }
        }
        lemma_digits_value_nonneg(s.drop_last());
        assert(is_ascii_digit(s[s.len() - 1]));
    }
}

/// A string of digits denotes at least as much as each of its prefixes.
proof fn lemma_digits_value_prefix(s: Seq<char>, j: int)
    requires
        all_digits(s),
        0 <= j <= s.len(),
    ensures
        digits_value(s) >= digits_value(s.take(j)),
    decreases s.len(),
{
    if j < s.len() {
        let p = s.drop_last();
        assert(all_digits(p)) by {
            assert forall|k: int| 0 <= k < p.len() implies is_ascii_digit(#[trigger] p[k]) by {
                assert(p[k] == s[k]);
            }
        }
        lemma_digits_value_prefix(p, j);
        assert(p.take(j) =~= s.take(j));
        lemma_digits_value_nonneg(p);
        assert(is_ascii_digit(s[s.len() - 1]));
    } else {
        assert(s.take(j) =~= s);
    }
}

/// Parses a decimal `u16` as `str::parse::<u16>` does, `None` standing for every error.
pub fn parse_u16(s: &str) -> (r: Option<u16>)
    ensures
        r == spec_parse_u16(s@),
{
    let ghost t = s@;
    let ghost d = unsigned_digits(t);
    let n = s.unicode_len();
    let mut off: usize = 0;
    if n > 0 && s.get_char(0) == '+' {
        off = 1;
    }
    assert(d =~= t.subrange(off as int, n as int));
    if off == n {
        return None;
    }
    let mut acc: u32 = 0;
    let mut i: usize = off;
    assert(d.take(0) =~= Seq::<char>::empty());
    while i < n
        invariant
            t == s@,
            n == t.len(),
            off <= i <= n,
            d == t.subrange(off as int, n as int),
            d == unsigned_digits(t),
            all_digits(d.take(i - off)),
            acc == digits_value(d.take(i - off)),
            acc <= 65535,
        decreases n - i,
    {
        let c = s.get_char(i);
        let code = c as u32;
        assert(d[i - off] == c);
        if code < 48 || code > 57 {
            assert(!is_ascii_digit(d[i - off]));
            return None;
        }
        let ghost prev = d.take(i - off);
        let ghost next = d.take(i - off + 1);
        assert(next.drop_last() =~= prev);
        assert(next.last() == c);
        assert(all_digits(next)) by {
            assert forall|k: int| 0 <= k < next.len() implies is_ascii_digit(#[trigger] next[k]) by {
                if k < prev.len() {
                    assert(next[k] == prev[k]);
                }
            }
        }
        assert(digits_value(next) == digits_value(prev) * 10 + (c as int - 48));
        acc = acc * 10 + (code - 48);
        i = i + 1;
        if acc > 65535 {
            proof {
                if all_digits(d) {
                    lemma_digits_value_prefix(d, i - off);
                }
            }
            return None;
        }
    }
    assert(d.take(n - off) =~= d);
    Some(acc as u16)
}

} // verus!
