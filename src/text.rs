//! Character-level helpers on strings, each proved against a spec function.
use vstd::prelude::*;

verus! {

/// `s` ends with `t`.
pub open spec fn has_suffix(s: Seq<char>, t: Seq<char>) -> bool {
    t.len() <= s.len() && s.subrange(s.len() - t.len(), s.len() as int) == t
}

/// `s` with its last `n` characters removed.
pub open spec fn drop_tail(s: Seq<char>, n: int) -> Seq<char> {
    s.subrange(0, s.len() - n)
}

/// What follows the first occurrence of `c` in `s`, if `c` occurs.
pub open spec fn after_first(s: Seq<char>, c: char) -> Option<Seq<char>>
    decreases s.len(),
{
    if s.len() == 0 {
        None
    } else if s[0] == c {
        Some(s.subrange(1, s.len() as int))
    } else {
        after_first(s.subrange(1, s.len() as int), c)
    }
}

/// `s` with every non-overlapping occurrence of `p`, scanned left to right,
/// replaced by `r`. An empty `p` leaves `s` as it is.
pub open spec fn replace_all(s: Seq<char>, p: Seq<char>, r: Seq<char>) -> Seq<char>
    decreases s.len(),
{
    if p.len() == 0 || s.len() < p.len() {
        s
    } else if s.subrange(0, p.len() as int) == p {
        r + replace_all(s.subrange(p.len() as int, s.len() as int), p, r)
    } else {
        seq![s[0]] + replace_all(s.subrange(1, s.len() as int), p, r)
    }
}

/// `c` is one of `0` to `9`.
pub open spec fn is_ascii_digit(c: char) -> bool {
    '0' <= c && c <= '9'
}

/// Every character of `s` is one of `0` to `9`.
pub open spec fn all_ascii_digits(s: Seq<char>) -> bool {
    forall|i: int| 0 <= i < s.len() ==> is_ascii_digit(#[trigger] s[i])
}

/// The value of a string of decimal digits, most significant first.
pub open spec fn decimal_value(s: Seq<char>) -> nat
    decreases s.len(),
{
    if s.len() == 0 {
        0
    } else {
        decimal_value(s.drop_last()) * 10 + ((s.last() as u32) - ('0' as u32)) as nat
    }
}

/// What parsing `s` as a non-negative decimal `i64` gives: nothing unless `s` is
/// a non-empty run of ASCII digits whose value fits.
pub open spec fn parse_decimal(s: Seq<char>) -> Option<int> {
    if s.len() > 0 && all_ascii_digits(s) && decimal_value(s) <= i64::MAX {
        Some(decimal_value(s) as int)
    } else {
        None
    }
}

/// Adding digits never lowers the value.
proof fn lemma_decimal_grows(s: Seq<char>, i: int)
    requires
        0 <= i <= s.len(),
        all_ascii_digits(s),
    ensures
        decimal_value(s.subrange(0, i)) <= decimal_value(s),
    decreases s.len() - i,
{
    if i < s.len() {
        lemma_decimal_grows(s, i + 1);
        assert(s.subrange(0, i + 1).drop_last() =~= s.subrange(0, i));
        assert(is_ascii_digit(s[i]));
    } else {
        assert(s.subrange(0, i) =~= s);
    }
}

/// Returns true when `s` ends with `t`.
pub fn ends_with(s: &str, t: &str) -> (r: bool)
    ensures
        r == has_suffix(s@, t@),
{
    let n = s.unicode_len();
    let m = t.unicode_len();
    if m > n {
        return false;
    }
    let off = n - m;
    let mut i: usize = 0;
    while i < m
        invariant
            n == s@.len(),
            m == t@.len(),
            off == n - m,
            i <= m,
            forall|j: int| 0 <= j < i ==> s@[off + j] == t@[j],
        decreases m - i,
    {
        if s.get_char(off + i) != t.get_char(i) {
            assert(s@.subrange(off as int, n as int)[i as int] != t@[i as int]);
            return false;
        }
        i = i + 1;
    }
    assert(s@.subrange(off as int, n as int) =~= t@);
    true
}

/// Returns `s` without the suffix `t`, when it ends with it.
pub fn strip_suffix(s: &str, t: &str) -> (r: Option<String>)
    ensures
        r matches Some(v) ==> has_suffix(s@, t@) && v@ == drop_tail(s@, t@.len() as int),
        r is None ==> !has_suffix(s@, t@),
{
    if ends_with(s, t) {
        let n = s.unicode_len();
        let m = t.unicode_len();
        Some(String::from_str(s.substring_char(0, n - m)))
    } else {
        None
    }
}

/// Returns what follows the first `c` in `s`.
pub fn split_after_first(s: &str, c: char) -> (r: Option<String>)
    ensures
        r.deep_view() == after_first(s@, c),
{
    let n = s.unicode_len();
    let mut i: usize = 0;
    assert(s@.subrange(0, n as int) =~= s@);
    while i < n
        invariant
            n == s@.len(),
            i <= n,
            after_first(s@, c) == after_first(s@.subrange(i as int, n as int), c),
        decreases n - i,
    {
        let ghost rest = s@.subrange(i as int, n as int);
        assert(rest.subrange(1, rest.len() as int) =~= s@.subrange(i + 1, n as int));
        if s.get_char(i) == c {
            return Some(String::from_str(s.substring_char(i + 1, n)));
        }
        i = i + 1;
    }
    None
}

/// Returns `s` with every non-overlapping occurrence of `p` replaced by `r`.
pub fn replace_every(s: &str, p: &str, r: &str) -> (out: String)
    ensures
        out@ == replace_all(s@, p@, r@),
{
    let n = s.unicode_len();
    let m = p.unicode_len();
    let mut out = String::new();
    if m == 0 {
        out.append(s);
        return out;
    }
    let mut i: usize = 0;
    assert(s@.subrange(0, n as int) =~= s@);
    while i < n
        invariant
            n == s@.len(),
            m == p@.len(),
            m > 0,
            i <= n,
            out@ + replace_all(s@.subrange(i as int, n as int), p@, r@) == replace_all(s@, p@, r@),
        decreases n - i,
    {
        let ghost rest = s@.subrange(i as int, n as int);
        if n - i < m {
            out.append(s.substring_char(i, n));
            assert(out@ == replace_all(s@, p@, r@));
            return out;
        }
        let mut k: usize = 0;
        let mut same = true;
        while k < m
            invariant
                n == s@.len(),
                m == p@.len(),
                i + m <= n,
                k <= m,
                same == forall|j: int| 0 <= j < k ==> s@[i + j] == p@[j],
            decreases m - k,
        {
            if s.get_char(i + k) != p.get_char(k) {
                same = false;
            }
            k = k + 1;
        }
        if same {
            assert(rest.subrange(0, m as int) =~= p@);
            assert(rest.subrange(m as int, rest.len() as int) =~= s@.subrange(i + m, n as int));
            out.append(r);
            i = i + m;
        } else {
            assert(rest.subrange(0, m as int) != p@) by {
                let j = choose|j: int| 0 <= j < m && s@[i + j] != p@[j];
                assert(rest.subrange(0, m as int)[j] == s@[i + j]);
            }
            assert(rest.subrange(1, rest.len() as int) =~= s@.subrange(i + 1, n as int));
            let one = s.substring_char(i, i + 1);
            assert(one@ =~= seq![rest[0]]);
            out.append(one);
            i = i + 1;
        }
    }
    assert(s@.subrange(n as int, n as int) =~= Seq::<char>::empty());
    assert(out@ =~= replace_all(s@, p@, r@));
    out
}

/// Parses a non-negative decimal `i64` made of ASCII digits only.
pub fn parse_i64(s: &str) -> (r: Option<i64>)
    ensures
        r matches Some(v) ==> parse_decimal(s@) == Some(v as int),
        r is None ==> parse_decimal(s@) is None,
{
    let n = s.unicode_len();
    if n == 0 {
        return None;
    }
    let mut acc: i64 = 0;
    let mut i: usize = 0;
    assert(s@.subrange(0, 0) =~= Seq::<char>::empty());
    while i < n
        invariant
            n == s@.len(),
            i <= n,
            all_ascii_digits(s@.subrange(0, i as int)),
            acc >= 0,
            acc as int == decimal_value(s@.subrange(0, i as int)),
        decreases n - i,
    {
        let c = s.get_char(i);
        let ghost next = s@.subrange(0, i + 1);
        assert(next.drop_last() =~= s@.subrange(0, i as int));
        if c < '0' || c > '9' {
            assert(!is_ascii_digit(s@[i as int]));
            return None;
        }
        let d: i64 = (c as u32 - '0' as u32) as i64;
        assert(decimal_value(next) == acc * 10 + d);
        if acc > (i64::MAX - d) / 10 {
            assert(acc * 10 + d > i64::MAX) by (nonlinear_arith)
                requires
                    acc > (i64::MAX - d) / 10,
                    0 <= d <= 9,
            ;
            proof {
                if all_ascii_digits(s@) {
                    lemma_decimal_grows(s@, i + 1);
                }
            }
            return None;
        }
        assert(acc * 10 + d <= i64::MAX) by (nonlinear_arith)
            requires
                acc <= (i64::MAX - d) / 10,
                acc >= 0,
                0 <= d <= 9,
        ;
        acc = acc * 10 + d;
        i = i + 1;
        assert(all_ascii_digits(s@.subrange(0, i as int))) by {
            assert forall|j: int| 0 <= j < i implies is_ascii_digit(#[trigger] s@.subrange(0, i as int)[j]) by {
                if j < i - 1 {
                    assert(s@.subrange(0, i as int)[j] == s@.subrange(0, i - 1)[j]);
                }
            }
        }
    }
    assert(s@.subrange(0, n as int) =~= s@);
    Some(acc)
}

} // verus!
