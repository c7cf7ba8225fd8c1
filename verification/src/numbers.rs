//! Decimal-string coercion.
//!
//! The API delivers counts as decimal strings. The normalizer parses them
//! as unsigned integers and silently treats anything unparsable as 0: a
//! surfaced 0 may mean "actually zero" or "failed to parse". The parser
//! accepts exactly what std's unsigned integer parsing accepts: an
//! optional leading `'+'`, then one or more decimal digits, with the
//! value within the target type's range.

use vstd::prelude::*;
use vstd::string::StrSliceExecFns;

verus! {

pub open spec fn is_dec_digit(c: char) -> bool {
    48 <= c as int && c as int <= 57
}

pub open spec fn digit_value(c: char) -> int {
    c as int - 48
}

pub open spec fn all_dec_digits(s: Seq<char>) -> bool {
    forall|i: int| 0 <= i < s.len() ==> is_dec_digit(#[trigger] s[i])
}

/// Value of a digit string, most significant digit first.
pub open spec fn dec_value(s: Seq<char>) -> int
    decreases s.len(),
{
    if s.len() == 0 {
        0
    } else {
        dec_value(s.drop_last()) * 10 + digit_value(s.last())
    }
}

/// The digit part of a count string: everything after an optional
/// leading `'+'`.
pub open spec fn dec_digits_of(s: Seq<char>) -> Seq<char> {
    if s.len() >= 1 && s[0] == '+' { s.skip(1) } else { s }
}

/// Whether `s` parses as an unsigned integer no greater than `bound`.
pub open spec fn parses_as_unsigned(s: Seq<char>, bound: int) -> bool {
    let d = dec_digits_of(s);
    &&& d.len() > 0
    &&& all_dec_digits(d)
    &&& dec_value(d) <= bound
}

/// What a count string normalizes to: its value when it parses within
/// `bound`, and 0 otherwise.
pub open spec fn unsigned_or_zero(s: Seq<char>, bound: int) -> int {
    if parses_as_unsigned(s, bound) {
        dec_value(dec_digits_of(s))
    } else {
        0
    }
}

/// `x` clamped from above to `u64::MAX`.
pub open spec fn sat_u64(x: int) -> int {
    if x > u64::MAX { u64::MAX as int } else { x }
}

proof fn lemma_dec_value_nonneg(d: Seq<char>)
    requires
        all_dec_digits(d),
    ensures
        dec_value(d) >= 0,
    decreases d.len(),
{
    if d.len() > 0 {
        assert(all_dec_digits(d.drop_last()));
        lemma_dec_value_nonneg(d.drop_last());
    }
}

/// A digit string is worth at least any of its prefixes.
proof fn lemma_dec_value_prefix_le(d: Seq<char>, j: int)
    requires
        all_dec_digits(d),
        0 <= j <= d.len(),
    ensures
        dec_value(d.subrange(0, j)) <= dec_value(d),
    decreases d.len() - j,
{
    if j < d.len() {
        let p = d.subrange(0, j);
        let q = d.subrange(0, j + 1);
        assert(q.drop_last() =~= p);
        assert(q.last() == d[j]);
        assert(all_dec_digits(p));
        lemma_dec_value_nonneg(p);
        assert(dec_value(q) == dec_value(p) * 10 + digit_value(d[j]));
        assert(dec_value(p) * 10 >= dec_value(p)) by (nonlinear_arith)
            requires dec_value(p) >= 0;
        lemma_dec_value_prefix_le(d, j + 1);
    } else {
        assert(d.subrange(0, j) =~= d);
    }
}

/// A coerced count lies within the bound it was parsed under.
pub proof fn lemma_unsigned_or_zero_range(s: Seq<char>, bound: int)
    requires
        bound >= 0,
    ensures
        0 <= unsigned_or_zero(s, bound) <= bound,
{
    if parses_as_unsigned(s, bound) {
        lemma_dec_value_nonneg(dec_digits_of(s));
    }
}

/// The bound holds of every coerced count at once.
pub proof fn lemma_unsigned_or_zero_range_all()
    ensures
        forall|s: Seq<char>, bound: int|
            bound >= 0 ==> 0 <= #[trigger] unsigned_or_zero(s, bound) <= bound,
{
    assert forall|s: Seq<char>, bound: int|
        bound >= 0 implies 0 <= #[trigger] unsigned_or_zero(s, bound) <= bound by {
        lemma_unsigned_or_zero_range(s, bound);
    }
}

/// Parses `s` as an unsigned decimal integer within `bound`, as std's
/// unsigned parsers do; `None` exactly when `s` does not so parse.
fn parse_bounded(s: &str, bound: u64) -> (r: Option<u64>)
    ensures
        match r {
            Some(v) => parses_as_unsigned(s@, bound as int)
                && v == dec_value(dec_digits_of(s@)),
            None => !parses_as_unsigned(s@, bound as int),
        },
{
    let n = s.unicode_len();
    let mut start: usize = 0;
    if n >= 1 && s.get_char(0) == '+' {
        start = 1;
    }
    let ghost d = dec_digits_of(s@);
    assert(d =~= s@.skip(start as int));
    if start >= n {
        return None;
    }
    let mut i: usize = start;
    let mut acc: u64 = 0;
    while i < n
        invariant
            start <= i <= n,
            n == s@.len(),
            d == dec_digits_of(s@),
            d =~= s@.skip(start as int),
            all_dec_digits(s@.subrange(start as int, i as int)),
            acc == dec_value(s@.subrange(start as int, i as int)),
            acc <= bound,
        decreases n - i,
    {
        let c = s.get_char(i);
        let cv = c as u32;
        if cv < 48 || cv > 57 {
            assert(d[i - start] == s@[i as int]);
            assert(!is_dec_digit(d[i - start]));
            return None;
        }
        let dd: u64 = (cv - 48) as u64;
        let ghost p = s@.subrange(start as int, i as int);
        let ghost q = s@.subrange(start as int, i as int + 1);
        proof {
            assert(q.drop_last() =~= p);
            assert(q.last() == s@[i as int]);
        }
        let stepped: Option<u64> = acc.checked_mul(10);
        let next: Option<u64> = match stepped {
            Some(a) => a.checked_add(dd),
            None => None,
        };
        let over = match next {
            Some(v) => v > bound,
            None => true,
        };
        if over {
            proof {
                let j = i - start + 1;
                assert(q =~= d.subrange(0, j as int));
                if all_dec_digits(d) {
                    lemma_dec_value_prefix_le(d, j as int);
                    assert(dec_value(d) >= dec_value(q));
                    assert(dec_value(q) == acc * 10 + dd);
                    assert(dec_value(d) > bound);
                }
            }
            return None;
        }
        acc = match next {
            Some(v) => v,
            None => 0,
        };
        i = i + 1;
        proof {
            assert(all_dec_digits(q)) by {
                assert(forall|k: int| 0 <= k < q.len() - 1 ==> q[k] == p[k]);
            }
        }
    }
    proof {
        assert(s@.subrange(start as int, n as int) =~= d);
    }
    Some(acc)
}

/// Parses a count string as a `u64`, defaulting to 0 when it does not
/// parse; defects are absorbed, never surfaced as errors.
pub fn parse_u64_or_zero(s: &str) -> (r: u64)
    ensures
        r == unsigned_or_zero(s@, u64::MAX as int),
{
    match parse_bounded(s, u64::MAX) {
        Some(v) => v,
        None => 0,
    }
}

/// Parses a count string as a `u32`, defaulting to 0 when it does not
/// parse; a value over `u32::MAX` is a parse failure, hence 0.
pub fn parse_u32_or_zero(s: &str) -> (r: u32)
    ensures
        r == unsigned_or_zero(s@, u32::MAX as int),
{
    match parse_bounded(s, u32::MAX as u64) {
        Some(v) => v as u32,
        None => 0,
    }
}

} // verus!
