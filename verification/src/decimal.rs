//! Decimal text of integers: formatting and parsing, as `i64::to_string`
//! and `str::parse::<i64>` do them.
use vstd::prelude::*;

verus! {

pub open spec fn is_digit(c: char) -> bool {
    '0' <= c && c <= '9'
}

pub open spec fn digit_val(c: char) -> int {
    (c as int) - ('0' as int)
}

pub open spec fn digit_char(d: int) -> char {
    if d == 0 {
        '0'
    } else if d == 1 {
        '1'
    } else if d == 2 {
        '2'
    } else if d == 3 {
        '3'
    } else if d == 4 {
        '4'
    } else if d == 5 {
        '5'
    } else if d == 6 {
        '6'
    } else if d == 7 {
        '7'
    } else if d == 8 {
        '8'
    } else {
        '9'
    }
}

/// Decimal digits of `n`, most significant first, without leading zeros.
pub open spec fn dec_digits(n: nat) -> Seq<char>
    decreases n,
{
    if n < 10 {
        seq![digit_char(n as int)]
    } else {
        dec_digits(n / 10).push(digit_char((n % 10) as int))
    }
}

/// Decimal text of `v`: a minus sign before negative values.
pub open spec fn dec_text(v: int) -> Seq<char> {
    if v < 0 {
        seq!['-'] + dec_digits((-v) as nat)
    } else {
        dec_digits(v as nat)
    }
}

/// Value of a run of digits.
pub open spec fn digits_value(s: Seq<char>) -> int
    decreases s.len(),
{
    if s.len() == 0 {
        0
    } else {
        digits_value(s.drop_last()) * 10 + digit_val(s.last())
    }
}

pub open spec fn all_digits(s: Seq<char>) -> bool {
    forall|i: int| 0 <= i < s.len() ==> is_digit(#[trigger] s[i])
}

/// An optional sign followed by at least one digit, and nothing else.
pub open spec fn spec_parse_int(s: Seq<char>) -> Option<int> {
    if s.len() > 0 && (s[0] == '-' || s[0] == '+') {
        let rest = s.skip(1);
        if rest.len() > 0 && all_digits(rest) {
            Some(
                if s[0] == '-' {
                    -digits_value(rest)
                } else {
                    digits_value(rest)
                },
            )
        } else {
            None
        }
    } else if s.len() > 0 && all_digits(s) {
        Some(digits_value(s))
    } else {
        None
    }
}

/// `str::parse::<i64>`: the parsed integer when it fits in an `i64`.
pub open spec fn spec_parse_i64(s: Seq<char>) -> Option<i64> {
    match spec_parse_int(s) {
        Some(v) => if i64::MIN <= v <= i64::MAX {
            Some(v as i64)
        } else {
            None
        },
        None => None,
    }
}

fn digit_of(d: u64) -> (r: char)
    requires
        d < 10,
    ensures
        r == digit_char(d as int),
{
    if d == 0 {
        '0'
    } else if d == 1 {
        '1'
    } else if d == 2 {
        '2'
    } else if d == 3 {
        '3'
    } else if d == 4 {
        '4'
    } else if d == 5 {
        '5'
    } else if d == 6 {
        '6'
    } else if d == 7 {
        '7'
    } else if d == 8 {
        '8'
    } else {
        '9'
    }
}

fn push_digits(n: u64, out: &mut Vec<char>)
    ensures
        final(out)@ == old(out)@ + dec_digits(n as nat),
    decreases n,
{
    if n >= 10 {
        push_digits(n / 10, out);
    }
    let d = digit_of(n % 10);
    out.push(d);
    proof {
        if n >= 10 {
            assert(dec_digits(n as nat) == dec_digits((n / 10) as nat).push(digit_char((n % 10) as int)));
        }
    }
    assert(out@ =~= old(out)@ + dec_digits(n as nat));
}

/// `i64::to_string`, as characters.
pub fn i64_text(v: i64) -> (r: Vec<char>)
    ensures
        r@ == dec_text(v as int),
{
    let mut out: Vec<char> = Vec::new();
    if v < 0 {
        out.push('-');
        let mag: u64 = (-(v as i128)) as u64;
        push_digits(mag, &mut out);
        assert(out@ =~= seq!['-'] + dec_digits((-(v as int)) as nat));
    } else {
        push_digits(v as u64, &mut out);
        assert(out@ =~= dec_digits(v as nat));
    }
    out
}

proof fn lemma_digits_value_nonneg(s: Seq<char>)
    requires
        all_digits(s),
    ensures
        digits_value(s) >= 0,
    decreases s.len(),
{
    if s.len() > 0 {
        assert(all_digits(s.drop_last())) by {
            assert forall|i: int| 0 <= i < s.drop_last().len() implies is_digit(
                #[trigger] s.drop_last()[i],
            ) by {
                assert(s.drop_last()[i] == s[i]);
            }
        }
        lemma_digits_value_nonneg(s.drop_last());
        assert(is_digit(s[s.len() - 1]));
    }
}

/// Digits after `s[..k]` only make the value grow.
proof fn lemma_digits_value_grows(s: Seq<char>, k: int)
    requires
        all_digits(s),
        0 <= k <= s.len(),
    ensures
        digits_value(s.take(k)) <= digits_value(s),
    decreases s.len() - k,
{
    if k < s.len() {
        lemma_digits_value_grows(s, k + 1);
        assert(s.take(k + 1).drop_last() =~= s.take(k));
        assert(all_digits(s.take(k))) by {
            assert forall|i: int| 0 <= i < s.take(k).len() implies is_digit(
                #[trigger] s.take(k)[i],
            ) by {
                assert(s.take(k)[i] == s[i]);
            }
        }
        lemma_digits_value_nonneg(s.take(k));
        assert(is_digit(s[k]));
        assert(s.take(k + 1).last() == s[k]);
    } else {
        assert(s.take(k) =~= s);
    }
}

/// Value of the digits `s[lo..]`, or `None` when a non-digit occurs or the
/// value exceeds `bound`.
fn digits_upto(s: &Vec<char>, lo: usize, bound: u128) -> (r: Option<u128>)
    requires
        lo <= s@.len(),
        bound <= 10_000_000_000_000_000_000u128,
    ensures
        match r {
            Some(v) => all_digits(s@.skip(lo as int)) && v == digits_value(s@.skip(lo as int))
                && v <= bound,
            None => !all_digits(s@.skip(lo as int)) || digits_value(s@.skip(lo as int)) > bound,
        },
{
    let ghost t = s@.skip(lo as int);
    let mut acc: u128 = 0;
    let mut i: usize = lo;
    while i < s.len()
        invariant
            lo <= i <= s@.len(),
            t == s@.skip(lo as int),
            bound <= 10_000_000_000_000_000_000u128,
            all_digits(t.take(i - lo)),
            acc == digits_value(t.take(i - lo)),
            acc <= bound,
        decreases s.len() - i,
    {
        let c = s[i];
        if !('0' <= c && c <= '9') {
            assert(t[i - lo] == c);
            return None;
        }
        let d: u128 = ((c as u32) - ('0' as u32)) as u128;
        let next: u128 = acc * 10 + d;
        assert(t.take(i - lo + 1).drop_last() =~= t.take(i - lo));
        assert(t.take(i - lo + 1).last() == c);
        assert(all_digits(t.take(i - lo + 1))) by {
            assert forall|j: int| 0 <= j < t.take(i - lo + 1).len() implies is_digit(
                #[trigger] t.take(i - lo + 1)[j],
            ) by {
                if j < i - lo {
                    assert(t.take(i - lo + 1)[j] == t.take(i - lo)[j]);
                }
            }
        }
        if next > bound {
            proof {
                if all_digits(t) {
                    lemma_digits_value_grows(t, i - lo + 1);
                }
            }
            return None;
        }
        acc = next;
        i = i + 1;
    }
    assert(t.take(i - lo) =~= t);
    Some(acc)
}

/// `str::parse::<i64>` over characters.
pub fn parse_i64(s: &Vec<char>) -> (r: Option<i64>)
    ensures
        r == spec_parse_i64(s@),
{
    if s.len() == 0 {
        return None;
    }
    let signed = s[0] == '-' || s[0] == '+';
    let lo: usize = if signed {
        1
    } else {
        0
    };
    if signed && s.len() == 1 {
        return None;
    }
    assert(s@.skip(0) =~= s@);
    let neg = s[0] == '-';
    let bound: u128 = if neg {
        9_223_372_036_854_775_808u128
    } else {
        9_223_372_036_854_775_807u128
    };
    match digits_upto(s, lo, bound) {
        Some(v) => {
            if neg {
                let r: i128 = -(v as i128);
                Some(r as i64)
            } else {
                Some(v as i64)
            }
        },
        None => None,
    }
}

} // verus!
