//! Decimal text of 32-bit signed integers: reading an integer literal the way
//! `i32::from_str` does, and writing one the way `Display` does.
use vstd::prelude::*;

use crate::text::push_char;

verus! {

pub open spec fn is_digit(c: char) -> bool {
    '0' <= c && c <= '9'
}

pub open spec fn digit_val(c: char) -> int {
    c as int - '0' as int
}

pub open spec fn all_digits(s: Seq<char>) -> bool {
    forall|i: int| 0 <= i < s.len() ==> is_digit(#[trigger] s[i])
}

/// Value of a run of decimal digits, most significant first.
pub open spec fn digits_value(s: Seq<char>) -> int
    decreases s.len(),
{
    if s.len() == 0 {
        0
    } else {
        digits_value(s.drop_last()) * 10 + digit_val(s.last())
    }
}

/// `i32::from_str`: an optional `+` or `-`, then one or more ASCII digits,
/// whose value must lie in the `i32` range. Anything else is rejected.
pub open spec fn spec_parse_i32(s: Seq<char>) -> Option<i32> {
    let neg = s.len() > 0 && s[0] == '-';
    let signed = s.len() > 0 && (s[0] == '-' || s[0] == '+');
    let ds = if signed {
        s.drop_first()
    } else {
        s
    };
    let v = if neg {
        -digits_value(ds)
    } else {
        digits_value(ds)
    };
    if ds.len() > 0 && all_digits(ds) && i32::MIN <= v <= i32::MAX {
        Some(v as i32)
    } else {
        None
    }
}

pub open spec fn digit_char(d: int) -> char {
    ('0' as int + d) as char
}

/// Decimal digits of a natural number, most significant first, no leading zeros.
pub open spec fn nat_decimal(n: nat) -> Seq<char>
    decreases n,
{
    if n < 10 {
        seq![digit_char(n as int)]
    } else {
        nat_decimal(n / 10).push(digit_char((n % 10) as int))
    }
}

/// `Display` text of an integer: a `-` for negative values, then the digits.
pub open spec fn int_decimal(n: int) -> Seq<char> {
    if n < 0 {
        seq!['-'] + nat_decimal((-n) as nat)
    } else {
        nat_decimal(n as nat)
    }
}

proof fn lemma_digits_value_nonneg(s: Seq<char>)
    requires
        all_digits(s),
    ensures
        digits_value(s) >= 0,
    decreases s.len(),
{
    if s.len() > 0 {
        assert(is_digit(s[s.len() - 1]));
        lemma_digits_value_nonneg(s.drop_last());
    }
}

/// Appending digits never makes the value smaller.
proof fn lemma_digits_value_prefix(s: Seq<char>, j: int)
    requires
        all_digits(s),
        0 <= j <= s.len(),
    ensures
        digits_value(s.take(j)) <= digits_value(s),
    decreases s.len(),
{
    if j < s.len() {
        assert(is_digit(s[s.len() - 1]));
        lemma_digits_value_prefix(s.drop_last(), j);
        assert(s.drop_last().take(j) =~= s.take(j));
        lemma_digits_value_nonneg(s.drop_last());
    } else {
        assert(s.take(j) =~= s);
    }
}

proof fn lemma_digit_char(d: int)
    requires
        0 <= d < 10,
    ensures
        is_digit(digit_char(d)),
        digit_val(digit_char(d)) == d,
{
    assert(('0' as int + d) as char as int == '0' as int + d);
}

proof fn lemma_nat_decimal(n: nat)
    ensures
        nat_decimal(n).len() > 0,
        all_digits(nat_decimal(n)),
        digits_value(nat_decimal(n)) == n,
    decreases n,
{
    lemma_digit_char((n % 10) as int);
    if n < 10 {
        let s = nat_decimal(n);
        assert(s.drop_last() =~= Seq::<char>::empty());
        assert(digits_value(s.drop_last()) == 0);
        assert(digits_value(s) == digit_val(s.last()));
    } else {
        lemma_nat_decimal(n / 10);
        let s = nat_decimal(n);
        assert(s.drop_last() =~= nat_decimal(n / 10));
        assert(s.last() == digit_char((n % 10) as int));
        assert((n / 10) * 10 + n % 10 == n);
        assert(digits_value(s) == digits_value(s.drop_last()) * 10 + digit_val(s.last()));
        assert forall|i: int| 0 <= i < s.len() implies is_digit(#[trigger] s[i]) by {
            if i < s.len() - 1 {
                assert(s[i] == nat_decimal(n / 10)[i]);
            }
        }
    }
}

/// Reading back the decimal text of any `i32` gives the same `i32`.
pub proof fn lemma_parse_i32_of_decimal(n: i32)
    ensures
        spec_parse_i32(int_decimal(n as int)) == Some(n),
{
    if n < 0 {
        let m = (-n) as nat;
        lemma_nat_decimal(m);
        let s = int_decimal(n as int);
        assert(s.drop_first() =~= nat_decimal(m));
    } else {
        lemma_nat_decimal(n as nat);
        let s = nat_decimal(n as nat);
        assert(is_digit(s[0]));
    }
}

/// Parse a decimal `i32` literal exactly as `i32::from_str` accepts it.
pub fn parse_i32(s: &str) -> (r: Option<i32>)
    ensures
        r == spec_parse_i32(s@),
{
    let n = s.unicode_len();
    let mut start: usize = 0;
    let mut neg = false;
    if n > 0 {
        let c = s.get_char(0);
        if c == '-' {
            neg = true;
            start = 1;
        } else if c == '+' {
            start = 1;
        }
    }
    assert(start == 1 <==> (s@.len() > 0 && (s@[0] == '-' || s@[0] == '+')));
    assert(neg <==> (s@.len() > 0 && s@[0] == '-'));
    let ghost ds = if start == 1 {
        s@.drop_first()
    } else {
        s@
    };
    assert(ds =~= s@.subrange(start as int, n as int));
    if start >= n {
        return None;
    }
    let mut acc: i64 = 0;
    let mut k: usize = start;
    while k < n
        invariant
            n == s@.len(),
            start <= k <= n,
            ds =~= s@.subrange(start as int, n as int),
            start == 1 <==> (s@.len() > 0 && (s@[0] == '-' || s@[0] == '+')),
            neg <==> (s@.len() > 0 && s@[0] == '-'),
            ds == (if start == 1 {
                s@.drop_first()
            } else {
                s@
            }),
            all_digits(ds.take(k - start)),
            acc == digits_value(ds.take(k - start)),
            0 <= acc <= 0x8000_0000,
        decreases n - k,
    {
        let c = s.get_char(k);
        if !('0' <= c && c <= '9') {
            assert(ds[k - start] == c);
            assert(!is_digit(ds[(k - start) as int]));
            assert(!all_digits(ds));
            return None;
        }
        let d = (c as u32 - '0' as u32) as i64;
        assert(ds.take(k - start + 1).drop_last() =~= ds.take(k - start));
        acc = acc * 10 + d;
        assert(ds.take(k - start + 1).last() == c);
        assert(digits_value(ds.take(k - start + 1)) == acc);
        assert(all_digits(ds.take(k - start + 1))) by {
            assert forall|i: int| 0 <= i < k - start + 1 implies is_digit(
                #[trigger] ds.take(k - start + 1)[i],
            ) by {
                if i < k - start {
                    assert(ds.take(k - start + 1)[i] == ds.take(k - start)[i]);
                }
            }
        }
        if acc > 0x8000_0000 {
            proof {
                if all_digits(ds) {
                    lemma_digits_value_prefix(ds, k - start + 1);
                }
            }
            return None;
        }
        k = k + 1;
    }
    assert(ds.take(n - start) =~= ds);
    if neg {
        Some((-acc) as i32)
    } else if acc > 0x7fff_ffff {
        None
    } else {
        Some(acc as i32)
    }
}

/// Append the decimal digits of `m` to `out`.
fn push_nat_decimal(out: &mut String, m: u32)
    ensures
        final(out)@ == old(out)@ + nat_decimal(m as nat),
    decreases m,
{
    if m >= 10 {
        push_nat_decimal(out, m / 10);
    }
    let d = (m % 10) as u8;
    let c = (0x30u8 + d) as char;
    assert(c == digit_char((m % 10) as int));
    push_char(out, c);
    if m >= 10 {
        assert(nat_decimal(m as nat) == nat_decimal((m / 10) as nat).push(digit_char((m % 10) as int)));
    }
}

/// Append the `Display` text of an `i32` to `out`.
pub fn push_i32_decimal(out: &mut String, n: i32)
    ensures
        final(out)@ == old(out)@ + int_decimal(n as int),
{
    if n < 0 {
        push_char(out, '-');
        let m = (-(n as i64)) as u32;
        push_nat_decimal(out, m);
    } else {
        push_nat_decimal(out, n as u32);
    }
}

} // verus!
