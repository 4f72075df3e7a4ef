//! Decimal numbers in text: reading an unsigned count the way `str::parse::<usize>`
//! does, and writing integers the way `Display` does.

use vstd::prelude::*;
use crate::text::{chars_of, string_of, push_str};

verus! {

/// Whether `c` is one of the ASCII digits `0`..`9`.
pub open spec fn is_digit(c: char) -> bool {
    48 <= (c as u32) <= 57
}

/// The numeric value of an ASCII digit.
pub open spec fn digit_value(c: char) -> nat {
    ((c as u32) - 48) as nat
}

/// The ASCII digit for `d < 10`.
pub open spec fn digit_char(d: nat) -> char {
    (48 + d) as char
}

/// Whether every character of `s` is a digit.
pub open spec fn all_digits(s: Seq<char>) -> bool {
    forall|i: int| 0 <= i < s.len() ==> is_digit(#[trigger] s[i])
}

/// The value of the digit string `s`, most significant digit first.
pub open spec fn digits_value(s: Seq<char>) -> nat
    decreases s.len(),
{
    if s.len() == 0 {
        0
    } else {
        digits_value(s.drop_last()) * 10 + digit_value(s.last())
    }
}

/// `s` without one leading `+`, if it has one.
pub open spec fn unsigned_digits(s: Seq<char>) -> Seq<char> {
    if s.len() > 0 && s[0] == '+' {
        s.drop_first()
    } else {
        s
    }
}

/// The natural number that `s` writes: an optional `+`, then one or more
/// digits, and nothing else.
pub open spec fn parsed_unsigned(s: Seq<char>) -> Option<nat> {
    let d = unsigned_digits(s);
    if d.len() > 0 && all_digits(d) {
        Some(digits_value(d))
    } else {
        None
    }
}

/// What `str::parse::<usize>` gives for `s`: the number it writes, when that fits.
pub open spec fn parsed_usize(s: Seq<char>) -> Option<usize> {
    match parsed_unsigned(s) {
        Some(v) => if v <= usize::MAX {
            Some(v as usize)
        } else {
            None
        },
        None => None,
    }
}

/// The decimal digits of `n`, without leading zeros.
pub open spec fn decimal(n: nat) -> Seq<char>
    decreases n,
{
    if n < 10 {
        seq![digit_char(n)]
    } else {
        decimal(n / 10).push(digit_char(n % 10))
    }
}

/// The decimal text of `n`, with a `-` before a negative number.
pub open spec fn signed_decimal(n: int) -> Seq<char> {
    if n < 0 {
        seq!['-'] + decimal((-n) as nat)
    } else {
        decimal(n as nat)
    }
}

proof fn lemma_digits_value_grows(s: Seq<char>, j: int)
    requires
        0 <= j <= s.len(),
    ensures
        digits_value(s.take(j)) <= digits_value(s),
    decreases s.len() - j,
{
    if j < s.len() {
        assert(s.take(j + 1).drop_last() =~= s.take(j));
        lemma_digits_value_grows(s, j + 1);
    } else {
        assert(s.take(j) =~= s);
    }
}

/// Reads `s` as an unsigned count, as `str::parse::<usize>` does: `None` when
/// `s` is not an optional `+` followed by digits, or when the number does not fit.
pub fn parse_usize(s: &str) -> (r: Option<usize>)
    ensures
        r == parsed_usize(s@),
{
    let cs = chars_of(s);
    let n = cs.len();
    let mut i: usize = 0;
    if n > 0 && cs[0] == '+' {
        i = 1;
    }
    let ghost d = unsigned_digits(s@);
    assert(d =~= cs@.skip(i as int));
    if i == n {
        return None;
    }
    let start = i;
    let mut acc: usize = 0;
    while i < n
        invariant
            start <= i <= n == cs.len(),
            cs@ == s@,
            d == cs@.skip(start as int),
            d == unsigned_digits(s@),
            all_digits(d.take(i - start)),
            acc == digits_value(d.take(i - start)),
        decreases n - i,
    {
        let c = cs[i];
        let u = c as u32;
        assert(d[i - start] == c);
        if u < 48 || u > 57 {
            assert(!is_digit(d[i - start]));
            assert(!all_digits(d));
            return None;
        }
        let k: usize = (u - 48) as usize;
        assert(d.take(i - start + 1).drop_last() =~= d.take(i - start));
        assert(d.take(i - start + 1).last() == c);
        match acc.checked_mul(10) {
            Some(m) => match m.checked_add(k) {
                Some(a) => {
                    acc = a;
                },
                None => {
                    proof {
                        assert(digit_value(c) == k);
                        assert(digits_value(d.take(i - start + 1)) == acc * 10 + k);
                        if all_digits(d) {
                            lemma_digits_value_grows(d, i - start + 1);
                        }
                    }
                    return None;
                },
            },
            None => {
                proof {
                    assert(digit_value(c) == k);
                    assert(digits_value(d.take(i - start + 1)) >= acc * 10);
                    if all_digits(d) {
                        lemma_digits_value_grows(d, i - start + 1);
                    }
                }
                return None;
            },
        }
        i = i + 1;
        assert forall|t: int| 0 <= t < d.take(i - start).len() implies is_digit(
            #[trigger] d.take(i - start)[t],
        ) by {
            if t < i - start - 1 {
                assert(d.take(i - start)[t] == d.take(i - start - 1)[t]);
            }
        }
    }
    assert(d.take(n - start) =~= d);
    Some(acc)
}

fn decimal_digits(n: u64) -> (v: Vec<char>)
    ensures
        v@ == decimal(n as nat),
    decreases n,
{
    let d: u8 = (n % 10) as u8;
    let c = (48u8 + d) as char;
    assert(c == digit_char((n % 10) as nat));
    if n < 10 {
        let mut v: Vec<char> = Vec::new();
        v.push(c);
        assert(v@ =~= seq![digit_char(n as nat)]);
        v
    } else {
        let mut v = decimal_digits(n / 10);
        v.push(c);
        v
    }
}

/// The decimal text of `n`, as `u64`'s `Display` writes it.
pub fn format_u64(n: u64) -> (s: String)
    ensures
        s@ == decimal(n as nat),
{
    let v = decimal_digits(n);
    string_of(v.as_slice())
}

/// The decimal text of `n`, as `i32`'s `Display` writes it.
pub fn format_i32(n: i32) -> (s: String)
    ensures
        s@ == signed_decimal(n as int),
{
    if n < 0 {
        let m: i64 = n as i64;
        let v = decimal_digits((-m) as u64);
        let mut s = String::new();
        push_str(&mut s, "-");
        proof {
            reveal_strlit("-");
        }
        let t = string_of(v.as_slice());
        push_str(&mut s, t.as_str());
        assert(s@ =~= seq!['-'] + decimal((-(n as int)) as nat));
        s
    } else {
        format_u64(n as u64)
    }
}

proof fn lemma_decimal_digits(n: nat)
    ensures
        decimal(n).len() > 0,
        all_digits(decimal(n)),
        digits_value(decimal(n)) == n,
        decimal(n)[0] != '+',
    decreases n,
{
    if n >= 10 {
        lemma_decimal_digits(n / 10);
        let p = decimal(n / 10);
        assert(decimal(n).drop_last() =~= p);
        assert forall|i: int| 0 <= i < decimal(n).len() implies is_digit(#[trigger] decimal(n)[i]) by {
            if i < p.len() {
                assert(decimal(n)[i] == p[i]);
            }
        }
        assert(decimal(n)[0] == p[0]);
        assert(decimal(n).last() == digit_char(n % 10));
        assert(((48 + (n % 10)) as char) as u32 == 48 + (n % 10));
        assert(digit_value(decimal(n).last()) == n % 10);
        assert(digits_value(decimal(n)) == digits_value(p) * 10 + digit_value(decimal(n).last()));
        assert(n == (n / 10) * 10 + n % 10) by (nonlinear_arith);
    } else {
        assert(((48 + n) as char) as u32 == 48 + n);
        assert(decimal(n).drop_last() =~= Seq::<char>::empty());
        assert(digits_value(Seq::<char>::empty()) == 0);
        assert(digits_value(decimal(n)) == digit_value(decimal(n).last()));
    }
}

/// Reading back what was written gives the number again.
pub proof fn law_decimal_round_trip(n: nat)
    ensures
        parsed_unsigned(decimal(n)) == Some(n),
        n <= usize::MAX ==> parsed_usize(decimal(n)) == Some(n as usize),
{
    lemma_decimal_digits(n);
}

} // verus!
