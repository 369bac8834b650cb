//! Decimal digit segments: their numeric value, parsing them as `u64`, and
//! rendering a `u64` back as decimal digits.

use vstd::prelude::*;
use vstd::arithmetic::div_mod::lemma_fundamental_div_mod;
use crate::error::Error;
use crate::scan::{class_check, in_class, CharClass};

verus! {

/// Whether every character of `s` is a decimal digit.
pub open spec fn all_digits(s: Seq<char>) -> bool {
    forall|k: int| 0 <= k < s.len() ==> in_class(CharClass::Digit, s[k])
}

/// The numeric value of the digit character `c`.
pub open spec fn digit_val(c: char) -> int {
    c as u32 - '0' as u32
}

/// The digit character for a value `d` in `0..=9`.
pub open spec fn digit_char(d: int) -> char {
    ('0' as u32 + d) as char
}

/// The number the digit string `s` denotes, read most significant digit
/// first. The empty string denotes zero; leading zeros are allowed.
pub open spec fn digits_value(s: Seq<char>) -> int
    decreases s.len(),
{
    if s.len() == 0 {
        0
    } else {
        digits_value(s.drop_last()) * 10 + digit_val(s.last())
    }
}

/// Whether `s` parses as a `u64`: non-empty, all digits, and within range.
pub open spec fn parses_to_u64(s: Seq<char>) -> bool {
    s.len() > 0 && all_digits(s) && digits_value(s) <= u64::MAX
}

/// What parsing the digit segment `s` as an unsigned integer returns.
pub open spec fn spec_parse_u64(s: Seq<char>) -> Result<u64, Error> {
    if parses_to_u64(s) {
        Ok(digits_value(s) as u64)
    } else {
        Err(Error::InvalidInteger)
    }
}

/// A digit string's value is non-negative and no prefix of it denotes more
/// than the whole string.
pub proof fn lemma_digits_value_prefix(s: Seq<char>, k: int)
    requires
        0 <= k <= s.len(),
        all_digits(s),
    ensures
        0 <= digits_value(s.take(k)) <= digits_value(s),
    decreases s.len(),
{
    if s.len() == 0 {
        assert(s.take(k) =~= s);
    } else if k == s.len() {
        assert(s.take(k) =~= s);
        lemma_digits_value_prefix(s.drop_last(), s.len() - 1);
        assert(s.drop_last() =~= s.take(s.len() - 1));
    } else {
        let t = s.drop_last();
        assert(all_digits(t));
        lemma_digits_value_prefix(t, k);
        assert(t.take(k) =~= s.take(k));
        lemma_digits_value_prefix(t, t.len() as int);
        assert(t.take(t.len() as int) =~= t);
    }
}

/// Extending a digit prefix by one digit multiplies its value by ten and adds
/// the new digit.
pub proof fn lemma_digits_value_take_step(s: Seq<char>, i: int)
    requires
        0 <= i < s.len(),
    ensures
        digits_value(s.take(i + 1)) == digits_value(s.take(i)) * 10 + digit_val(s[i]),
{
    assert(s.take(i + 1).drop_last() =~= s.take(i));
    assert(s.take(i + 1).last() == s[i]);
}

/// Parse a digit segment as a `u64`. Fails on an empty segment, a non-digit
/// character, or a value past `u64::MAX`, exactly as [`spec_parse_u64`] says.
pub fn parse_u64_digits(digits: &Vec<char>) -> (r: Result<u64, Error>)
    ensures
        r == spec_parse_u64(digits@),
{
    let ghost s = digits@;
    if digits.len() == 0 {
        return Err(Error::InvalidInteger);
    }
    let mut acc: u64 = 0;
    let mut i: usize = 0;
    while i < digits.len()
        invariant
            0 <= i <= s.len(),
            s == digits@,
            forall|k: int| 0 <= k < i ==> in_class(CharClass::Digit, s[k]),
            acc == digits_value(s.take(i as int)),
        decreases s.len() - i,
    {
        let c = digits[i];
        if !class_check(CharClass::Digit, c) {
            return Err(Error::InvalidInteger);
        }
        let d: u64 = (c as u32 - 48) as u64;
        proof {
            lemma_digits_value_take_step(s, i as int);
        }
        let next = match acc.checked_mul(10) {
            Some(m) => m.checked_add(d),
            None => None,
        };
        match next {
            Some(v) => {
                acc = v;
                i = i + 1;
            },
            None => {
                proof {
                    if all_digits(s) {
                        lemma_digits_value_prefix(s, i + 1);
                    }
                }
                return Err(Error::InvalidInteger);
            },
        }
    }
    proof {
        assert(s.take(i as int) =~= s);
    }
    Ok(acc)
}

/// The decimal digit string of `n`, most significant digit first, without
/// leading zeros (`0` itself renders as one digit).
pub open spec fn spec_dec_str(n: nat) -> Seq<char>
    decreases n,
{
    if n < 10 {
        seq![digit_char(n as int)]
    } else {
        spec_dec_str(n / 10).push(digit_char((n % 10) as int))
    }
}

/// The decimal rendering of `n` is made of digits and denotes `n` again.
pub proof fn lemma_dec_str_value(n: nat)
    ensures
        spec_dec_str(n).len() >= 1,
        all_digits(spec_dec_str(n)),
        digits_value(spec_dec_str(n)) == n,
    decreases n,
{
    if n < 10 {
        assert(in_class(CharClass::Digit, digit_char(n as int)));
        assert(spec_dec_str(n).drop_last() =~= Seq::<char>::empty());
        assert(digits_value(Seq::<char>::empty()) == 0);
        assert(digit_val(digit_char(n as int)) == n);
    } else {
        lemma_dec_str_value(n / 10);
        let prefix = spec_dec_str(n / 10);
        let c = digit_char((n % 10) as int);
        assert(in_class(CharClass::Digit, c));
        assert(prefix.push(c).drop_last() =~= prefix);
        assert(prefix.push(c).last() == c);
        assert(forall|k: int| 0 <= k < prefix.push(c).len() ==> in_class(
            CharClass::Digit,
            prefix.push(c)[k],
        ));
        lemma_fundamental_div_mod(n as int, 10);
    }
}

} // verus!
