//! The texts that Rust reads as a floating-point number:
//!
//! ```text
//! Float   ::= Sign? ( 'inf' | 'infinity' | 'nan' | Decimal )
//! Decimal ::= ( Digit+ | Digit+ '.' Digit* | Digit* '.' Digit+ ) Exp?
//! Exp     ::= 'e' Sign? Digit+
//! ```
//!
//! Letters count in either case; whitespace is no part of a number.

use crate::jsonlvar::text::skip_digits;
use vstd::prelude::*;

verus! {

pub open spec fn is_sign(c: char) -> bool {
    c == '+' || c == '-'
}

/// `c` is the letter given in its two cases.
pub open spec fn is_letter(c: char, lower: char, upper: char) -> bool {
    c == lower || c == upper
}

/// `s[from..]` is `inf`, `infinity` or `nan`, in any mix of cases.
pub open spec fn is_special_at(s: Seq<char>, from: int) -> bool {
    let n = s.len() - from;
    ||| (n == 3 && is_letter(s[from], 'i', 'I') && is_letter(s[from + 1], 'n', 'N') && is_letter(
        s[from + 2],
        'f',
        'F',
    ))
    ||| (n == 3 && is_letter(s[from], 'n', 'N') && is_letter(s[from + 1], 'a', 'A') && is_letter(
        s[from + 2],
        'n',
        'N',
    ))
    ||| (n == 8 && is_letter(s[from], 'i', 'I') && is_letter(s[from + 1], 'n', 'N') && is_letter(
        s[from + 2],
        'f',
        'F',
    ) && is_letter(s[from + 3], 'i', 'I') && is_letter(s[from + 4], 'n', 'N') && is_letter(
        s[from + 5],
        'i',
        'I',
    ) && is_letter(s[from + 6], 't', 'T') && is_letter(s[from + 7], 'y', 'Y'))
}

/// `s[at..]` is an exponent: `e`, an optional sign, and at least one digit.
pub open spec fn is_exponent_at(s: Seq<char>, at: int) -> bool {
    let k = if at + 1 < s.len() && is_sign(s[at + 1]) {
        at + 2
    } else {
        at + 1
    };
    &&& 0 <= at < s.len()
    &&& is_letter(s[at], 'e', 'E')
    &&& k < s.len()
    &&& crate::jsonlvar::text::digits_end(s, k) == s.len()
}

/// `s[from..]` is a decimal number: digits with at most one point among them,
/// at least one digit in all, and an optional exponent.
pub open spec fn is_decimal_at(s: Seq<char>, from: int) -> bool {
    let i = crate::jsonlvar::text::digits_end(s, from);
    let pointed = i < s.len() && s[i] == '.';
    let j = if pointed {
        crate::jsonlvar::text::digits_end(s, i + 1)
    } else {
        i
    };
    let digits = if pointed {
        (i - from) + (j - (i + 1))
    } else {
        i - from
    };
    &&& 0 <= from <= s.len()
    &&& digits > 0
    &&& (j == s.len() || is_exponent_at(s, j))
}

/// Where the number starts behind an optional sign.
pub open spec fn unsigned_start(s: Seq<char>) -> int {
    if s.len() > 0 && is_sign(s[0]) {
        1
    } else {
        0
    }
}

/// The whole of `s` is a floating-point number.
pub open spec fn is_float_literal(s: Seq<char>) -> bool {
    is_special_at(s, unsigned_start(s)) || is_decimal_at(s, unsigned_start(s))
}

fn letter(c: char, lower: char, upper: char) -> (b: bool)
    ensures
        b == is_letter(c, lower, upper),
{
    c == lower || c == upper
}

fn special_at(s: &Vec<char>, from: usize) -> (b: bool)
    requires
        from <= s.len(),
    ensures
        b == is_special_at(s@, from as int),
{
    let n = s.len() - from;
    if n == 3 {
        (letter(s[from], 'i', 'I') && letter(s[from + 1], 'n', 'N') && letter(s[from + 2], 'f', 'F'))
            || (letter(s[from], 'n', 'N') && letter(s[from + 1], 'a', 'A') && letter(
            s[from + 2],
            'n',
            'N',
        ))
    } else if n == 8 {
        letter(s[from], 'i', 'I') && letter(s[from + 1], 'n', 'N') && letter(s[from + 2], 'f', 'F')
            && letter(s[from + 3], 'i', 'I') && letter(s[from + 4], 'n', 'N') && letter(
            s[from + 5],
            'i',
            'I',
        ) && letter(s[from + 6], 't', 'T') && letter(s[from + 7], 'y', 'Y')
    } else {
        false
    }
}

fn exponent_at(s: &Vec<char>, at: usize) -> (b: bool)
    requires
        at < s.len(),
    ensures
        b == is_exponent_at(s@, at as int),
{
    if !letter(s[at], 'e', 'E') {
        return false;
    }
    let k = if at + 1 < s.len() && (s[at + 1] == '+' || s[at + 1] == '-') {
        at + 2
    } else {
        at + 1
    };
    if k >= s.len() {
        return false;
    }
    skip_digits(s, k) == s.len()
}

fn decimal_at(s: &Vec<char>, from: usize) -> (b: bool)
    requires
        from <= s.len(),
    ensures
        b == is_decimal_at(s@, from as int),
{
    let i = skip_digits(s, from);
    let pointed = i < s.len() && s[i] == '.';
    let j = if pointed {
        skip_digits(s, i + 1)
    } else {
        i
    };
    let some_digit = if pointed {
        i > from || j > i + 1
    } else {
        i > from
    };
    if !some_digit {
        return false;
    }
    if j == s.len() {
        return true;
    }
    exponent_at(s, j)
}

/// Whether the whole of `s` is a floating-point number.
pub fn is_float_text(s: &Vec<char>) -> (b: bool)
    ensures
        b == is_float_literal(s@),
{
    let from: usize = if s.len() > 0 && (s[0] == '+' || s[0] == '-') {
        1
    } else {
        0
    };
    special_at(s, from) || decimal_at(s, from)
}

} // verus!
