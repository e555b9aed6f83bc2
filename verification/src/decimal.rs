//! Fixed-width decimal presentation of identifiers.
//!
//! The service layer hands identifiers out as decimal strings, left-padded
//! with zeros to a fixed width. The spec functions say what that string is,
//! digit by digit; [`format_padded_decimal`] computes it.

use vstd::prelude::*;

verus! {

/// The decimal digits of `v`, most significant first, as digit values.
/// Zero is written with a single digit.
pub open spec fn spec_decimal_digits(v: nat) -> Seq<nat>
    decreases v,
{
    if v < 10 {
        seq![v]
    } else {
        spec_decimal_digits(v / 10).push(v % 10)
    }
}

/// The character for one decimal digit value.
pub open spec fn spec_digit_char(d: nat) -> char {
    if d == 0 {
        '0'
    } else if d == 1 {
        '1'
    } else if d == 2 {
        '2'
    } else if d == 3 {
        '3'
    } else if d == 4 {
        '4'
    } else if d == 5 {
        '5'
    } else if d == 6 {
        '6'
    } else if d == 7 {
        '7'
    } else if d == 8 {
        '8'
    } else {
        '9'
    }
}

/// `v` written in decimal, left-padded with zeros to at least `width`
/// characters; longer values keep all their digits.
pub open spec fn spec_padded_decimal(v: nat, width: nat) -> Seq<char> {
    let digits = spec_decimal_digits(v).map_values(|d: nat| spec_digit_char(d));
    if digits.len() >= width {
        digits
    } else {
        Seq::new((width - digits.len()) as nat, |i: int| '0') + digits
    }
}

/// Relies on `String::push`: appends one character to the string.
#[verifier::external_body]
fn push_char(s: &mut String, c: char)
    ensures
        final(s)@ == old(s)@.push(c),
{
    s.push(c)
}

/// The character for one decimal digit value.
fn digit_char(d: u64) -> (r: char)
    requires
        d < 10,
    ensures
        r == spec_digit_char(d as nat),
{
    match d {
        0 => '0',
        1 => '1',
        2 => '2',
        3 => '3',
        4 => '4',
        5 => '5',
        6 => '6',
        7 => '7',
        8 => '8',
        _ => '9',
    }
}

/// The decimal digits of `v`, most significant first.
fn decimal_digits(v: u64) -> (r: Vec<u64>)
    ensures
        r@.map_values(|d: u64| d as nat) == spec_decimal_digits(v as nat),
        forall|i: int| 0 <= i < r@.len() ==> r@[i] < 10,
        r@.len() >= 1,
    decreases v,
{
    if v < 10 {
        let mut r: Vec<u64> = Vec::new();
        r.push(v);
        proof {
            assert(r@.map_values(|d: u64| d as nat) =~= spec_decimal_digits(v as nat));
        }
        r
    } else {
        let mut r = decimal_digits(v / 10);
        r.push(v % 10);
        proof {
            assert(r@.map_values(|d: u64| d as nat) =~= spec_decimal_digits(v as nat));
        }
        r
    }
}

/// `v` written in decimal, left-padded with zeros to at least `width`
/// characters.
pub fn format_padded_decimal(v: u64, width: usize) -> (r: String)
    ensures
        r@ == spec_padded_decimal(v as nat, width as nat),
{
    let digits = decimal_digits(v);
    let ghost dchars = spec_decimal_digits(v as nat).map_values(|d: nat| spec_digit_char(d));
    let pad: usize = if digits.len() >= width {
        0
    } else {
        width - digits.len()
    };
    let mut s = String::new();
    let mut k: usize = 0;
    while k < pad
        invariant
            k <= pad,
            s@.len() == k,
            forall|j: int| 0 <= j < k ==> s@[j] == '0',
        decreases pad - k,
    {
        push_char(&mut s, '0');
        k = k + 1;
    }
    let mut i: usize = 0;
    while i < digits.len()
        invariant
            i <= digits@.len(),
            digits@.map_values(|d: u64| d as nat) == spec_decimal_digits(v as nat),
            forall|j: int| 0 <= j < digits@.len() ==> digits@[j] < 10,
            s@.len() == pad + i,
            forall|j: int| 0 <= j < pad ==> s@[j] == '0',
            forall|j: int|
                0 <= j < i ==> s@[pad + j] == spec_digit_char(digits@[j] as nat),
        decreases digits@.len() - i,
    {
        let d = digits[i];
        push_char(&mut s, digit_char(d));
        i = i + 1;
    }
    proof {
        assert(dchars.len() == digits@.len());
        assert(forall|j: int|
            0 <= j < dchars.len() ==> dchars[j] == spec_digit_char(digits@[j] as nat));
        assert(s@ =~= spec_padded_decimal(v as nat, width as nat));
    }
    s
}

} // verus!
