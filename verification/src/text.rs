//! Verified text building blocks: character vectors, decimal and hex
//! rendering. Text is assembled as `Vec<char>` (whose view is the same
//! `Seq<char>` a `String` views to) and turned into a `String` only at the
//! API edge.

use vstd::prelude::*;

verus! {

use vstd::string::StrSliceExecFns;

/// Relies on `String: FromIterator<&char>`: collecting a vector's
/// characters yields the string of exactly those characters in order.
#[verifier::external_body]
pub fn chars_to_string(v: &Vec<char>) -> (s: String)
    ensures
        s@ == v@,
{
    v.iter().collect()
}

/// The characters of a string slice, in order.
pub fn str_chars(s: &str) -> (r: Vec<char>)
    ensures
        r@ == s@,
{
    let n = s.unicode_len();
    let mut r: Vec<char> = Vec::new();
    let mut i: usize = 0;
    while i < n
        invariant
            n == s@.len(),
            i <= n,
            r@ == s@.take(i as int),
        decreases n - i,
    {
        let c = s.get_char(i);
        r.push(c);
        proof {
            assert(r@ =~= s@.take(i + 1));
        }
        i += 1;
    }
    proof {
        assert(r@ =~= s@);
    }
    r
}

/// Appends a string slice's characters to a character vector.
pub fn push_str_chars(out: &mut Vec<char>, s: &str)
    ensures
        final(out)@ == old(out)@ + s@,
{
    let mut addition = str_chars(s);
    out.append(&mut addition);
    proof {
        assert(out@ =~= old(out)@ + s@);
    }
}

/// The decimal digit character for a value below ten.
pub open spec fn spec_digit_char(d: int) -> char {
    if d == 0 { '0' }
    else if d == 1 { '1' }
    else if d == 2 { '2' }
    else if d == 3 { '3' }
    else if d == 4 { '4' }
    else if d == 5 { '5' }
    else if d == 6 { '6' }
    else if d == 7 { '7' }
    else if d == 8 { '8' }
    else { '9' }
}

/// The decimal digits of a nonnegative integer, most significant first.
pub open spec fn spec_dec_digits(n: nat) -> Seq<char>
    decreases n,
{
    if n < 10 {
        seq![spec_digit_char(n as int)]
    } else {
        spec_dec_digits(n / 10).push(spec_digit_char((n % 10) as int))
    }
}

/// The decimal rendering of an integer: a minus sign for negative values,
/// then the digits.
pub open spec fn spec_dec_int(v: int) -> Seq<char> {
    if v >= 0 {
        spec_dec_digits(v as nat)
    } else {
        seq!['-'] + spec_dec_digits((-v) as nat)
    }
}

fn digit_char(d: u64) -> (c: char)
    requires
        d < 10,
    ensures
        c == spec_digit_char(d as int),
{
    if d == 0 { '0' }
    else if d == 1 { '1' }
    else if d == 2 { '2' }
    else if d == 3 { '3' }
    else if d == 4 { '4' }
    else if d == 5 { '5' }
    else if d == 6 { '6' }
    else if d == 7 { '7' }
    else if d == 8 { '8' }
    else { '9' }
}

/// Appends the decimal digits of `n`.
pub fn push_u64_decimal(out: &mut Vec<char>, n: u64)
    ensures
        final(out)@ == old(out)@ + spec_dec_digits(n as nat),
    decreases n,
{
    if n < 10 {
        out.push(digit_char(n));
        proof {
            assert(out@ =~= old(out)@ + spec_dec_digits(n as nat));
        }
    } else {
        push_u64_decimal(out, n / 10);
        out.push(digit_char(n % 10));
        proof {
            assert(out@ =~= old(out)@ + spec_dec_digits(n as nat));
        }
    }
}

/// Appends the decimal rendering of `v` (sign, then digits).
pub fn push_i64_decimal(out: &mut Vec<char>, v: i64)
    ensures
        final(out)@ == old(out)@ + spec_dec_int(v as int),
{
    if v < 0 {
        out.push('-');
        let magnitude = (-(v as i128)) as u64;
        push_u64_decimal(out, magnitude);
        proof {
            assert(out@ =~= old(out)@ + spec_dec_int(v as int));
        }
    } else {
        push_u64_decimal(out, v as u64);
    }
}

/// The uppercase hex digit character for a value below sixteen.
pub open spec fn spec_hex_char(d: int) -> char {
    if d < 10 {
        spec_digit_char(d)
    } else if d == 10 { 'A' }
    else if d == 11 { 'B' }
    else if d == 12 { 'C' }
    else if d == 13 { 'D' }
    else if d == 14 { 'E' }
    else { 'F' }
}

/// The two uppercase hex digits of one byte.
pub open spec fn spec_byte_hex(b: u8) -> Seq<char> {
    seq![spec_hex_char(b as int / 16), spec_hex_char(b as int % 16)]
}

fn hex_char(d: u64) -> (c: char)
    requires
        d < 16,
    ensures
        c == spec_hex_char(d as int),
{
    if d < 10 {
        digit_char(d)
    } else if d == 10 { 'A' }
    else if d == 11 { 'B' }
    else if d == 12 { 'C' }
    else if d == 13 { 'D' }
    else if d == 14 { 'E' }
    else { 'F' }
}

/// Appends the two uppercase hex digits of one byte.
pub fn push_byte_hex(out: &mut Vec<char>, b: u8)
    ensures
        final(out)@ == old(out)@ + spec_byte_hex(b),
{
    out.push(hex_char((b / 16) as u64));
    out.push(hex_char((b % 16) as u64));
    proof {
        assert(out@ =~= old(out)@ + spec_byte_hex(b));
    }
}

} // verus!
