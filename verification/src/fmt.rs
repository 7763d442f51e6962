//! Text rendering helpers: decimal and hexadecimal digits, and the UTF-16
//! conversion the firmware console needs.
//!
//! The boot chain renders every number by hand; these are those routines,
//! producing bytes for whichever sink displays them.

use vstd::prelude::*;

verus! {

/// The decimal digits of `n`, most significant first, as ASCII bytes.
pub open spec fn decimal_digits_spec(n: u64) -> Seq<u8>
    decreases n,
{
    if n < 10 {
        seq![(0x30 + n) as u8]
    } else {
        decimal_digits_spec(n / 10).push((0x30 + n % 10) as u8)
    }
}

/// Render `n` in decimal, most significant digit first.
pub fn decimal_digits(n: u64) -> (r: Vec<u8>)
    ensures
        r@ == decimal_digits_spec(n),
    decreases n,
{
    if n < 10 {
        let mut digits: Vec<u8> = Vec::new();
        digits.push(0x30 + (n as u8));
        digits
    } else {
        let mut digits = decimal_digits(n / 10);
        digits.push(0x30 + ((n % 10) as u8));
        digits
    }
}

/// The ASCII byte for one hexadecimal digit, upper case.
pub open spec fn hex_digit_spec(nibble: u64) -> u8 {
    if nibble < 10 {
        (0x30 + nibble) as u8
    } else {
        (0x37 + nibble) as u8
    }
}

/// The value rendered as exactly `width` hexadecimal digits, most
/// significant first: the last digit is `value % 16`, the digits before it
/// render `value / 16`. Leading digits of a small value are zeros.
pub open spec fn hex_digits_spec(value: u64, width: nat) -> Seq<u8>
    decreases width,
{
    if width == 0 {
        Seq::empty()
    } else {
        hex_digits_spec(value / 16, (width - 1) as nat).push(hex_digit_spec(value % 16))
    }
}

/// Render a value as exactly `width` upper-case hexadecimal digits, most
/// significant first, as the boot console shows addresses and status codes.
pub fn hex_digits(value: u64, width: usize) -> (r: Vec<u8>)
    ensures
        r@ == hex_digits_spec(value, width as nat),
    decreases width,
{
    if width == 0 {
        Vec::new()
    } else {
        let mut digits = hex_digits(value / 16, width - 1);
        let nibble = value % 16;
        let digit = if nibble < 10 {
            0x30 + (nibble as u8)
        } else {
            0x37 + (nibble as u8)
        };
        digits.push(digit);
        digits
    }
}

/// Convert a UTF-8 string to a null-terminated UTF-16 buffer for the
/// firmware console. Characters are written until one slot is left for the
/// terminator; the count returned includes the terminator. Characters beyond
/// the basic plane are truncated to 16 bits, as the console would show them.
pub fn utf8_to_utf16(input: &str, output: &mut Vec<u16>) -> (r: usize)
    requires
        old(output).len() >= 1,
    ensures
        final(output)@.len() == old(output)@.len(),
        ({
            let n = if input@.len() < old(output)@.len() - 1 {
                input@.len() as int
            } else {
                old(output)@.len() - 1
            };
            &&& r == n + 1
            &&& forall |i: int| 0 <= i < n ==> final(output)@[i] == #[verifier::truncate] (input@[i] as u16)
            &&& final(output)@[n] == 0
            &&& forall |i: int| n < i < final(output)@.len() ==> final(output)@[i] == old(output)@[i]
        }),
{
    let len = input.unicode_len();
    let mut i: usize = 0;
    while i < len && i < output.len() - 1
        invariant
            len == input@.len(),
            output@.len() == old(output)@.len() >= 1,
            i <= len,
            i <= output@.len() - 1,
            forall |j: int| 0 <= j < i
                ==> output@[j] == #[verifier::truncate] (input@[j] as u16),
            forall |j: int| i <= j < output@.len() ==> output@[j] == old(output)@[j],
        decreases len - i,
    {
        let ch = input.get_char(i);
        output.set(i, #[verifier::truncate] (ch as u16));
        i += 1;
    }
    output.set(i, 0);
    i + 1
}

} // verus!
