use vstd::prelude::*;
use vstd::string::StrSliceExecFns;

verus! {

/// The ASCII digit for a value below ten.
pub open spec fn digit_char(d: nat) -> char {
    ((48 + d) as u8) as char
}

/// The uppercase hexadecimal digit for a value below sixteen.
pub open spec fn hex_char(d: nat) -> char {
    if d < 10 {
        digit_char(d)
    } else {
        ((65 + (d - 10)) as u8) as char
    }
}

/// Whether `c` is a character that can appear in an uppercase
/// hexadecimal rendering: a decimal digit or `A` through `F`.
pub open spec fn is_upper_hex_digit(c: char) -> bool {
    (48 <= (c as nat) && (c as nat) <= 57) || (65 <= (c as nat) && (c as nat) <= 70)
}

/// The decimal rendering of `v`: most significant digit first, no sign,
/// no leading zeros (a lone `0` for zero).
pub open spec fn dec_digits(v: nat) -> Seq<char>
    decreases v,
{
    if v < 10 {
        seq![digit_char(v)]
    } else {
        dec_digits(v / 10).push(digit_char(v % 10))
    }
}

/// The four-digit uppercase hexadecimal rendering of a 16-bit value,
/// zero-padded on the left.
pub open spec fn hex4(v: u16) -> Seq<char> {
    seq![
        hex_char((v as nat / 4096) % 16),
        hex_char((v as nat / 256) % 16),
        hex_char((v as nat / 16) % 16),
        hex_char(v as nat % 16),
    ]
}

/// Append the decimal rendering of `v` to `out`.
pub fn push_dec_u16(out: &mut Vec<char>, v: u16)
    ensures
        final(out)@ == old(out)@ + dec_digits(v as nat),
    decreases v,
{
    if v < 10 {
        let d: u8 = (48 + v) as u8;
        out.push(d as char);
    } else {
        push_dec_u16(out, v / 10);
        let d: u8 = (48 + v % 10) as u8;
        out.push(d as char);
        assert(out@ =~= old(out)@ + dec_digits(v as nat));
    }
}

/// Append one uppercase hexadecimal digit for `d` (below sixteen) to `out`.
fn push_hex_digit(out: &mut Vec<char>, d: u16)
    requires
        d < 16,
    ensures
        final(out)@ == old(out)@ + seq![hex_char(d as nat)],
{
    let c: u8 = if d < 10 {
        (48 + d) as u8
    } else {
        (65 + (d - 10)) as u8
    };
    out.push(c as char);
}

/// Append the four-digit uppercase hexadecimal rendering of `v` to `out`.
pub fn push_hex4_u16(out: &mut Vec<char>, v: u16)
    ensures
        final(out)@ == old(out)@ + hex4(v),
{
    push_hex_digit(out, (v / 4096) % 16);
    push_hex_digit(out, (v / 256) % 16);
    push_hex_digit(out, (v / 16) % 16);
    push_hex_digit(out, v % 16);
    assert(out@ =~= old(out)@ + hex4(v));
}

/// Append every character of `s` to `out`.
pub fn push_str_chars(out: &mut Vec<char>, s: &str)
    ensures
        final(out)@ == old(out)@ + s@,
{
    let n = s.unicode_len();
    let mut i: usize = 0;
    while i < n
        invariant
            n == s@.len(),
            i <= n,
            out@ == old(out)@ + s@.take(i as int),
        decreases n - i,
    {
        out.push(s.get_char(i));
        i = i + 1;
        assert(out@ =~= old(out)@ + s@.take(i as int));
    }
    assert(s@.take(n as int) =~= s@);
}

} // verus!
