//! Decimal rendering of integer constant values.

use vstd::prelude::*;
use crate::naming::push_char;

verus! {

/// The decimal digit character for `d`, which must lie in `0..10`.
pub open spec fn dec_digit(d: int) -> char {
    ((48 + d) as u32) as char
}

/// The decimal digits of `n`, most significant first, with no sign and no
/// leading zero (except for `n == 0` itself).
pub open spec fn dec_str(n: nat) -> Seq<char>
    decreases n,
{
    if n < 10 {
        seq![dec_digit(n as int)]
    } else {
        dec_str(n / 10) + seq![dec_digit((n % 10) as int)]
    }
}

/// The decimal rendering of a signed integer: a `-` sign when negative, then
/// the digits of its magnitude.
pub open spec fn int_str(v: int) -> Seq<char> {
    if v < 0 {
        seq!['-'] + dec_str((-v) as nat)
    } else {
        dec_str(v as nat)
    }
}

/// The digit character for `d` (executable form of `dec_digit`).
fn dec_digit_exec(d: u8) -> (r: char)
    requires
        d < 10,
    ensures
        r == dec_digit(d as int),
{
    (48 + d) as char
}

/// Appends the decimal digits of `n` to `out`.
fn append_u128_dec(out: &mut String, n: u128)
    ensures
        final(out)@ == old(out)@ + dec_str(n as nat),
    decreases n,
{
    if n < 10 {
        push_char(out, dec_digit_exec(n as u8));
    } else {
        append_u128_dec(out, n / 10);
        push_char(out, dec_digit_exec((n % 10) as u8));
    }
}

/// Appends the decimal rendering of `v` to `out`.
pub(crate) fn append_i128_dec(out: &mut String, v: i128)
    ensures
        final(out)@ == old(out)@ + int_str(v as int),
{
    if v >= 0 {
        append_u128_dec(out, v as u128);
    } else {
        push_char(out, '-');
        let m: u128 = ((-(v + 1)) as u128) + 1;
        proof {
            assert(m == -(v as int));
        }
        append_u128_dec(out, m);
    }
}

} // verus!
