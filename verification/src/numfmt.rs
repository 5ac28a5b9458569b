//! Decimal rendering of unsigned integers, used to derive a display
//! timestamp from the numeric `time` field of a history record.

use vstd::prelude::*;
use crate::text::string_push;

verus! {

/// The character for one decimal digit.
pub open spec fn dec_digit(d: nat) -> char
    recommends
        d < 10,
{
    ((d + 48) as u8) as char
}

/// The decimal representation of `n`: most significant digit first, no
/// leading zeros (a single `'0'` for zero itself).
pub open spec fn dec_rep(n: nat) -> Seq<char>
    decreases n,
{
    if n < 10 {
        seq![dec_digit(n)]
    } else {
        dec_rep(n / 10) + seq![dec_digit(n % 10)]
    }
}

/// Appends the decimal representation of `n` to `s`.
fn push_dec(s: &mut String, n: u64)
    ensures
        final(s)@ == old(s)@ + dec_rep(n as nat),
    decreases n,
{
    if n >= 10 {
        push_dec(s, n / 10);
    }
    let d: u8 = (n % 10) as u8 + 48;
    string_push(s, d as char);
    proof {
        if n < 10 {
            assert(old(s)@ + dec_rep(n as nat) =~= old(s)@.push(dec_digit(n as nat)));
        } else {
            assert(old(s)@ + dec_rep(n as nat) =~= (old(s)@ + dec_rep((n / 10) as nat)).push(
                dec_digit((n % 10) as nat),
            ));
        }
    }
}

/// The decimal representation of `n` as a `String`.
pub fn dec_string(n: u64) -> (r: String)
    ensures
        r@ == dec_rep(n as nat),
{
    let mut s = String::new();
    push_dec(&mut s, n);
    proof {
        assert(Seq::<char>::empty() + dec_rep(n as nat) =~= dec_rep(n as nat));
    }
    s
}

} // verus!
