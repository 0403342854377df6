//! Powers of two in 128 bits, without overflow.

use vstd::arithmetic::power2::{lemma2_to64, lemma2_to64_rest, lemma_pow2_adds, lemma_pow2_pos, lemma_pow2_strictly_increases, lemma_pow2_unfold, pow2};
use vstd::prelude::*;

verus! {

/// Number of bits of the widest count that can be reported.
pub const COUNT_BITS: u32 = 128;

/// `2^exp` where 128 bits hold it, nothing where they do not.
pub open spec fn checked_pow2_spec(exp: nat) -> Option<u128> {
    if exp < 128 {
        Some(pow2(exp) as u128)
    } else {
        None
    }
}

/// The largest power of two that 128 bits hold.
pub proof fn lemma_pow2_top()
    ensures
        pow2(127) == 0x8000_0000_0000_0000_0000_0000_0000_0000u128,
        pow2(128) == u128::MAX + 1,
{
    lemma2_to64();
    lemma2_to64_rest();
    lemma_pow2_adds(63, 64);
    lemma_pow2_unfold(128);
}

/// Every power of two below `2^128` fits 128 bits.
pub proof fn lemma_pow2_fits(exp: nat)
    requires
        exp < 128,
    ensures
        0 < pow2(exp) <= 0x8000_0000_0000_0000_0000_0000_0000_0000u128,
        pow2(exp) as u128 == pow2(exp),
{
    lemma_pow2_top();
    if exp < 127 {
        lemma_pow2_strictly_increases(exp, 127);
    }
    lemma_pow2_pos(exp);
}

/// Checked power of two: `Some(2^exp)` if the value fits 128 bits, `None`
/// otherwise. Never wraps and never panics.
pub fn checked_pow2(exp: u32) -> (r: Option<u128>)
    ensures
        r == checked_pow2_spec(exp as nat),
        exp < 128 ==> r == Some(pow2(exp as nat) as u128) && pow2(exp as nat) <= u128::MAX,
        exp >= 128 ==> r.is_none(),
{
    if exp >= COUNT_BITS {
        return None;
    }
    let mut value: u128 = 1;
    let mut done: u32 = 0;
    proof {
        lemma2_to64();
    }
    while done < exp
        invariant
            done <= exp < 128,
            value == pow2(done as nat),
        decreases exp - done,
    {
        proof {
            lemma_pow2_fits(done as nat);
            lemma_pow2_fits((done + 1) as nat);
            lemma_pow2_unfold((done + 1) as nat);
        }
        value = value * 2;
        done = done + 1;
    }
    proof {
        lemma_pow2_fits(exp as nat);
    }
    Some(value)
}

} // verus!
