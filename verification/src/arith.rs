//! Exact integer arithmetic on values too wide for a single machine product.

use vstd::prelude::*;

verus! {

/// The weight of the upper limb of a two-limb number: 2^64.
pub const LIMB: u128 = 0x1_0000_0000_0000_0000;

/// `a * a`, which always fits in 64 bits.
pub fn square(a: u32) -> (r: u64)
    ensures
        r == a * a,
{
    assert(a * a <= 0xffff_ffff * 0xffff_ffff) by (nonlinear_arith)
        requires
            a <= 0xffff_ffff,
    ;
    (a as u64) * (a as u64)
}

/// `a * b`, which always fits in 128 bits.
pub fn mul_wide(a: u64, b: u64) -> (r: u128)
    ensures
        r == a * b,
        r <= 0xffff_ffff_ffff_ffff * 0xffff_ffff_ffff_ffff,
{
    assert(a * b <= 0xffff_ffff_ffff_ffff * 0xffff_ffff_ffff_ffff) by (nonlinear_arith)
        requires
            a <= 0xffff_ffff_ffff_ffff,
            b <= 0xffff_ffff_ffff_ffff,
    ;
    (a as u128) * (b as u128)
}

/// The 192-bit product `p * q` as an upper part and a lower limb.
pub fn mul_limbs(p: u64, q: u128) -> (r: (u128, u64))
    ensures
        r.0 * LIMB + r.1 == p * q,
{
    let q_hi: u128 = q / LIMB;
    let q_lo: u128 = q % LIMB;
    let low: u128 = mul_wide(p, q_lo as u64);
    let high: u128 = mul_wide(p, q_hi as u64);
    let carry: u128 = low / LIMB;
    assert(p * q == high * LIMB + low) by (nonlinear_arith)
        requires
            q == q_hi * LIMB + q_lo,
            high == p * q_hi,
            low == p * q_lo,
    ;
    (high + carry, (low % LIMB) as u64)
}

/// Decides `p * q <= r * s` without overflow, both products being up to 192 bits wide.
pub fn product_le(p: u64, q: u128, r: u64, s: u128) -> (b: bool)
    ensures
        b == (p * q <= r * s),
{
    let left: (u128, u64) = mul_limbs(p, q);
    let right: (u128, u64) = mul_limbs(r, s);
    left.0 < right.0 || (left.0 == right.0 && left.1 <= right.1)
}

} // verus!
