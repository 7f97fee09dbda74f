//! Unsigned arithmetic with explicit overflow behaviour.
use vstd::prelude::*;

verus! {

/// The 64-bit sum of `a` and `b`, wrapping around on overflow.
pub open spec fn wrap_add(a: u64, b: u64) -> u64 {
    if a + b <= u64::MAX {
        (a + b) as u64
    } else {
        (a + b - 0x1_0000_0000_0000_0000) as u64
    }
}

/// Adds two balances the way a release build does: wrapping on overflow.
pub fn wrapping_add_u64(a: u64, b: u64) -> (r: u64)
    ensures
        r == wrap_add(a, b),
{
    if a <= u64::MAX - b {
        a + b
    } else {
        a - (u64::MAX - b) - 1
    }
}

/// The product of `a` and `b`, capped at `u64::MAX`.
pub open spec fn sat_mul(a: u64, b: u64) -> u64 {
    if a * b <= u64::MAX {
        (a * b) as u64
    } else {
        u64::MAX
    }
}

/// Multiplies, saturating at `u64::MAX`.
pub fn saturating_mul_u64(a: u64, b: u64) -> (r: u64)
    ensures
        r == sat_mul(a, b),
{
    match a.checked_mul(b) {
        Some(p) => p,
        None => u64::MAX,
    }
}

/// The sum of `a` and `b`, capped at `u64::MAX`.
pub open spec fn sat_add(a: u64, b: u64) -> u64 {
    if a + b <= u64::MAX {
        (a + b) as u64
    } else {
        u64::MAX
    }
}

/// The difference of `a` and `b`, floored at zero.
pub open spec fn sat_sub(a: u64, b: u64) -> u64 {
    if a >= b {
        (a - b) as u64
    } else {
        0
    }
}

/// `a * bps / 10_000`, reduced to 64 bits the way an `as u64` cast does.
pub open spec fn bps_of(a: u64, bps: u64) -> u64 {
    ((a * bps / 10_000) % 0x1_0000_0000_0000_0000) as u64
}

/// Takes `bps` basis points of `a`, computing in 128 bits and truncating to 64.
pub fn basis_points(a: u64, bps: u64) -> (r: u64)
    ensures
        r == bps_of(a, bps),
{
    proof {
        assert((a as u128) * (bps as u128) <= u64::MAX * u64::MAX) by (nonlinear_arith)
            requires
                a <= u64::MAX,
                bps <= u64::MAX,
        ;
    }
    let wide: u128 = (a as u128) * (bps as u128) / 10_000u128;
    (wide % 0x1_0000_0000_0000_0000u128) as u64
}

/// A balance moved by a signed change, the way the ledger computes it in
/// 128 bits: refused (`None`) when the sum is negative, otherwise the sum
/// reduced to 64 bits as an `as u64` cast does.
pub open spec fn shifted(cur: u64, delta: int) -> Option<u64> {
    let v = cur + delta;
    if v < 0 {
        None
    } else if v <= u64::MAX {
        Some(v as u64)
    } else if v < 0x2_0000_0000_0000_0000 {
        Some((v - 0x1_0000_0000_0000_0000) as u64)
    } else {
        Some((v % 0x1_0000_0000_0000_0000) as u64)
    }
}

/// Moves a balance by a signed change (see `shifted`). The sum must fit in
/// an `i128`, as it must for the 128-bit addition that computes it.
pub fn shift_balance(cur: u64, delta: i128) -> (r: Option<u64>)
    requires
        cur + delta <= i128::MAX,
    ensures
        r == shifted(cur, delta as int),
{
    if delta < 0 {
        if delta <= -0x1_0000_0000_0000_0000i128 {
            return None;
        }
        let amount = (-delta) as u64;
        if cur < amount {
            None
        } else {
            Some(cur - amount)
        }
    } else {
        let v: u128 = cur as u128 + delta as u128;
        if v <= u64::MAX as u128 {
            Some(v as u64)
        } else if v < 0x2_0000_0000_0000_0000u128 {
            Some((v - 0x1_0000_0000_0000_0000u128) as u64)
        } else {
            Some((v % 0x1_0000_0000_0000_0000u128) as u64)
        }
    }
}

} // verus!
