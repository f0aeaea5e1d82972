//! Saturating (clamp-at-bound) arithmetic helpers.
//!
//! Every monetary quantity in the ledger is an unsigned 64-bit amount
//! and every timestamp a signed 64-bit second count; all of them move
//! only through these helpers, which clamp at the numeric bounds and
//! never wrap.

use vstd::prelude::*;

verus! {

/// Mathematical value of a `u64` addition clamped at `u64::MAX`.
pub open spec fn sat_add_u64(a: u64, b: u64) -> u64 {
    if a + b > u64::MAX {
        u64::MAX
    } else {
        (a + b) as u64
    }
}

/// Mathematical value of a `u64` subtraction clamped at zero.
pub open spec fn sat_sub_u64(a: u64, b: u64) -> u64 {
    if a < b {
        0u64
    } else {
        (a - b) as u64
    }
}

/// Mathematical value of a `u32` addition clamped at `u32::MAX`.
pub open spec fn sat_add_u32(a: u32, b: u32) -> u32 {
    if a + b > u32::MAX {
        u32::MAX
    } else {
        (a + b) as u32
    }
}

/// Mathematical value of a `u32` subtraction clamped at zero.
pub open spec fn sat_sub_u32(a: u32, b: u32) -> u32 {
    if a < b {
        0u32
    } else {
        (a - b) as u32
    }
}

/// Mathematical value of a `u16` addition clamped at `u16::MAX`.
pub open spec fn sat_add_u16(a: u16, b: u16) -> u16 {
    if a + b > u16::MAX {
        u16::MAX
    } else {
        (a + b) as u16
    }
}

/// Mathematical value of a `u128` multiplication clamped at `u128::MAX`.
pub open spec fn sat_mul_u128(a: u128, b: u128) -> u128 {
    if a * b > u128::MAX {
        u128::MAX
    } else {
        (a * b) as u128
    }
}

/// Mathematical value of an `i64` addition clamped at the `i64` bounds.
pub open spec fn sat_add_i64(a: i64, b: i64) -> i64 {
    if a + b > i64::MAX {
        i64::MAX
    } else if a + b < i64::MIN {
        i64::MIN
    } else {
        (a + b) as i64
    }
}

/// Mathematical value of an `i64` subtraction clamped at the `i64` bounds.
pub open spec fn sat_sub_i64(a: i64, b: i64) -> i64 {
    if a - b > i64::MAX {
        i64::MAX
    } else if a - b < i64::MIN {
        i64::MIN
    } else {
        (a - b) as i64
    }
}

pub fn add_sat_u64(a: u64, b: u64) -> (r: u64)
    ensures
        r == sat_add_u64(a, b),
{
    if a > u64::MAX - b {
        u64::MAX
    } else {
        a + b
    }
}

pub fn sub_sat_u64(a: u64, b: u64) -> (r: u64)
    ensures
        r == sat_sub_u64(a, b),
{
    if a < b {
        0
    } else {
        a - b
    }
}

pub fn add_sat_u32(a: u32, b: u32) -> (r: u32)
    ensures
        r == sat_add_u32(a, b),
{
    if a > u32::MAX - b {
        u32::MAX
    } else {
        a + b
    }
}

pub fn sub_sat_u32(a: u32, b: u32) -> (r: u32)
    ensures
        r == sat_sub_u32(a, b),
{
    if a < b {
        0
    } else {
        a - b
    }
}

pub fn add_sat_u16(a: u16, b: u16) -> (r: u16)
    ensures
        r == sat_add_u16(a, b),
{
    if a > u16::MAX - b {
        u16::MAX
    } else {
        a + b
    }
}

pub fn mul_sat_u128(a: u128, b: u128) -> (r: u128)
    ensures
        r == sat_mul_u128(a, b),
{
    match a.checked_mul(b) {
        Some(p) => p,
        None => u128::MAX,
    }
}

/// Share of `amount` given by a basis-point factor, truncated toward
/// zero and clamped at `u64::MAX` (10000 basis points are 100%).
pub open spec fn spec_bps_apply(amount: u64, bps: u16) -> u64 {
    let share = amount * bps / 10000;
    if share > u64::MAX {
        u64::MAX
    } else {
        share as u64
    }
}

pub fn bps_apply(amount: u64, bps: u16) -> (r: u64)
    ensures
        r == spec_bps_apply(amount, bps),
{
    proof {
        assert((amount as int) * (bps as int) <= (u64::MAX as int) * (u16::MAX as int))
            by (nonlinear_arith)
            requires
                0 <= amount <= u64::MAX,
                0 <= bps <= u16::MAX,
        ;
    }
    let wide: u128 = (amount as u128) * (bps as u128);
    let share: u128 = wide / 10000;
    if share > u64::MAX as u128 {
        u64::MAX
    } else {
        share as u64
    }
}

pub fn add_sat_i64(a: i64, b: i64) -> (r: i64)
    ensures
        r == sat_add_i64(a, b),
{
    if b >= 0 {
        if a > i64::MAX - b {
            i64::MAX
        } else {
            a + b
        }
    } else {
        if a < i64::MIN - b {
            i64::MIN
        } else {
            a + b
        }
    }
}

pub fn sub_sat_i64(a: i64, b: i64) -> (r: i64)
    ensures
        r == sat_sub_i64(a, b),
{
    if b >= 0 {
        if a < i64::MIN + b {
            i64::MIN
        } else {
            a - b
        }
    } else {
        if a > i64::MAX + b {
            i64::MAX
        } else {
            a - b
        }
    }
}

} // verus!
