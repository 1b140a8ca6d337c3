//! Fixed-point arithmetic on distances, speeds and time.

use vstd::prelude::*;

verus! {

/// The distance, in thousandths of a unit, that a speed of `speed` units
/// per second covers in `delta` microseconds at `scale` thousandths of that
/// speed. A fraction of a thousandth is dropped.
pub open spec fn distance_covered(speed: u32, scale: u32, delta: u64) -> nat {
    (speed * scale * delta / 1_000_000) as nat
}

/// Computes `distance_covered`.
pub fn travel(speed: u32, scale: u32, delta: u64) -> (distance: u128)
    ensures
        distance == distance_covered(speed, scale, delta),
{
    assert(speed * scale <= 0xffff_ffff * 0xffff_ffff) by (nonlinear_arith)
        requires
            speed <= 0xffff_ffff,
            scale <= 0xffff_ffff,
    ;
    let rate: u64 = (speed as u64) * (scale as u64);
    assert(rate * delta <= 0xffff_fffe_0000_0001 * 0xffff_ffff_ffff_ffff) by (nonlinear_arith)
        requires
            rate <= 0xffff_fffe_0000_0001,
            delta <= 0xffff_ffff_ffff_ffff,
    ;
    let product: u128 = (rate as u128) * (delta as u128);
    product / 1_000_000
}

/// A position moved by `distance` towards the positive or the negative
/// side; it stops at the end of the representable range.
pub open spec fn shifted(position: i64, forward: bool, distance: nat) -> i64 {
    if forward {
        if position + distance > i64::MAX {
            i64::MAX
        } else {
            (position + distance) as i64
        }
    } else {
        if position - distance < i64::MIN {
            i64::MIN
        } else {
            (position - distance) as i64
        }
    }
}

/// Computes `shifted`.
pub fn shift(position: i64, forward: bool, distance: u128) -> (moved: i64)
    ensures
        moved == shifted(position, forward, distance as nat),
{
    if distance > 0xffff_ffff_ffff_ffff {
        return if forward {
            i64::MAX
        } else {
            i64::MIN
        };
    }
    let step: i128 = distance as i128;
    let target: i128 = if forward {
        position as i128 + step
    } else {
        position as i128 - step
    };
    if target > i64::MAX as i128 {
        i64::MAX
    } else if target < i64::MIN as i128 {
        i64::MIN
    } else {
        target as i64
    }
}

} // verus!
