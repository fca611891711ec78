use vstd::prelude::*;

use crate::component::Component;
use crate::system::System;
use crate::time::TimeDelta;

verus! {

/// `x` clamped to the range of `i64`.
pub open spec fn clamp_i64(x: int) -> i64 {
    if x < i64::MIN {
        i64::MIN
    } else if x > i64::MAX {
        i64::MAX
    } else {
        x as i64
    }
}

/// `x` saturated into the range of `i64`.
pub(crate) fn saturate(x: i128) -> (r: i64)
    ensures
        r == clamp_i64(x as int),
{
    if x < i64::MIN as i128 {
        i64::MIN
    } else if x > i64::MAX as i128 {
        i64::MAX
    } else {
        x as i64
    }
}

/// One coordinate moved at `speed` units per second for `secs` seconds.
pub open spec fn moved(coord: i64, speed: i64, secs: int) -> i64 {
    clamp_i64(coord + speed * secs)
}

/// Advances positions by their velocities over the whole seconds of a delta.
pub struct MovementSystem;

impl System for MovementSystem {
    open spec fn spec_update(&self, dependent: Component, independent: Component, delta: TimeDelta) -> Component {
        match (dependent, independent) {
            (Component::Position(px, py), Component::Velocity(vx, vy)) => {
                let secs = delta@ / 1_000_000_000;
                Component::Position(moved(px, vx, secs), moved(py, vy, secs))
            },
            _ => dependent,
        }
    }

    fn update(&self, dependent: &mut Component, independent: &Component, delta: &TimeDelta) {
        if let (Component::Position(px, py), Component::Velocity(vx, vy)) = (*dependent, *independent) {
            let secs = delta.as_secs();
            *dependent = Component::Position(advance(px, vx, secs), advance(py, vy, secs));
        }
    }
}

/// One coordinate moved at `speed` units per second for `secs` seconds,
/// saturating at the bounds of `i64`.
fn advance(coord: i64, speed: i64, secs: u64) -> (r: i64)
    ensures
        r == moved(coord, speed, secs as int),
{
    proof {
        let s = secs as int;
        let v = speed as int;
        assert(-0x8000_0000_0000_0000 * s <= v * s <= 0x7fff_ffff_ffff_ffff * s) by (nonlinear_arith)
            requires
                0 <= s,
                -0x8000_0000_0000_0000 <= v <= 0x7fff_ffff_ffff_ffff,
        ;
    }
    let step = (speed as i128) * (secs as i128);
    saturate(coord as i128 + step)
}

} // verus!
