use vstd::prelude::*;

use crate::bits::{BitVector, Flag};
use crate::component::Component;
use crate::input::Keys;
use crate::system::movement::{clamp_i64, saturate};
use crate::system::System;
use crate::time::TimeDelta;

verus! {

/// 1 where `key` is pressed in `state`, else 0.
pub open spec fn pressed(state: BitVector, key: Keys) -> int {
    if state.has(key.spec_bit()) {
        1
    } else {
        0
    }
}

/// Steers velocities by the movement keys: W and S raise and lower the
/// vertical component, D and A raise and lower the horizontal one, by one
/// unit each.
pub struct KeysSystem;

impl System for KeysSystem {
    open spec fn spec_update(&self, dependent: Component, independent: Component, delta: TimeDelta) -> Component {
        match (dependent, independent) {
            (Component::Velocity(x, y), Component::KeysPressed(state)) => Component::Velocity(
                clamp_i64(x + pressed(state, Keys::D) - pressed(state, Keys::A)),
                clamp_i64(y + pressed(state, Keys::W) - pressed(state, Keys::S)),
            ),
            _ => dependent,
        }
    }

    fn update(&self, dependent: &mut Component, independent: &Component, delta: &TimeDelta) {
        if let (Component::Velocity(x, y), Component::KeysPressed(state)) = (*dependent, *independent) {
            let dx = key_step(&state, Keys::D) - key_step(&state, Keys::A);
            let dy = key_step(&state, Keys::W) - key_step(&state, Keys::S);
            *dependent = Component::Velocity(saturate(x as i128 + dx), saturate(y as i128 + dy));
        }
    }
}

/// 1 where `key` is pressed in `state`, else 0.
fn key_step(state: &BitVector, key: Keys) -> (r: i128)
    ensures
        r == pressed(*state, key),
{
    if state.is_set(key) {
        1
    } else {
        0
    }
}

} // verus!
