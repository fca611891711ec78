use vstd::prelude::*;

use crate::bits::Flag;

verus! {

/// Keys on a keyboard, each naming one bit of a key-state vector.
#[derive(Clone, Copy, Debug, PartialEq, Eq, Structural)]
pub enum Keys {
    Escape,
    W,
    S,
    A,
    D,
}

impl Flag for Keys {
    open spec fn spec_bit(&self) -> u128 {
        match self {
            Keys::Escape => 0,
            Keys::W => 1,
            Keys::S => 2,
            Keys::A => 3,
            Keys::D => 4,
        }
    }

    fn bit(self) -> (r: u128) {
        match self {
            Keys::Escape => 0,
            Keys::W => 1,
            Keys::S => 2,
            Keys::A => 3,
            Keys::D => 4,
        }
    }
}

} // verus!
