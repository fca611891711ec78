use vstd::prelude::*;

use crate::bits::Flag;

verus! {

/// Commands issued by the player, each naming one bit of a command vector.
#[derive(Clone, Copy, Debug, PartialEq, Eq, Structural)]
pub enum Command {
    Quit,
}

impl Flag for Command {
    open spec fn spec_bit(&self) -> u128 {
        match self {
            Command::Quit => 0,
        }
    }

    fn bit(self) -> (r: u128) {
        match self {
            Command::Quit => 0,
        }
    }
}

} // verus!
