use vstd::prelude::*;

use crate::bits::{BitVector, Flag};
use crate::command::Command;
use crate::component::Component;
use crate::input::Keys;
use crate::system::System;
use crate::time::TimeDelta;

verus! {

/// Turns pressed keys into commands: Escape issues Quit.
pub struct CommandSystem;

impl System for CommandSystem {
    open spec fn spec_update(&self, dependent: Component, independent: Component, delta: TimeDelta) -> Component {
        match (dependent, independent) {
            (Component::Commands(commands), Component::KeysPressed(keys)) => {
                if keys.has(Keys::Escape.spec_bit()) {
                    Component::Commands(BitVector(commands.0 | (1u128 << Command::Quit.spec_bit())))
                } else {
                    dependent
                }
            },
            _ => dependent,
        }
    }

    fn update(&self, dependent: &mut Component, independent: &Component, delta: &TimeDelta) {
        if let (Component::Commands(commands), Component::KeysPressed(keys)) = (*dependent, *independent) {
            if keys.is_set(Keys::Escape) {
                let mut issued = commands;
                let _ = issued.set(Command::Quit);
                *dependent = Component::Commands(issued);
            }
        }
    }
}

} // verus!
