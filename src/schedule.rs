use vstd::prelude::*;

use crate::bits::{BitVector, Flag};
use crate::command::Command;
use crate::component::Component;
use crate::execution::ExecutionFlow;
use crate::input::Keys;
use crate::storage::sequence::seq_contents;
use crate::storage::{Storage, StorageMut};
use crate::system::command::CommandSystem;
use crate::system::movement::MovementSystem;
use crate::system::{run_result, System};
use crate::time::TimeDelta;
use crate::world::World;

verus! {

/// The key states after the player's Escape key was seen: its bit is set in
/// the player's `KeysPressed` entry, where both exist.
pub open spec fn keys_after_escape(
    keys: Map<usize, Component>,
    player: Option<usize>,
    escape: bool,
) -> Map<usize, Component> {
    match player {
        Some(p) => if escape && keys.contains_key(p) {
            match keys[p] {
                Component::KeysPressed(k) => keys.insert(
                    p,
                    Component::KeysPressed(BitVector(k.0 | (1u128 << Keys::Escape.spec_bit()))),
                ),
                _ => keys,
            }
        } else {
            keys
        },
        None => keys,
    }
}

/// Whether the player's commands hold Quit.
pub open spec fn quit_requested(commands: Map<usize, Component>, player: Option<usize>) -> bool {
    match player {
        Some(p) => commands.contains_key(p) && match commands[p] {
            Component::Commands(c) => c.has(Command::Quit.spec_bit()),
            _ => false,
        },
        None => false,
    }
}

/// The systems that update a world once per frame.
pub struct Systems {
    pub command: CommandSystem,
    pub movement: MovementSystem,
}

impl Systems {
    /// The command and movement systems.
    pub fn new() -> (r: Systems) {
        Systems { command: CommandSystem, movement: MovementSystem }
    }

    /// One frame: records whether Escape was seen on the player's keys, runs
    /// the command system and then the movement system, and asks to quit when
    /// the player's commands hold Quit.
    pub fn tick(&self, world: &mut World, escape: bool, delta: &TimeDelta) -> (r: ExecutionFlow)
        ensures
            final(world)@.player_id == old(world)@.player_id,
            final(world)@.keys == keys_after_escape(old(world)@.keys, old(world)@.player_id, escape),
            final(world)@.velocities == old(world)@.velocities,
            final(world)@.commands == run_result(
                |d: Component, i: Component| self.command.spec_update(d, i, *delta),
                old(world)@.commands,
                final(world)@.keys,
            ),
            final(world)@.positions.len() == old(world)@.positions.len(),
            seq_contents(final(world)@.positions) == run_result(
                |d: Component, i: Component| self.movement.spec_update(d, i, *delta),
                seq_contents(old(world)@.positions),
                seq_contents(old(world)@.velocities),
            ),
            (r == ExecutionFlow::Quit) == quit_requested(final(world)@.commands, final(world)@.player_id),
    {
        let player = world.player_id();
        proof {
            world.positions.lemma_size_fits();
        }
        if escape {
            if let Some(p) = player {
                match world.keys.get_mut(p) {
                    Some(entry) => {
                        if let Component::KeysPressed(k) = *entry {
                            let mut pressed = k;
                            let _ = pressed.set(Keys::Escape);
                            *entry = Component::KeysPressed(pressed);
                        }
                    },
                    None => {},
                }
            }
        }
        self.command.run(&mut world.commands, &world.keys, delta);
        self.movement.run(&mut world.positions, &world.velocities, delta);
        let mut quit = false;
        if let Some(p) = player {
            match world.commands.get(p) {
                Some(Component::Commands(c)) => {
                    quit = c.is_set(Command::Quit);
                },
                _ => {},
            }
        }
        proof {
            let w0 = old(world)@;
            let w1 = world@;
            world.positions.lemma_size_fits();
            let moved = run_result(
                |d: Component, i: Component| self.movement.spec_update(d, i, *delta),
                seq_contents(w0.positions),
                seq_contents(w0.velocities),
            );
            assert(moved.dom() =~= seq_contents(w0.positions).dom());
            if w1.positions.len() < w0.positions.len() {
                assert(seq_contents(w0.positions).contains_key(w1.positions.len() as usize));
            } else if w1.positions.len() > w0.positions.len() {
                assert(seq_contents(w1.positions).contains_key(w0.positions.len() as usize));
            }
        }
        if quit {
            ExecutionFlow::Quit
        } else {
            ExecutionFlow::Continue
        }
    }
}

} // verus!
