use ecs::bits::BitVector;
use ecs::command::Command;
use ecs::component::Component::{self, Commands, Empty, KeysPressed, Position, Velocity};
use ecs::input::Keys;
use ecs::storage::map::MapStorage;
use ecs::storage::sequence::SequenceStorage;
use ecs::storage::Storage;
use ecs::system::command::CommandSystem;
use ecs::system::keys::KeysSystem;
use ecs::system::movement::MovementSystem;
use ecs::system::System;
use ecs::time::TimeDelta;

use std::cell::RefCell;

struct StubSystem;

impl System for StubSystem {
    fn spec_update(&self, dependent: Component, independent: Component, delta: TimeDelta) -> Component {
        let mut updated = dependent;
        self.update(&mut updated, &independent, &delta);
        updated
    }

    fn update(&self, dependent: &mut Component, independent: &Component, _: &TimeDelta) {
        if let (Position(pos_x, pos_y), Velocity(vel_x, vel_y)) = (dependent, independent) {
            *pos_x += vel_x;
            *pos_y += vel_y;
        }
    }
}

/// Records every pair it is handed, and changes nothing.
struct RecordingSystem {
    seen: RefCell<Vec<(Component, Component)>>,
}

impl System for RecordingSystem {
    fn spec_update(&self, dependent: Component, _: Component, _: TimeDelta) -> Component {
        dependent
    }

    fn update(&self, dependent: &mut Component, independent: &Component, _: &TimeDelta) {
        self.seen.borrow_mut().push((*dependent, *independent));
    }
}

#[test]
fn no_keys_results_in_unmodified_commands() {
    let mut commands = Commands(0.into());
    let keys = KeysPressed(0.into());

    let system = CommandSystem;
    let duration = TimeDelta::new(0, 0);

    system.update(&mut commands, &keys, &duration);
    assert_eq!(commands, Commands(0.into()));

    commands = Commands(0b10.into());
    system.update(&mut commands, &keys, &duration);
    assert_eq!(commands, Commands(0b10.into()));
}

#[test]
fn escape_key_signals_quit() {
    let mut commands = Commands(0.into());
    let mut keys_bits: BitVector = 0.into();
    keys_bits.set(Keys::Escape).unwrap();
    let keys = KeysPressed(keys_bits);

    let system = CommandSystem;
    let duration = TimeDelta::new(0, 0);

    system.update(&mut commands, &keys, &duration);
    let mut commands_bits: BitVector = 0.into();
    commands_bits.set(Command::Quit).unwrap();
    assert_eq!(commands, Commands(commands_bits));
}

#[test]
fn quit_is_added_to_other_commands() {
    let mut commands = Commands(0b100.into());
    CommandSystem.update(&mut commands, &KeysPressed(0b11.into()), &TimeDelta::zero());
    assert_eq!(commands, Commands(0b101.into()));
}

#[test]
fn command_system_ignores_other_variants() {
    let mut position = Position(1, 2);
    CommandSystem.update(&mut position, &KeysPressed(1.into()), &TimeDelta::zero());
    assert_eq!(position, Position(1, 2));
    let mut commands = Commands(0.into());
    CommandSystem.update(&mut commands, &Velocity(1, 1), &TimeDelta::zero());
    assert_eq!(commands, Commands(0.into()));
}

#[test]
fn no_keys_pressed() {
    let mut velocity = Velocity(1, 0);
    let delta = TimeDelta::new(0, 0);
    KeysSystem.update(&mut velocity, &KeysPressed(0.into()), &delta);

    assert_eq!(velocity, Velocity(1, 0));
}

#[test]
fn one_movement_key_pressed() {
    let mut velocity = Velocity(1, 0);
    let delta = TimeDelta::new(0, 0);
    KeysSystem.update(&mut velocity, &KeysPressed((1_u128 << Keys::W as u64).into()), &delta);

    assert_eq!(velocity, Velocity(1, 1));
}

#[test]
fn multiple_movement_keys_pressed() {
    let mut velocity = Velocity(1, 0);
    let delta = TimeDelta::new(0, 0);
    let keys_state = KeysPressed((1_u128 << Keys::W as u64 | 1_u128 << Keys::D as u64).into());
    KeysSystem.update(&mut velocity, &keys_state, &delta);

    assert_eq!(velocity, Velocity(2, 1));
}

#[test]
fn opposite_keys_cancel_and_a_s_lower() {
    let mut velocity = Velocity(0, 0);
    let all = KeysPressed(0b11110.into());
    KeysSystem.update(&mut velocity, &all, &TimeDelta::zero());
    assert_eq!(velocity, Velocity(0, 0));
    let a_and_s = KeysPressed((1_u128 << Keys::A as u64 | 1_u128 << Keys::S as u64).into());
    KeysSystem.update(&mut velocity, &a_and_s, &TimeDelta::zero());
    assert_eq!(velocity, Velocity(-1, -1));
}

#[test]
fn keys_system_saturates_at_bounds() {
    let mut velocity = Velocity(i64::MAX, i64::MIN);
    let keys = KeysPressed((1_u128 << Keys::D as u64 | 1_u128 << Keys::S as u64).into());
    KeysSystem.update(&mut velocity, &keys, &TimeDelta::zero());
    assert_eq!(velocity, Velocity(i64::MAX, i64::MIN));
}

#[test]
fn dependent_is_empty() {
    let mut positions = SequenceStorage::new();
    let mut velocities = SequenceStorage::new();

    positions.add(0, Empty);
    velocities.add(0, Velocity(2, 2));

    let delta = TimeDelta::new(0, 0);
    StubSystem.run(&mut positions, &velocities, &delta);

    assert_eq!(positions.as_slice(), [Empty]);
    assert_eq!(velocities.as_slice(), [Velocity(2, 2)]);
}

#[test]
fn independent_is_empty() {
    let mut positions = SequenceStorage::new();
    let mut velocities = SequenceStorage::new();

    positions.add(0, Position(1, 1));
    velocities.add(0, Empty);

    let delta = TimeDelta::new(0, 0);
    StubSystem.run(&mut positions, &velocities, &delta);

    assert_eq!(positions.as_slice(), [Position(1, 1)]);
    assert_eq!(velocities.as_slice(), [Empty]);
}

#[test]
fn dependent_is_aligned_with_independent() {
    let mut positions = SequenceStorage::new();
    let mut velocities = SequenceStorage::new();

    positions.add(0, Position(1, 1));
    velocities.add(0, Velocity(2, 2));

    let delta = TimeDelta::new(0, 0);
    StubSystem.run(&mut positions, &velocities, &delta);

    assert_eq!(positions.as_slice(), [Position(3, 3)]);
    assert_eq!(velocities.as_slice(), [Velocity(2, 2)]);
}

#[test]
fn run_updates_only_joined_indices() {
    let mut dependents = SequenceStorage::new();
    dependents.add(0, Empty);
    dependents.add(1, Position(1, 1));
    dependents.add(2, Position(2, 2));
    let mut independents = SequenceStorage::new();
    independents.add(0, Velocity(10, 10));
    independents.add(1, Velocity(11, 11));

    let recorder = RecordingSystem { seen: RefCell::new(Vec::new()) };
    recorder.run(&mut dependents, &independents, &TimeDelta::zero());
    assert_eq!(*recorder.seen.borrow(), vec![(Position(1, 1), Velocity(11, 11))]);

    StubSystem.run(&mut dependents, &independents, &TimeDelta::zero());
    assert_eq!(dependents.as_slice(), [Empty, Position(12, 12), Position(2, 2)]);
}

#[test]
fn run_joins_sparse_storages() {
    let mut commands = MapStorage::new();
    let mut keys = MapStorage::new();
    commands.add(4, Commands(0.into()));
    commands.add(7, Commands(0.into()));
    keys.add(4, KeysPressed(1.into()));
    keys.add(7, Empty);
    CommandSystem.run(&mut commands, &keys, &TimeDelta::zero());
    assert_eq!(commands.get(4), Some(&Commands(1.into())));
    assert_eq!(commands.get(7), Some(&Commands(0.into())));
    assert_eq!(commands.get(5), None);
}

#[test]
fn position_is_updated() {
    let mut pos = Position(2, 2);
    let vel = Velocity(1, 1);

    let duration = TimeDelta::new(3, 0);
    let system = MovementSystem;
    system.update(&mut pos, &vel, &duration);

    assert_eq!(pos, Position(5, 5));
}

#[test]
fn movement_uses_whole_seconds_and_saturates() {
    let mut pos = Position(0, 10);
    MovementSystem.update(&mut pos, &Velocity(4, -3), &TimeDelta::new(2, 999_999_999));
    assert_eq!(pos, Position(8, 4));
    MovementSystem.update(&mut pos, &Velocity(4, -3), &TimeDelta::new(0, 999_999_999));
    assert_eq!(pos, Position(8, 4));
    let mut far = Position(i64::MAX - 1, i64::MIN + 1);
    MovementSystem.update(&mut far, &Velocity(i64::MAX, i64::MIN), &TimeDelta::new(u64::MAX, 0));
    assert_eq!(far, Position(i64::MAX, i64::MIN));
}
