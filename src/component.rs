use vstd::prelude::*;

use crate::bits::BitVector;

verus! {

/// A piece of data attached to an entity in one storage.
///
/// Coordinates are whole world units.
#[derive(Clone, Copy, Debug, PartialEq, Eq, Structural)]
pub enum Component {
    /// The entity lacks this component.
    Empty,
    /// The world position of an entity.
    Position(i64, i64),
    /// The world velocity of an entity, in units per second.
    Velocity(i64, i64),
    /// The state of the keys on the keyboard.
    KeysPressed(BitVector),
    /// The commands currently being issued.
    Commands(BitVector),
}

impl Component {
    /// Whether this is the `Empty` sentinel.
    pub fn is_empty(&self) -> (r: bool)
        ensures
            r == (*self is Empty),
    {
        match self {
            Component::Empty => true,
            _ => false,
        }
    }
}

} // verus!
