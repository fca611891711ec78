use vstd::prelude::*;

use crate::component::Component;
use crate::storage::map::MapStorage;
use crate::storage::sequence::{seq_add, SequenceStorage};

verus! {

/// The containers of every tracked component kind, and the player's index.
pub struct World {
    pub commands: MapStorage,
    pub keys: MapStorage,
    pub positions: SequenceStorage,
    pub velocities: SequenceStorage,
    pub player_id: Option<usize>,
}

/// The contents of a world, storage by storage.
pub struct WorldModel {
    pub commands: Map<usize, Component>,
    pub keys: Map<usize, Component>,
    pub positions: Seq<Component>,
    pub velocities: Seq<Component>,
    pub player_id: Option<usize>,
}

impl View for World {
    type V = WorldModel;

    open spec fn view(&self) -> WorldModel {
        WorldModel {
            commands: self.commands@,
            keys: self.keys@,
            positions: self.positions@,
            velocities: self.velocities@,
            player_id: self.player_id,
        }
    }
}

/// `m` after storing `c` at `index` in the storage of its kind; `Empty` is
/// stored nowhere.
pub open spec fn commit_one(m: WorldModel, c: Component, index: usize) -> WorldModel {
    match c {
        Component::Position(_, _) => WorldModel {
            commands: m.commands,
            keys: m.keys,
            positions: seq_add(m.positions, index, c),
            velocities: m.velocities,
            player_id: m.player_id,
        },
        Component::Velocity(_, _) => WorldModel {
            commands: m.commands,
            keys: m.keys,
            positions: m.positions,
            velocities: seq_add(m.velocities, index, c),
            player_id: m.player_id,
        },
        Component::KeysPressed(_) => WorldModel {
            commands: m.commands,
            keys: m.keys.insert(index, c),
            positions: m.positions,
            velocities: m.velocities,
            player_id: m.player_id,
        },
        Component::Commands(_) => WorldModel {
            commands: m.commands.insert(index, c),
            keys: m.keys,
            positions: m.positions,
            velocities: m.velocities,
            player_id: m.player_id,
        },
        Component::Empty => m,
    }
}

/// `m` after storing each of `cs`, in order, at `index`.
pub open spec fn commit_all(m: WorldModel, cs: Seq<Component>, index: usize) -> WorldModel
    decreases cs.len(),
{
    if cs.len() == 0 {
        m
    } else {
        commit_one(commit_all(m, cs.drop_last(), index), cs.last(), index)
    }
}

/// The shared slot index after recording `c`: raised to the size of the
/// dense storage of `c`'s kind, never lowered.
pub open spec fn slot_after(m: WorldModel, c: Component, index: usize) -> usize {
    match c {
        Component::Position(_, _) => if index < m.positions.len() {
            m.positions.len() as usize
        } else {
            index
        },
        Component::Velocity(_, _) => if index < m.velocities.len() {
            m.velocities.len() as usize
        } else {
            index
        },
        _ => index,
    }
}

/// The world after a builder commits: every recorded component stored at
/// `index`, and `index` made the player's where `is_player` holds.
pub open spec fn built(m: WorldModel, cs: Seq<Component>, index: usize, is_player: bool) -> WorldModel {
    let w = commit_all(m, cs, index);
    WorldModel {
        commands: w.commands,
        keys: w.keys,
        positions: w.positions,
        velocities: w.velocities,
        player_id: if is_player {
            Some(index)
        } else {
            w.player_id
        },
    }
}

impl World {
    /// A world with every storage empty and no player.
    pub fn new() -> (r: World)
        ensures
            r@.commands == Map::<usize, Component>::empty(),
            r@.keys == Map::<usize, Component>::empty(),
            r@.positions == Seq::<Component>::empty(),
            r@.velocities == Seq::<Component>::empty(),
            r@.player_id == None::<usize>,
    {
        World {
            commands: MapStorage::new(),
            keys: MapStorage::new(),
            positions: SequenceStorage::new(),
            velocities: SequenceStorage::new(),
            player_id: None,
        }
    }

    /// Starts the construction of an entity in this world.
    pub fn create_entity(&mut self) -> (r: EntityBuilder<'_>)
        ensures
            *r.world == *old(self),
            *final(r.world) == *final(self),
            r.components@ == Seq::<Component>::empty(),
            r.index == 0,
            !r.is_player,
    {
        EntityBuilder { world: self, components: Vec::new(), index: 0, is_player: false }
    }

    /// The index of the player entity, if one was built.
    pub fn player_id(&self) -> (r: Option<usize>)
        ensures
            r == self@.player_id,
    {
        self.player_id
    }
}

/// Staged construction of one entity: the components recorded so far, the
/// slot index they will share, and whether the entity becomes the player.
///
/// The builder holds the world exclusively until `build` commits; its fields
/// are public so that contracts can speak of them.
pub struct EntityBuilder<'a> {
    pub world: &'a mut World,
    pub components: Vec<Component>,
    pub index: usize,
    pub is_player: bool,
}

impl<'a> EntityBuilder<'a> {
    /// Records `component`; a dense kind raises the shared index to the size
    /// of its storage.
    pub fn with_component(self, component: Component) -> (r: EntityBuilder<'a>)
        ensures
            *r.world == *old(self.world),
            *final(r.world) == *final(self.world),
            r.components@ == self.components@.push(component),
            r.index == slot_after((*old(self.world))@, component, self.index),
            r.is_player == self.is_player,
    {
        let mut b = self;
        match component {
            Component::Position(_, _) => {
                let size = b.world.positions.size();
                if b.index < size {
                    b.index = size;
                }
            },
            Component::Velocity(_, _) => {
                let size = b.world.velocities.size();
                if b.index < size {
                    b.index = size;
                }
            },
            _ => {},
        }
        b.components.push(component);
        b
    }

    /// Marks the entity under construction as the player.
    pub fn make_player(self) -> (r: EntityBuilder<'a>)
        ensures
            *r.world == *old(self.world),
            *final(r.world) == *final(self.world),
            r.components@ == self.components@,
            r.index == self.index,
            r.is_player,
    {
        let mut b = self;
        b.is_player = true;
        b
    }

    /// Stores every recorded component at the shared index, in the order
    /// recorded, and makes that index the player's where marked.
    pub fn build(self)
        requires
            self.index < usize::MAX,
        ensures
            (*final(self.world))@ == built((*old(self.world))@, self.components@, self.index, self.is_player),
    {
        let ghost m0 = (*old(self.world))@;
        let ghost cs = self.components@;
        let n = self.components.len();
        let index = self.index;
        let world = self.world;
        for k in 0..n
            invariant
                n == cs.len(),
                cs == self.components@,
                index == self.index,
                index < usize::MAX,
                world@ == commit_all(m0, cs.take(k as int), index),
        {
            let component = self.components[k];
            proof {
                assert(cs.take(k + 1).drop_last() =~= cs.take(k as int));
            }
            match component {
                Component::Position(_, _) => world.positions.add(index, component),
                Component::Velocity(_, _) => world.velocities.add(index, component),
                Component::KeysPressed(_) => world.keys.add(index, component),
                Component::Commands(_) => world.commands.add(index, component),
                Component::Empty => {},
            }
        }
        proof {
            assert(cs.take(n as int) =~= cs);
        }
        if self.is_player {
            world.player_id = Some(index);
        }
    }
}

} // verus!
