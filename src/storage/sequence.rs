use vstd::prelude::*;

use crate::component::Component;
use crate::storage::{Storage, StorageMut};

verus! {

/// Dense storage: a contiguous sequence indexed by entity, with gaps held as
/// `Component::Empty`.
pub struct SequenceStorage(Vec<Component>);

/// The components indexed by position, as a map over the present indices.
pub open spec fn seq_contents(s: Seq<Component>) -> Map<usize, Component> {
    Map::new(|i: usize| (i as int) < s.len(), |i: usize| s[i as int])
}

/// `s` after storing `c` at `index`: a slot already there is overwritten, a
/// slot beyond the end is reached by appending `Empty` up to `index`.
pub open spec fn seq_add(s: Seq<Component>, index: usize, c: Component) -> Seq<Component> {
    if index < s.len() {
        s.update(index as int, c)
    } else {
        s + Seq::new((index - s.len()) as nat, |j: int| Component::Empty) + seq![c]
    }
}

/// After `c` is stored at `i`, index `i` reads back as `c`, and every index
/// strictly between the previous last slot and `i` reads as `Empty`: present,
/// never absent.
pub proof fn lemma_add_then_get(s: Seq<Component>, i: usize, c: Component)
    ensures
        seq_contents(seq_add(s, i, c)).contains_key(i),
        seq_contents(seq_add(s, i, c))[i] == c,
        forall|j: usize|
            s.len() <= j < i ==> #[trigger] seq_contents(seq_add(s, i, c)).contains_key(j)
                && seq_contents(seq_add(s, i, c))[j] == Component::Empty,
{
}

impl View for SequenceStorage {
    type V = Seq<Component>;

    closed spec fn view(&self) -> Seq<Component> {
        self.0@
    }
}

impl SequenceStorage {
    /// An empty storage.
    pub fn new() -> (r: SequenceStorage)
        ensures
            r@ == Seq::<Component>::empty(),
    {
        SequenceStorage(Vec::new())
    }

    /// The number of slots, gaps included.
    pub fn size(&self) -> (r: usize)
        ensures
            r == self@.len(),
    {
        self.0.len()
    }

    /// Stores `component` at `index`, first filling every slot between the
    /// current end and `index` with `Component::Empty`.
    pub fn add(&mut self, index: usize, component: Component)
        requires
            index < usize::MAX,
        ensures
            final(self)@ == seq_add(old(self)@, index, component),
    {
        if index < self.0.len() {
            self.0.set(index, component);
        } else {
            ensure_index_fits(index, &mut self.0);
            self.0.push(component);
            proof {
                let pad = Seq::new((index - old(self)@.len()) as nat, |j: int| Component::Empty);
                assert(self@ =~= old(self)@ + pad + seq![component]);
            }
        }
    }

    /// The number of slots fits in a `usize`.
    pub proof fn lemma_size_fits(&self)
        ensures
            self@.len() <= usize::MAX,
    {
        assert(self.0.len() == self.0@.len());
    }

    /// The slots in index order.
    pub fn as_slice(&self) -> (r: &[Component])
        ensures
            r@ == self@,
    {
        self.0.as_slice()
    }
}

/// Grows `components` to length `index` at least, filling new slots with
/// `Component::Empty`.
fn ensure_index_fits(index: usize, components: &mut Vec<Component>)
    ensures
        final(components)@.len() == if index < old(components)@.len() {
            old(components)@.len()
        } else {
            index as nat
        },
        forall|j: int|
            0 <= j < final(components)@.len() ==> #[trigger] final(components)@[j] == if j < old(
                components,
            )@.len() {
                old(components)@[j]
            } else {
                Component::Empty
            },
{
    let allocated = components.len();
    if index > allocated {
        components.reserve(index - allocated);
    }
    while components.len() < index
        invariant
            components@.len() >= old(components)@.len(),
            index >= old(components)@.len() ==> components@.len() <= index,
            index < old(components)@.len() ==> components@.len() == old(components)@.len(),
            forall|j: int|
                0 <= j < components@.len() ==> #[trigger] components@[j] == if j < old(
                    components,
                )@.len() {
                    old(components)@[j]
                } else {
                    Component::Empty
                },
        decreases index - components@.len(),
    {
        components.push(Component::Empty);
    }
}

impl Storage for SequenceStorage {
    open spec fn contents(&self) -> Map<usize, Component> {
        seq_contents(self@)
    }

    fn get(&self, index: usize) -> (r: Option<&Component>) {
        if index < self.0.len() {
            Some(&self.0[index])
        } else {
            None
        }
    }
}

impl StorageMut for SequenceStorage {
    open spec fn is_dense(&self) -> bool {
        true
    }

    fn indices(&self) -> (r: Vec<usize>) {
        let mut r: Vec<usize> = Vec::new();
        let n = self.0.len();
        for i in 0..n
            invariant
                n == self@.len(),
                r@.len() == i,
                forall|j: int| 0 <= j < i ==> #[trigger] r@[j] == j,
        {
            r.push(i);
        }
        proof {
            assert forall|i: usize| r@.contains(i) <==> self.contents().contains_key(i) by {
                if (i as int) < n {
                    assert(r@[i as int] == i);
                }
            }
        }
        r
    }

    fn get_mut(&mut self, index: usize) -> (r: Option<&mut Component>) {
        if index < self.0.len() {
            Some(&mut self.0[index])
        } else {
            None
        }
    }
}

} // verus!
