use vstd::prelude::*;

use crate::component::Component;
use crate::storage::{Storage, StorageMut};
use crate::time::TimeDelta;

pub mod command;
pub mod keys;
pub mod movement;

verus! {

/// Whether a run pairs the dependent and the independent component at `i`:
/// both are present and neither is `Empty`.
pub open spec fn joins(dep: Map<usize, Component>, indep: Map<usize, Component>, i: usize) -> bool {
    &&& dep.contains_key(i)
    &&& dep[i] != Component::Empty
    &&& indep.contains_key(i)
    &&& indep[i] != Component::Empty
}

/// The indices at which a run applies `update`.
pub open spec fn joined(dep: Map<usize, Component>, indep: Map<usize, Component>) -> Set<usize> {
    Set::new(|i: usize| joins(dep, indep, i))
}

/// The dependent components after a run whose single update is `update`:
/// each joined component is updated against its independent partner, every
/// other one is kept.
pub open spec fn run_result(
    update: spec_fn(Component, Component) -> Component,
    dep: Map<usize, Component>,
    indep: Map<usize, Component>,
) -> Map<usize, Component> {
    Map::new(
        |i: usize| dep.contains_key(i),
        |i: usize|
            if joins(dep, indep, i) {
                update(dep[i], indep[i])
            } else {
                dep[i]
            },
    )
}

/// A run applies `update` at the joined indices alone: a joined component is
/// replaced by its update, every other dependent component is kept, no
/// index is added or dropped, and the joined indices are finitely many, all
/// of them dependent indices.
pub proof fn lemma_run_updates_joined(
    update: spec_fn(Component, Component) -> Component,
    dep: Map<usize, Component>,
    indep: Map<usize, Component>,
)
    requires
        dep.dom().finite(),
    ensures
        run_result(update, dep, indep).dom() == dep.dom(),
        joined(dep, indep).subset_of(dep.dom()),
        joined(dep, indep).finite(),
        forall|i: usize| #[trigger]
            joined(dep, indep).contains(i) ==> run_result(update, dep, indep)[i] == update(
                dep[i],
                indep[i],
            ),
        forall|i: usize|
            dep.contains_key(i) && !joined(dep, indep).contains(i) ==> #[trigger] run_result(
                update,
                dep,
                indep,
            )[i] == dep[i],
{
    assert(run_result(update, dep, indep).dom() =~= dep.dom());
    vstd::set_lib::lemma_len_subset(joined(dep, indep), dep.dom());
}

/// A per-tick behavior that updates one kind of component from another.
pub trait System {
    /// The dependent component after one update; an unexpected pair of
    /// variants leaves it unchanged.
    spec fn spec_update(&self, dependent: Component, independent: Component, delta: TimeDelta) -> Component;

    /// Updates `dependent` in place from `independent` over `delta`.
    fn update(&self, dependent: &mut Component, independent: &Component, delta: &TimeDelta)
        ensures
            *final(dependent) == self.spec_update(*old(dependent), *independent, *delta),
    ;

    /// Visits `dependents` in iteration order and updates every component
    /// that is not `Empty` and whose independent partner at the same index is
    /// present and not `Empty`.
    fn run<A: StorageMut, B: Storage>(&self, dependents: &mut A, independents: &B, delta: &TimeDelta)
        ensures
            final(dependents).contents() == run_result(
                |d: Component, i: Component| self.spec_update(d, i, *delta),
                old(dependents).contents(),
                independents.contents(),
            ),
    {
        let ghost dep0 = dependents.contents();
        let ghost indep = independents.contents();
        let order = dependents.indices();
        let n = order.len();
        for k in 0..n
            invariant
                n == order@.len(),
                order@.no_duplicates(),
                forall|i: usize| order@.contains(i) <==> dep0.contains_key(i),
                indep == independents.contents(),
                dependents.contents().dom() == dep0.dom(),
                forall|i: usize|
                    #[trigger] dependents.contents().contains_key(i) ==> dependents.contents()[i]
                        == if order@.take(k as int).contains(i) && joins(dep0, indep, i) {
                        self.spec_update(dep0[i], indep[i], *delta)
                    } else {
                        dep0[i]
                    },
        {
            let index = order[k];
            let ghost before = dependents.contents();
            proof {
                assert(order@.take(k + 1) =~= order@.take(k as int).push(index));
                if order@.take(k as int).contains(index) {
                    let j = choose|j: int| 0 <= j < k && order@.take(k as int)[j] == index;
                    assert(order@[j] == order@[k as int]);
                }
            }
            match dependents.get_mut(index) {
                Some(dependent) => {
                    if !dependent.is_empty() {
                        match independents.get(index) {
                            Some(independent) => {
                                if !independent.is_empty() {
                                    self.update(dependent, independent, delta);
                                }
                            },
                            None => {},
                        }
                    }
                },
                None => {},
            }
            proof {
                let now = dependents.contents();
                assert(before[index] == dep0[index]);
                if joins(dep0, indep, index) {
                    assert(now == before.insert(index, self.spec_update(dep0[index], indep[index], *delta)));
                } else {
                    assert(now == before);
                }
                assert forall|i: usize| #[trigger] now.contains_key(i) implies now[i] == if order@.take(
                    k + 1,
                ).contains(i) && joins(dep0, indep, i) {
                    self.spec_update(dep0[i], indep[i], *delta)
                } else {
                    dep0[i]
                } by {
                    assert(before.contains_key(i));
                    if i != index {
                        assert(order@.take(k + 1).contains(i) == order@.take(k as int).contains(i));
                    } else {
                        assert(order@.take(k + 1)[k as int] == index);
                    }
                }
            }
        }
        proof {
            assert(order@.take(n as int) =~= order@);
            assert(dependents.contents() =~= run_result(
                |d: Component, i: Component| self.spec_update(d, i, *delta),
                dep0,
                indep,
            ));
        }
    }
}

} // verus!
