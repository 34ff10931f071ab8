//! The potential supplied to each bus type, handed to the power consumers.

use vstd::prelude::*;
use crate::electrical::{ElectricalBus, ElectricalBusType, OriginWithRawPotentialPair, Potential};

verus! {

/// The potential each bus supplies, by bus type. A bus type that was not
/// added supplies nothing.
pub struct SuppliedPower<R> {
    state: Vec<(ElectricalBusType, Potential<R>)>,
}

impl<R> SuppliedPower<R> {
    #[verifier::type_invariant]
    closed spec fn keys_unique(self) -> bool {
        forall|i: int, j: int|
            0 <= i < j < self.state@.len() ==> #[trigger] self.state@[i].0 != #[trigger] self.state@[j].0
    }

    /// Whether the bus type was added.
    pub closed spec fn has(&self, bus_type: ElectricalBusType) -> bool {
        exists|i: int| 0 <= i < self.state@.len() && #[trigger] self.state@[i].0 == bus_type
    }

    /// The potential supplied by the bus of the given type.
    pub closed spec fn supplied(&self, bus_type: ElectricalBusType) -> Seq<OriginWithRawPotentialPair<R>> {
        if self.has(bus_type) {
            let i = choose|i: int| 0 <= i < self.state@.len() && #[trigger] self.state@[i].0 == bus_type;
            self.state@[i].1.pairs()
        } else {
            Seq::empty()
        }
    }
}

impl<R: Copy> SuppliedPower<R> {
    pub fn new() -> (supplied: SuppliedPower<R>)
        ensures
            forall|bus_type: ElectricalBusType| !(#[trigger] supplied.has(bus_type)),
            forall|bus_type: ElectricalBusType| #[trigger] supplied.supplied(bus_type) == Seq::<OriginWithRawPotentialPair<R>>::empty(),
    {
        SuppliedPower { state: Vec::new() }
    }

    /// Records the potential the given bus supplies, replacing what was
    /// recorded for its bus type.
    pub fn add(&mut self, bus: &ElectricalBus<R>)
        ensures
            final(self).has(bus.kind()),
            final(self).supplied(bus.kind()) == bus.input_pairs(),
            forall|other: ElectricalBusType| other != bus.kind() ==> #[trigger] final(self).has(other) == old(self).has(other),
            forall|other: ElectricalBusType| other != bus.kind() ==> #[trigger] final(self).supplied(other) == old(self).supplied(other),
    {
        self.insert(bus.bus_type(), bus.input_potential());
    }

    /// Records the potential supplied by the bus of the given type,
    /// replacing what was recorded for it.
    pub fn insert(&mut self, bus_type: ElectricalBusType, potential: Potential<R>)
        ensures
            final(self).has(bus_type),
            final(self).supplied(bus_type) == potential.pairs(),
            forall|other: ElectricalBusType| other != bus_type ==> #[trigger] final(self).has(other) == old(self).has(other),
            forall|other: ElectricalBusType| other != bus_type ==> #[trigger] final(self).supplied(other) == old(self).supplied(other),
    {
        proof {
            use_type_invariant(&*self);
        }
        let ghost before = self.state@;
        assert(forall|a: int, b: int| 0 <= a < b < before.len() ==> #[trigger] before[a].0 != #[trigger] before[b].0);
        let mut i: usize = 0;
        while i < self.state.len()
            invariant
                0 <= i <= self.state@.len(),
                self.state@ == before,
                before == old(self).state@,
                forall|a: int, b: int| 0 <= a < b < before.len() ==> #[trigger] before[a].0 != #[trigger] before[b].0,
                forall|j: int| 0 <= j < i ==> #[trigger] self.state@[j].0 != bus_type,
            decreases self.state.len() - i,
        {
            if self.state[i].0 == bus_type {
                let mut state: Vec<(ElectricalBusType, Potential<R>)> = Vec::new();
                std::mem::swap(&mut state, &mut self.state);
                state.set(i, (bus_type, potential));
                proof {
                    assert forall|a: int, b: int|
                        0 <= a < b < state@.len() implies #[trigger] state@[a].0 != #[trigger] state@[b].0 by {
                        assert(before[a].0 != before[b].0);
                    }
                }
                self.state = state;
                proof {
                    assert(self.state@[i as int].0 == bus_type);
                    assert(self.has(bus_type));
                    let k = choose|k: int| 0 <= k < self.state@.len() && #[trigger] self.state@[k].0 == bus_type;
                    if k != i {
                        if k < i {
                            assert(self.state@[k].0 != self.state@[i as int].0);
                        } else {
                            assert(self.state@[i as int].0 != self.state@[k].0);
                        }
                    }
                    assert forall|bt: ElectricalBusType| bt != bus_type implies (#[trigger] self.has(bt)
                        == old(self).has(bt) && self.supplied(bt) == old(self).supplied(bt)) by {
                        if old(self).has(bt) {
                            let k = choose|k: int| 0 <= k < before.len() && #[trigger] before[k].0 == bt;
                            assert(self.state@[k].0 == bt);
                        }
                        if self.has(bt) {
                            let k = choose|k: int| 0 <= k < self.state@.len() && #[trigger] self.state@[k].0 == bt;
                            assert(before[k].0 == bt);
                        }
                    }
                }
                return;
            }
            i += 1;
        }
        let mut state: Vec<(ElectricalBusType, Potential<R>)> = Vec::new();
        std::mem::swap(&mut state, &mut self.state);
        state.push((bus_type, potential));
        proof {
            assert forall|a: int, b: int|
                0 <= a < b < state@.len() implies #[trigger] state@[a].0 != #[trigger] state@[b].0 by {
                if b < before.len() {
                    assert(before[a].0 != before[b].0);
                }
            }
        }
        self.state = state;
        proof {
            let n = before.len() as int;
            assert(self.state@[n].0 == bus_type);
            assert(self.has(bus_type));
            let k = choose|k: int| 0 <= k < self.state@.len() && #[trigger] self.state@[k].0 == bus_type;
            if k != n {
                assert(self.state@[k].0 != self.state@[n].0);
            }
            assert forall|bt: ElectricalBusType| bt != bus_type implies (#[trigger] self.has(bt)
                == old(self).has(bt) && self.supplied(bt) == old(self).supplied(bt)) by {
                if old(self).has(bt) {
                    let k = choose|k: int| 0 <= k < before.len() && #[trigger] before[k].0 == bt;
                    assert(self.state@[k].0 == bt);
                }
                if self.has(bt) {
                    let k = choose|k: int| 0 <= k < self.state@.len() && #[trigger] self.state@[k].0 == bt;
                    assert(k < n);
                    assert(before[k].0 == bt);
                }
            }
        }
    }

    /// The potential supplied by the bus of the given type; none when no
    /// such bus was added.
    pub fn potential_of(&self, bus_type: ElectricalBusType) -> (potential: Potential<R>)
        ensures
            potential.pairs() == self.supplied(bus_type),
    {
        proof {
            use_type_invariant(self);
        }
        let mut i: usize = 0;
        while i < self.state.len()
            invariant
                0 <= i <= self.state@.len(),
                forall|a: int, b: int|
                    0 <= a < b < self.state@.len() ==> #[trigger] self.state@[a].0 != #[trigger] self.state@[b].0,
                forall|j: int| 0 <= j < i ==> #[trigger] self.state@[j].0 != bus_type,
            decreases self.state.len() - i,
        {
            if self.state[i].0 == bus_type {
                proof {
                    assert(self.state@[i as int].0 == bus_type);
                    let k = choose|k: int| 0 <= k < self.state@.len() && #[trigger] self.state@[k].0 == bus_type;
                    assert(k == i);
                }
                return self.state[i].1;
            }
            i += 1;
        }
        Potential::none()
    }

    /// Whether the bus of the given type is powered.
    pub fn is_powered(&self, bus_type: ElectricalBusType) -> (powered: bool)
        ensures
            powered == (self.supplied(bus_type).len() > 0),
    {
        self.potential_of(bus_type).is_powered()
    }

    /// The origins supplying the bus of the given type.
    pub fn source_for(&self, bus_type: ElectricalBusType) -> (potential: Potential<R>)
        ensures
            potential.pairs() == self.supplied(bus_type),
    {
        self.potential_of(bus_type)
    }
}

} // verus!
