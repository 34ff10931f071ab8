//! The emergency generator, driven by the blue hydraulic system.

use vstd::prelude::*;
use crate::electrical::{OriginWithRawPotentialPair, Potential, PotentialOrigin, PotentialSource};
use crate::shared::{saturating_sum, UpdateContext};

verus! {

broadcast use crate::electrical::potential::lemma_pair_of_fields;

/// The time the emergency generator needs after being started before it
/// can supply, in nanoseconds: it supplies once more than this has passed.
pub const EMERGENCY_GENERATOR_START_TIME_IN_NANOSECONDS: u64 = 8_000_000_000;

/// The emergency generator supplies when it was started more than eight
/// seconds ago and can supply while running (the blue hydraulic system
/// drives it).
pub struct EmergencyGenerator<R> {
    supplying: bool,
    time_since_start: u64,
    starting_or_started: bool,
    output_potential: R,
}

impl<R> EmergencyGenerator<R> {
    pub closed spec fn supplies(&self) -> bool {
        self.supplying
    }

    pub closed spec fn started(&self) -> bool {
        self.starting_or_started
    }

    /// The time since the generator was started, in nanoseconds.
    pub closed spec fn running_for(&self) -> u64 {
        self.time_since_start
    }

    pub closed spec fn raw_potential(&self) -> R {
        self.output_potential
    }
}

impl<R: Copy> EmergencyGenerator<R> {
    pub fn new(potential: R) -> (generator: EmergencyGenerator<R>)
        ensures
            !generator.supplies(),
            !generator.started(),
            generator.running_for() == 0,
            generator.raw_potential() == potential,
    {
        EmergencyGenerator {
            supplying: false,
            time_since_start: 0,
            starting_or_started: false,
            output_potential: potential,
        }
    }

    /// Advances the time since start and decides whether the generator
    /// supplies.
    pub fn update(&mut self, context: &UpdateContext, can_supply_when_running: bool)
        ensures
            final(self).started() == old(self).started(),
            final(self).running_for() == if old(self).started() {
                saturating_sum(old(self).running_for(), context.delta_nanos())
            } else {
                old(self).running_for()
            },
            final(self).supplies() == (can_supply_when_running && final(self).started()
                && final(self).running_for() > EMERGENCY_GENERATOR_START_TIME_IN_NANOSECONDS),
            final(self).raw_potential() == old(self).raw_potential(),
    {
        if self.starting_or_started {
            self.time_since_start = self.time_since_start.saturating_add(context.delta());
        }
        self.supplying = can_supply_when_running && self.starting_or_started
            && self.time_since_start > EMERGENCY_GENERATOR_START_TIME_IN_NANOSECONDS;
    }

    /// Starts the generator.
    pub fn start(&mut self)
        ensures
            final(self).started(),
            final(self).supplies() == old(self).supplies(),
            final(self).running_for() == old(self).running_for(),
            final(self).raw_potential() == old(self).raw_potential(),
    {
        self.starting_or_started = true;
    }

    /// Sets the raw potential the generator provides while it supplies.
    pub fn set_output_potential(&mut self, potential: R)
        ensures
            final(self).raw_potential() == potential,
            final(self).supplies() == old(self).supplies(),
            final(self).started() == old(self).started(),
            final(self).running_for() == old(self).running_for(),
    {
        self.output_potential = potential;
    }
}

impl<R: Copy> PotentialSource<R> for EmergencyGenerator<R> {
    open spec fn output_pairs(&self) -> Seq<OriginWithRawPotentialPair<R>> {
        if self.supplies() {
            seq![OriginWithRawPotentialPair::pair_of(PotentialOrigin::EmergencyGenerator, self.raw_potential())]
        } else {
            Seq::empty()
        }
    }

    fn output(&self) -> (potential: Potential<R>) {
        if self.supplying {
            Potential::single(PotentialOrigin::EmergencyGenerator, self.output_potential)
        } else {
            Potential::none()
        }
    }
}

} // verus!
