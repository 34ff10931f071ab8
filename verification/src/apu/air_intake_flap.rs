//! The flap in front of the APU's air intake, which takes between six and
//! twelve seconds to travel between fully closed and fully open.

use vstd::prelude::*;
use crate::shared::{random_number, UpdateContext};

verus! {

const NANOSECONDS_PER_SECOND: u64 = 1_000_000_000;

/// The last end position the flap reached.
#[derive(Clone, Copy, Debug, PartialEq, Eq, Structural)]
enum AirIntakeFlapState {
    Closed,
    Open,
}

/// The air intake flap. Its opening is measured in the time it has travelled
/// away from fully closed: it is fully open once that time equals its travel
/// time.
pub struct AirIntakeFlap {
    open_amount: u64,
    travel_time: u64,
    last_state: AirIntakeFlapState,
}

/// The travel time that the random number `random` gives the flap: six
/// seconds plus one of zero to six whole seconds more.
pub open spec fn travel_time_from(random: u8) -> int {
    (AirIntakeFlap::MINIMUM_TRAVEL_TIME_SECS as int + (random as int) % 7) * 1_000_000_000
}

impl AirIntakeFlap {
    pub const MINIMUM_TRAVEL_TIME_SECS: u8 = 6;
    pub const MAXIMUM_TRAVEL_TIME_SECS: u8 = 12;

    #[verifier::type_invariant]
    closed spec fn well_formed(self) -> bool {
        &&& 0 < self.travel_time
        &&& self.open_amount <= self.travel_time
        &&& self.open_amount == self.travel_time ==> self.last_state == AirIntakeFlapState::Open
        &&& self.open_amount == 0 ==> self.last_state == AirIntakeFlapState::Closed
    }

    /// How long the flap has travelled away from fully closed, in nanoseconds.
    pub closed spec fn opening(&self) -> u64 {
        self.open_amount
    }

    /// How long the flap takes from fully closed to fully open, in nanoseconds.
    pub closed spec fn full_travel(&self) -> u64 {
        self.travel_time
    }

    /// Whether the flap last reached its fully open position rather than its
    /// fully closed one.
    pub closed spec fn last_fully_open(&self) -> bool {
        self.last_state == AirIntakeFlapState::Open
    }

    /// A closed flap whose travel time lies between six and twelve whole
    /// seconds, picked by a random byte from the operating system; when the
    /// operating system cannot provide one, the travel time is the minimum,
    /// six seconds.
    pub fn new() -> (flap: AirIntakeFlap)
        ensures
            flap.opening() == 0,
            !flap.last_fully_open(),
            exists|random: u8| flap.full_travel() == travel_time_from(random),
            Self::MINIMUM_TRAVEL_TIME_SECS * 1_000_000_000 <= flap.full_travel(),
            flap.full_travel() <= Self::MAXIMUM_TRAVEL_TIME_SECS * 1_000_000_000,
            flap.full_travel() % 1_000_000_000 == 0,
    {
        match random_number() {
            Some(random) => Self::with_travel_time_from(random),
            None => Self::with_travel_time_from(0),
        }
    }

    /// A closed flap whose travel time the random number `random` picks.
    pub fn with_travel_time_from(random: u8) -> (flap: AirIntakeFlap)
        ensures
            flap.opening() == 0,
            !flap.last_fully_open(),
            flap.full_travel() == travel_time_from(random),
    {
        let random_above_minimum_mod: u8 = Self::MAXIMUM_TRAVEL_TIME_SECS - Self::MINIMUM_TRAVEL_TIME_SECS + 1;
        let seconds: u8 = Self::MINIMUM_TRAVEL_TIME_SECS + random % random_above_minimum_mod;
        AirIntakeFlap {
            open_amount: 0,
            travel_time: seconds as u64 * NANOSECONDS_PER_SECOND,
            last_state: AirIntakeFlapState::Closed,
        }
    }

    /// Moves the flap towards open when `should_open`, else towards closed,
    /// for the time that passed; it stops at either end.
    pub fn update(&mut self, context: &UpdateContext, should_open: bool)
        ensures
            final(self).full_travel() == old(self).full_travel(),
            final(self).opening() == if should_open {
                if old(self).opening() + context.delta_nanos() < old(self).full_travel() {
                    old(self).opening() + context.delta_nanos()
                } else {
                    old(self).full_travel() as int
                }
            } else {
                if context.delta_nanos() < old(self).opening() {
                    old(self).opening() - context.delta_nanos()
                } else {
                    0
                }
            },
            final(self).last_fully_open() == if final(self).opening() == final(self).full_travel() {
                true
            } else if final(self).opening() == 0 {
                false
            } else {
                old(self).last_fully_open()
            },
    {
        proof {
            use_type_invariant(&*self);
        }
        let delta = context.delta();
        if should_open && self.open_amount < self.travel_time {
            let remaining = self.travel_time - self.open_amount;
            let open_amount = if delta < remaining {
                self.open_amount + delta
            } else {
                self.travel_time
            };
            let last_state = if open_amount == self.travel_time {
                AirIntakeFlapState::Open
            } else {
                self.last_state
            };
            *self = AirIntakeFlap { open_amount, travel_time: self.travel_time, last_state };
        } else if !should_open && self.open_amount > 0 {
            let open_amount = if delta < self.open_amount {
                self.open_amount - delta
            } else {
                0
            };
            let last_state = if open_amount == 0 {
                AirIntakeFlapState::Closed
            } else {
                self.last_state
            };
            *self = AirIntakeFlap { open_amount, travel_time: self.travel_time, last_state };
        }
    }

    /// Whether the flap is fully open.
    pub fn is_fully_open(&self) -> (fully_open: bool)
        ensures
            fully_open == (self.opening() == self.full_travel()),
    {
        self.open_amount == self.travel_time
    }

    /// How long the flap has travelled away from fully closed, in
    /// nanoseconds; divided by the travel time it is the share of fully open.
    pub fn open_amount(&self) -> (open_amount: u64)
        ensures
            open_amount == self.opening(),
            open_amount <= self.full_travel(),
    {
        proof {
            use_type_invariant(self);
        }
        self.open_amount
    }

    /// How long the flap takes from fully closed to fully open, in nanoseconds.
    pub fn travel_time(&self) -> (travel_time: u64)
        ensures
            travel_time == self.full_travel(),
            travel_time > 0,
    {
        proof {
            use_type_invariant(self);
        }
        self.travel_time
    }

    /// Whether the flap counts as open on the APU ECAM page: it is fully
    /// open, or it was fully open and has not closed fully since.
    pub fn is_apu_ecam_open(&self) -> (open: bool)
        ensures
            open == self.last_fully_open(),
            self.opening() == self.full_travel() ==> open,
            self.opening() == 0 ==> !open,
    {
        proof {
            use_type_invariant(self);
        }
        self.last_state == AirIntakeFlapState::Open
    }
}

} // verus!
