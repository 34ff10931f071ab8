//! The landing gear, as far as other systems need to know its position.

use vstd::prelude::*;

verus! {

pub struct LandingGear {
    is_down: bool,
}

impl LandingGear {
    pub closed spec fn down(&self) -> bool {
        self.is_down
    }

    /// The gear is taken to be up until the simulator says otherwise.
    pub fn new() -> (gear: LandingGear)
        ensures
            !gear.down(),
    {
        LandingGear { is_down: false }
    }

    pub fn is_down(&self) -> (down: bool)
        ensures
            down == self.down(),
    {
        self.is_down
    }

    /// Takes over the gear position from the simulator: `position_is_down`
    /// holds when the simulator reports the gear to be down and locked.
    pub fn read(&mut self, position_is_down: bool)
        ensures
            final(self).down() == position_is_down,
    {
        self.is_down = position_is_down;
    }
}

} // verus!
