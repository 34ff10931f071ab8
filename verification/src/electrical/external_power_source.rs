//! External power (ground power unit) and the aircraft batteries.

use vstd::prelude::*;
use crate::electrical::{OriginWithRawPotentialPair, Potential, PotentialOrigin, PotentialSource};
use crate::simulation::{value_of, SimulatorReader};

verus! {

broadcast use crate::electrical::potential::lemma_pair_of_fields;

/// External power provides potential while it is connected to the aircraft.
/// Whether it is connected is read from the simulator under
/// `EXTERNAL POWER AVAILABLE:1`.
pub struct ExternalPowerSource<R> {
    is_connected: bool,
    output_potential: R,
}

impl<R> ExternalPowerSource<R> {
    pub closed spec fn connected(&self) -> bool {
        self.is_connected
    }

    pub closed spec fn raw_potential(&self) -> R {
        self.output_potential
    }
}

impl<R: Copy> ExternalPowerSource<R> {
    /// New external power is not connected.
    pub fn new(potential: R) -> (ext_pwr: ExternalPowerSource<R>)
        ensures
            !ext_pwr.connected(),
            ext_pwr.raw_potential() == potential,
    {
        ExternalPowerSource { is_connected: false, output_potential: potential }
    }

    /// Reads whether external power is connected.
    pub fn read(&mut self, reader: &SimulatorReader)
        ensures
            final(self).connected() == value_of(reader@, "EXTERNAL POWER AVAILABLE:1"@),
            final(self).raw_potential() == old(self).raw_potential(),
    {
        self.is_connected = reader.read_bool("EXTERNAL POWER AVAILABLE:1");
    }

    pub fn is_connected(&self) -> (connected: bool)
        ensures
            connected == self.connected(),
    {
        self.is_connected
    }

    /// Sets the raw potential it provides while connected.
    pub fn set_output_potential(&mut self, potential: R)
        ensures
            final(self).raw_potential() == potential,
            final(self).connected() == old(self).connected(),
    {
        self.output_potential = potential;
    }
}

impl<R: Copy> PotentialSource<R> for ExternalPowerSource<R> {
    open spec fn output_pairs(&self) -> Seq<OriginWithRawPotentialPair<R>> {
        if self.connected() {
            seq![OriginWithRawPotentialPair::pair_of(PotentialOrigin::External, self.raw_potential())]
        } else {
            Seq::empty()
        }
    }

    fn output(&self) -> (potential: Potential<R>) {
        if self.is_connected {
            Potential::single(PotentialOrigin::External, self.output_potential)
        } else {
            Potential::none()
        }
    }
}

/// A battery. Its charge and the potential that follows from it are modelled
/// elsewhere; the battery holds what the distribution logic reads: whether it
/// is fully charged and the raw potential it provides while it holds charge
/// (`None` when empty). It receives potential for charging.
pub struct Battery<R> {
    number: usize,
    input: Potential<R>,
    full: bool,
    output_potential: Option<R>,
}

impl<R> Battery<R> {
    pub closed spec fn battery_number(&self) -> usize {
        self.number
    }

    pub closed spec fn input_pairs(&self) -> Seq<OriginWithRawPotentialPair<R>> {
        self.input.pairs()
    }

    pub closed spec fn fully_charged(&self) -> bool {
        self.full
    }

    pub closed spec fn charge_potential(&self) -> Option<R> {
        self.output_potential
    }
}

impl<R: Copy> Battery<R> {
    pub fn new(number: usize, full: bool, potential: Option<R>) -> (battery: Battery<R>)
        ensures
            battery.battery_number() == number,
            battery.input_pairs() == Seq::<OriginWithRawPotentialPair<R>>::empty(),
            battery.fully_charged() == full,
            battery.charge_potential() == potential,
    {
        Battery { number, input: Potential::none(), full, output_potential: potential }
    }

    /// Sets whether the battery is fully charged and the raw potential it
    /// provides (`None` when it is empty).
    pub fn set_charge_state(&mut self, full: bool, potential: Option<R>)
        ensures
            final(self).fully_charged() == full,
            final(self).charge_potential() == potential,
            final(self).battery_number() == old(self).battery_number(),
            final(self).input_pairs() == old(self).input_pairs(),
    {
        self.full = full;
        self.output_potential = potential;
    }

    pub fn is_full(&self) -> (full: bool)
        ensures
            full == self.fully_charged(),
    {
        self.full
    }

    pub fn input_potential(&self) -> (potential: Potential<R>)
        ensures
            potential.pairs() == self.input_pairs(),
    {
        self.input
    }

    /// Receives the given source's potential.
    pub fn powered_by<T: PotentialSource<R>>(&mut self, source: &T)
        ensures
            final(self).input_pairs() == source.output_pairs(),
            final(self).battery_number() == old(self).battery_number(),
            final(self).fully_charged() == old(self).fully_charged(),
            final(self).charge_potential() == old(self).charge_potential(),
    {
        self.input = source.output();
    }

    /// Receives the given source's potential when it receives none yet.
    pub fn or_powered_by<T: PotentialSource<R>>(&mut self, source: &T)
        ensures
            final(self).input_pairs() == if old(self).input_pairs().len() == 0 {
                source.output_pairs()
            } else {
                old(self).input_pairs()
            },
            final(self).battery_number() == old(self).battery_number(),
            final(self).fully_charged() == old(self).fully_charged(),
            final(self).charge_potential() == old(self).charge_potential(),
    {
        if self.input.is_unpowered() {
            self.powered_by(source);
        }
    }
}

impl<R: Copy> PotentialSource<R> for Battery<R> {
    open spec fn output_pairs(&self) -> Seq<OriginWithRawPotentialPair<R>> {
        match self.charge_potential() {
            Some(raw) => seq![OriginWithRawPotentialPair::pair_of(PotentialOrigin::Battery(self.battery_number()), raw)],
            None => Seq::empty(),
        }
    }

    fn output(&self) -> (potential: Potential<R>) {
        match self.output_potential {
            Some(raw) => Potential::single(PotentialOrigin::Battery(self.number), raw),
            None => Potential::none(),
        }
    }
}

/// A battery holding charge supplies exactly that charge's potential, under
/// its own number as origin, whether or not it is fully charged; an empty
/// battery supplies nothing.
pub proof fn law_battery_with_charge_supplies_it<R: Copy>(battery: Battery<R>)
    ensures
        battery.charge_potential() matches Some(raw) ==> battery.output_pairs() == seq![
            OriginWithRawPotentialPair::pair_of(PotentialOrigin::Battery(battery.battery_number()), raw),
        ],
        battery.charge_potential() is None ==> battery.output_pairs().len() == 0,
        battery.output_pairs().len() > 0 <==> battery.charge_potential() is Some,
{
}

} // verus!
