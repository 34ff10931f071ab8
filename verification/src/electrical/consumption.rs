//! Consumers of electrical power: which bus powers each of them, and the
//! flight phases by which the power they demand varies.

use vstd::prelude::*;
use crate::electrical::power_supply::SuppliedPower;
use crate::electrical::{first_powered, ElectricalBusType, OriginWithRawPotentialPair, Potential};
use crate::shared::FwcFlightPhase;

verus! {

/// The phases of a flight between which power consumption differs.
#[derive(Clone, Copy, Debug, PartialEq, Eq, Structural)]
pub enum PowerConsumerFlightPhase {
    BeforeStart,
    AfterStart,
    Takeoff,
    Flight,
    Landing,
    TaxiIn,
}

/// The power consumption phase of a flight warning computer flight phase.
pub open spec fn consumer_phase_of(phase: FwcFlightPhase) -> PowerConsumerFlightPhase {
    match phase {
        FwcFlightPhase::ElecPwr => PowerConsumerFlightPhase::BeforeStart,
        FwcFlightPhase::FirstEngineStarted => PowerConsumerFlightPhase::AfterStart,
        FwcFlightPhase::FirstEngineTakeOffPower => PowerConsumerFlightPhase::Takeoff,
        FwcFlightPhase::AtOrAboveEightyKnots => PowerConsumerFlightPhase::Takeoff,
        FwcFlightPhase::LiftOff => PowerConsumerFlightPhase::Takeoff,
        FwcFlightPhase::AtOrAbove1500Feet => PowerConsumerFlightPhase::Flight,
        FwcFlightPhase::AtOrBelow800Feet => PowerConsumerFlightPhase::Landing,
        FwcFlightPhase::TouchDown => PowerConsumerFlightPhase::Landing,
        FwcFlightPhase::AtOrBelowEightyKnots => PowerConsumerFlightPhase::TaxiIn,
        FwcFlightPhase::EnginesShutdown => PowerConsumerFlightPhase::BeforeStart,
    }
}

impl From<FwcFlightPhase> for PowerConsumerFlightPhase {
    fn from(phase: FwcFlightPhase) -> (consumer_phase: Self) {
        match phase {
            FwcFlightPhase::ElecPwr => PowerConsumerFlightPhase::BeforeStart,
            FwcFlightPhase::FirstEngineStarted => PowerConsumerFlightPhase::AfterStart,
            FwcFlightPhase::FirstEngineTakeOffPower => PowerConsumerFlightPhase::Takeoff,
            FwcFlightPhase::AtOrAboveEightyKnots => PowerConsumerFlightPhase::Takeoff,
            FwcFlightPhase::LiftOff => PowerConsumerFlightPhase::Takeoff,
            FwcFlightPhase::AtOrAbove1500Feet => PowerConsumerFlightPhase::Flight,
            FwcFlightPhase::AtOrBelow800Feet => PowerConsumerFlightPhase::Landing,
            FwcFlightPhase::TouchDown => PowerConsumerFlightPhase::Landing,
            FwcFlightPhase::AtOrBelowEightyKnots => PowerConsumerFlightPhase::TaxiIn,
            FwcFlightPhase::EnginesShutdown => PowerConsumerFlightPhase::BeforeStart,
        }
    }
}

impl vstd::std_specs::convert::FromSpecImpl<FwcFlightPhase> for PowerConsumerFlightPhase {
    open spec fn obeys_from_spec() -> bool {
        true
    }

    open spec fn from_spec(phase: FwcFlightPhase) -> Self {
        consumer_phase_of(phase)
    }
}

/// The potential that reaches a consumer fed by `buses` from position `i`
/// on: that of the first of them that is powered, or none.
pub open spec fn supplied_from<R>(
    supplied: SuppliedPower<R>,
    buses: Seq<ElectricalBusType>,
    i: int,
) -> Seq<OriginWithRawPotentialPair<R>>
    decreases buses.len() - i,
{
    if 0 <= i < buses.len() {
        first_powered(supplied.supplied(buses[i]), supplied_from(supplied, buses, i + 1))
    } else {
        Seq::empty()
    }
}

/// Whether the bus of the given type supplies any potential.
pub open spec fn bus_powered<R>(supplied: SuppliedPower<R>, bus_type: ElectricalBusType) -> bool {
    supplied.supplied(bus_type).len() > 0
}

proof fn lemma_supplied_from<R>(supplied: SuppliedPower<R>, buses: Seq<ElectricalBusType>, i: int)
    requires
        0 <= i <= buses.len(),
    ensures
        supplied_from(supplied, buses, i).len() > 0 <==> exists|k: int|
            i <= k < buses.len() && #[trigger] bus_powered(supplied, buses[k]),
        forall|k: int|
            i <= k < buses.len() && #[trigger] bus_powered(supplied, buses[k]) && (forall|j: int|
                i <= j < k ==> !bus_powered(supplied, #[trigger] buses[j])) ==> supplied_from(supplied, buses, i)
                == supplied.supplied(buses[k]),
    decreases buses.len() - i,
{
    if i < buses.len() {
        lemma_supplied_from(supplied, buses, i + 1);
        if bus_powered(supplied, buses[i]) {
            assert forall|k: int|
                i <= k < buses.len() && #[trigger] bus_powered(supplied, buses[k]) && (forall|j: int|
                    i <= j < k ==> !bus_powered(supplied, #[trigger] buses[j])) implies supplied_from(supplied, buses, i)
                    == supplied.supplied(buses[k]) by {
                if k > i {
                    assert(!bus_powered(supplied, buses[i]));
                }
            }
        } else {
            assert forall|k: int|
                i <= k < buses.len() && #[trigger] bus_powered(supplied, buses[k]) && (forall|j: int|
                    i <= j < k ==> !bus_powered(supplied, #[trigger] buses[j])) implies supplied_from(supplied, buses, i)
                    == supplied.supplied(buses[k]) by {
                assert(k != i);
                assert forall|j: int| i + 1 <= j < k implies !bus_powered(supplied, #[trigger] buses[j]) by {}
            }
            if supplied_from(supplied, buses, i).len() > 0 {
                let k = choose|k: int| i + 1 <= k < buses.len() && #[trigger] bus_powered(supplied, buses[k]);
                assert(i <= k < buses.len() && bus_powered(supplied, buses[k]));
            }
        }
    }
}

/// A consumer fed by `buses` is powered exactly when one of them is, and
/// then receives the potential of the first powered one in their order of
/// priority.
pub proof fn law_consumer_takes_first_powered_bus<R>(
    supplied: SuppliedPower<R>,
    buses: Seq<ElectricalBusType>,
)
    ensures
        supplied_from(supplied, buses, 0).len() > 0 <==> exists|k: int|
            0 <= k < buses.len() && #[trigger] bus_powered(supplied, buses[k]),
        forall|k: int|
            0 <= k < buses.len() && #[trigger] bus_powered(supplied, buses[k]) && (forall|j: int|
                0 <= j < k ==> !bus_powered(supplied, #[trigger] buses[j])) ==> supplied_from(supplied, buses, 0)
                == supplied.supplied(buses[k]),
{
    lemma_supplied_from(supplied, buses, 0);
}

/// A generic consumer of power, fed by the buses it lists in order of
/// priority. It demands power of any kind `P` (a quantity of watts, say),
/// which it hands on as it is.
pub struct PowerConsumer<R, P> {
    provided_potential: Potential<R>,
    demand: P,
    powered_by: Vec<ElectricalBusType>,
}

impl<R, P> PowerConsumer<R, P> {
    /// The potential the consumer received last.
    pub closed spec fn provided(&self) -> Seq<OriginWithRawPotentialPair<R>> {
        self.provided_potential.pairs()
    }

    /// The power demanded when powered.
    pub closed spec fn demanded(&self) -> P {
        self.demand
    }

    /// The buses feeding the consumer, in order of priority.
    pub closed spec fn feeding_buses(&self) -> Seq<ElectricalBusType> {
        self.powered_by@
    }
}

impl<R: Copy, P: Copy> PowerConsumer<R, P> {
    /// A consumer fed by the bus of the given type alone, which demands
    /// `demand` and has received no potential yet.
    pub fn from(bus_type: ElectricalBusType, demand: P) -> (consumer: PowerConsumer<R, P>)
        ensures
            consumer.feeding_buses() == seq![bus_type],
            consumer.demanded() == demand,
            consumer.provided() == Seq::<OriginWithRawPotentialPair<R>>::empty(),
    {
        let mut powered_by: Vec<ElectricalBusType> = Vec::new();
        powered_by.push(bus_type);
        assert(powered_by@ =~= seq![bus_type]);
        PowerConsumer { provided_potential: Potential::none(), demand, powered_by }
    }

    /// Whether the consumer received any potential last time power was
    /// supplied.
    pub fn is_powered(&self) -> (powered: bool)
        ensures
            powered == (self.provided().len() > 0),
    {
        self.provided_potential.is_powered()
    }

    /// Sets the power demanded when powered.
    pub fn demand(&mut self, power: P)
        ensures
            final(self).demanded() == power,
            final(self).provided() == old(self).provided(),
            final(self).feeding_buses() == old(self).feeding_buses(),
    {
        self.demand = power;
    }

    /// Takes the potential of the first feeding bus that is powered, or none
    /// when no feeding bus is.
    pub fn receive_power(&mut self, supplied_power: &SuppliedPower<R>)
        ensures
            final(self).provided() == supplied_from(*supplied_power, old(self).feeding_buses(), 0),
            final(self).demanded() == old(self).demanded(),
            final(self).feeding_buses() == old(self).feeding_buses(),
    {
        let ghost buses = self.powered_by@;
        let mut i: usize = 0;
        while i < self.powered_by.len()
            invariant
                0 <= i <= buses.len(),
                self.powered_by@ == buses,
                buses == old(self).powered_by@,
                self.demand == old(self).demand,
                supplied_from(*supplied_power, buses, 0) == supplied_from(*supplied_power, buses, i as int),
            decreases buses.len() - i,
        {
            let bus_type = self.powered_by[i];
            let potential = supplied_power.potential_of(bus_type);
            if potential.is_powered() {
                self.provided_potential = potential;
                return;
            }
            i += 1;
        }
        self.provided_potential = Potential::none();
    }

    /// What the consumer adds to the consumption of the potential powering
    /// it: that potential and its demand, or nothing when it is unpowered.
    pub fn consume_power(&self) -> (consumption: Option<(Potential<R>, P)>)
        ensures
            match consumption {
                Some((potential, power)) => {
                    &&& self.provided().len() > 0
                    &&& potential.pairs() == self.provided()
                    &&& power == self.demanded()
                },
                None => self.provided().len() == 0,
            },
    {
        if self.provided_potential.is_powered() {
            Some((self.provided_potential, self.demand))
        } else {
            None
        }
    }
}

/// Which flight warning phases fall into each consumption phase: before start
/// is electrical power and engines shut down; after start the first engine
/// started; takeoff from takeoff power through lift off; flight at or above
/// 1500 ft; landing at or below 800 ft and touch down; taxi in at or below 80
/// knots.
pub proof fn law_flight_phases_of_each_consumption_phase(phase: FwcFlightPhase)
    ensures
        (consumer_phase_of(phase) == PowerConsumerFlightPhase::BeforeStart) <==> (phase == FwcFlightPhase::ElecPwr
            || phase == FwcFlightPhase::EnginesShutdown),
        (consumer_phase_of(phase) == PowerConsumerFlightPhase::AfterStart) <==> (phase
            == FwcFlightPhase::FirstEngineStarted),
        (consumer_phase_of(phase) == PowerConsumerFlightPhase::Takeoff) <==> (phase
            == FwcFlightPhase::FirstEngineTakeOffPower || phase == FwcFlightPhase::AtOrAboveEightyKnots || phase
            == FwcFlightPhase::LiftOff),
        (consumer_phase_of(phase) == PowerConsumerFlightPhase::Flight) <==> (phase
            == FwcFlightPhase::AtOrAbove1500Feet),
        (consumer_phase_of(phase) == PowerConsumerFlightPhase::Landing) <==> (phase
            == FwcFlightPhase::AtOrBelow800Feet || phase == FwcFlightPhase::TouchDown),
        (consumer_phase_of(phase) == PowerConsumerFlightPhase::TaxiIn) <==> (phase
            == FwcFlightPhase::AtOrBelowEightyKnots),
{
}

} // verus!
