//! Electric potential and its distribution through contactors and buses.
//!
//! The raw electric potential (volts) that travels along with the origin of
//! a potential is a parameter `R` of these types: the routing logic reads the
//! origins only and carries the raw value along unchanged.

use vstd::prelude::*;
use crate::simulation::{identifier, SimulatorWriter};

pub mod potential;
pub mod engine_generator;
pub mod emergency_generator;
pub mod converters;
pub mod external_power_source;
pub mod battery_charge_limiter;
pub mod power_supply;
pub mod consumption;
pub mod current;
pub use potential::{
    distinct_origins, origins, unique_by_origin, OriginWithRawPotentialPair, Potential,
    PotentialOrigin, PotentialSource,
};

verus! {

/// The decimal digits of a number.
pub open spec fn decimal(n: nat) -> Seq<char>
    decreases n,
{
    if n < 10 {
        digit(n)
    } else {
        decimal(n / 10) + digit(n % 10)
    }
}

/// The decimal digit of a number below ten.
pub open spec fn digit(d: nat) -> Seq<char> {
    if d == 0 {
        "0"@
    } else if d == 1 {
        "1"@
    } else if d == 2 {
        "2"@
    } else if d == 3 {
        "3"@
    } else if d == 4 {
        "4"@
    } else if d == 5 {
        "5"@
    } else if d == 6 {
        "6"@
    } else if d == 7 {
        "7"@
    } else if d == 8 {
        "8"@
    } else {
        "9"@
    }
}

fn digit_text(d: u8) -> (text: &'static str)
    requires
        d < 10,
    ensures
        text@ == digit(d as nat),
{
    if d == 0 {
        "0"
    } else if d == 1 {
        "1"
    } else if d == 2 {
        "2"
    } else if d == 3 {
        "3"
    } else if d == 4 {
        "4"
    } else if d == 5 {
        "5"
    } else if d == 6 {
        "6"
    } else if d == 7 {
        "7"
    } else if d == 8 {
        "8"
    } else {
        "9"
    }
}

/// Appends the decimal digits of `n` to `text`.
fn append_decimal(text: &mut String, n: u64)
    ensures
        final(text)@ == old(text)@ + decimal(n as nat),
    decreases n,
{
    if n < 10 {
        text.append(digit_text(n as u8));
    } else {
        append_decimal(text, n / 10);
        text.append(digit_text((n % 10) as u8));
        assert(old(text)@ + decimal((n / 10) as nat) + digit((n % 10) as nat) =~= old(text)@
            + decimal(n as nat));
    }
}

/// Represents a contactor in an electrical power circuit. When closed a
/// contactor conducts the potential towards other targets. Its position is
/// written to the simulator under `ELEC_CONTACTOR_<id>_IS_CLOSED`.
pub struct Contactor<R> {
    closed_id: String,
    closed: bool,
    input: Potential<R>,
}

impl<R> Contactor<R> {
    pub closed spec fn closed_position(&self) -> bool {
        self.closed
    }

    pub closed spec fn input_pairs(&self) -> Seq<OriginWithRawPotentialPair<R>> {
        self.input.pairs()
    }

    pub closed spec fn closed_id(&self) -> Seq<char> {
        self.closed_id@
    }
}

impl<R: Copy> Contactor<R> {
    /// A new contactor is open and receives no potential.
    pub fn new(id: &str) -> (contactor: Contactor<R>)
        ensures
            !contactor.closed_position(),
            contactor.input_pairs() == Seq::<OriginWithRawPotentialPair<R>>::empty(),
            contactor.closed_id() == "ELEC_CONTACTOR_"@ + id@ + "_IS_CLOSED"@,
    {
        Contactor {
            closed_id: identifier("ELEC_CONTACTOR_", id, "_IS_CLOSED"),
            closed: false,
            input: Potential::none(),
        }
    }

    /// Closes the contactor when it should be closed and opens it otherwise.
    pub fn close_when(&mut self, should_be_closed: bool)
        ensures
            final(self).closed_position() == should_be_closed,
            final(self).input_pairs() == old(self).input_pairs(),
            final(self).closed_id() == old(self).closed_id(),
    {
        self.closed = should_be_closed;
    }

    pub fn is_open(&self) -> (open: bool)
        ensures
            open == !self.closed_position(),
    {
        !self.closed
    }

    pub fn is_closed(&self) -> (closed: bool)
        ensures
            closed == self.closed_position(),
    {
        self.closed
    }

    /// Receives the given source's potential. When the source provides no
    /// potential neither does the contactor receive any.
    pub fn powered_by<T: PotentialSource<R>>(&mut self, source: &T)
        ensures
            final(self).input_pairs() == source.output_pairs(),
            final(self).closed_position() == old(self).closed_position(),
            final(self).closed_id() == old(self).closed_id(),
    {
        self.input = source.output();
    }

    /// Receives the given source's potential when the contactor receives no
    /// potential yet; otherwise keeps the potential it receives.
    pub fn or_powered_by<T: PotentialSource<R>>(&mut self, source: &T)
        ensures
            final(self).input_pairs() == if old(self).input_pairs().len() == 0 {
                source.output_pairs()
            } else {
                old(self).input_pairs()
            },
            final(self).closed_position() == old(self).closed_position(),
            final(self).closed_id() == old(self).closed_id(),
    {
        if self.input.is_unpowered() {
            self.powered_by(source);
        }
    }

    /// Writes whether the contactor is closed.
    pub fn write(&self, writer: &mut SimulatorWriter)
        ensures
            final(writer)@ == old(writer)@.push((self.closed_id(), self.closed_position())),
    {
        writer.write_bool(self.closed_id.as_str(), self.closed);
    }
}

impl<R: Copy> PotentialSource<R> for Contactor<R> {
    /// A closed contactor passes on what it receives; an open one provides nothing.
    open spec fn output_pairs(&self) -> Seq<OriginWithRawPotentialPair<R>> {
        if self.closed_position() {
            self.input_pairs()
        } else {
            Seq::empty()
        }
    }

    fn output(&self) -> (potential: Potential<R>) {
        if self.closed {
            self.input
        } else {
            Potential::none()
        }
    }
}

/// The potential received by something powered by `first` and then, where
/// `first` provides nothing, by `second`.
pub open spec fn first_powered<R>(
    first: Seq<OriginWithRawPotentialPair<R>>,
    second: Seq<OriginWithRawPotentialPair<R>>,
) -> Seq<OriginWithRawPotentialPair<R>> {
    if first.len() > 0 {
        first
    } else {
        second
    }
}

/// Builds a name made of `prefix`, the decimal digits of `number` and `suffix`.
pub fn numbered_identifier(prefix: &str, number: usize, suffix: &str) -> (id: String)
    ensures
        id@ == prefix@ + decimal(number as nat) + suffix@,
{
    let mut id = String::from_str(prefix);
    append_decimal(&mut id, number as u64);
    id.append(suffix);
    id
}

/// The common types of electrical buses within Airbus aircraft.
#[derive(Clone, Copy, Debug, PartialEq, Eq, Structural, Hash)]
pub enum ElectricalBusType {
    AlternatingCurrent(u8),
    AlternatingCurrentEssential,
    AlternatingCurrentEssentialShed,
    AlternatingCurrentStaticInverter,
    DirectCurrent(u8),
    DirectCurrentEssential,
    DirectCurrentEssentialShed,
    DirectCurrentBattery,
    DirectCurrentHot(u8),
}

/// The name of a bus type, as used in the names of simulator variables.
pub open spec fn bus_type_name(bus_type: ElectricalBusType) -> Seq<char> {
    match bus_type {
        ElectricalBusType::AlternatingCurrent(number) => "AC_"@ + decimal(number as nat),
        ElectricalBusType::AlternatingCurrentEssential => "AC_ESS"@,
        ElectricalBusType::AlternatingCurrentEssentialShed => "AC_ESS_SHED"@,
        ElectricalBusType::AlternatingCurrentStaticInverter => "AC_STAT_INV"@,
        ElectricalBusType::DirectCurrent(number) => "DC_"@ + decimal(number as nat),
        ElectricalBusType::DirectCurrentEssential => "DC_ESS"@,
        ElectricalBusType::DirectCurrentEssentialShed => "DC_ESS_SHED"@,
        ElectricalBusType::DirectCurrentBattery => "DC_BAT"@,
        ElectricalBusType::DirectCurrentHot(number) => "DC_HOT_"@ + decimal(number as nat),
    }
}

impl ElectricalBusType {
    /// The name of the bus type, such as `AC_2` or `DC_ESS`.
    pub fn name(&self) -> (name: String)
        ensures
            name@ == bus_type_name(*self),
    {
        match *self {
            ElectricalBusType::AlternatingCurrent(number) => {
                let mut name = String::from_str("AC_");
                append_decimal(&mut name, number as u64);
                name
            },
            ElectricalBusType::AlternatingCurrentEssential => String::from_str("AC_ESS"),
            ElectricalBusType::AlternatingCurrentEssentialShed => String::from_str("AC_ESS_SHED"),
            ElectricalBusType::AlternatingCurrentStaticInverter => String::from_str("AC_STAT_INV"),
            ElectricalBusType::DirectCurrent(number) => {
                let mut name = String::from_str("DC_");
                append_decimal(&mut name, number as u64);
                name
            },
            ElectricalBusType::DirectCurrentEssential => String::from_str("DC_ESS"),
            ElectricalBusType::DirectCurrentEssentialShed => String::from_str("DC_ESS_SHED"),
            ElectricalBusType::DirectCurrentBattery => String::from_str("DC_BAT"),
            ElectricalBusType::DirectCurrentHot(number) => {
                let mut name = String::from_str("DC_HOT_");
                append_decimal(&mut name, number as u64);
                name
            },
        }
    }
}

/// An electrical bus. Whether it is powered is written to the simulator
/// under `ELEC_<bus type name>_BUS_IS_POWERED`.
pub struct ElectricalBus<R> {
    bus_powered_id: String,
    input: Potential<R>,
    bus_type: ElectricalBusType,
}

impl<R> ElectricalBus<R> {
    pub closed spec fn input_pairs(&self) -> Seq<OriginWithRawPotentialPair<R>> {
        self.input.pairs()
    }

    pub closed spec fn kind(&self) -> ElectricalBusType {
        self.bus_type
    }

    pub closed spec fn powered_id(&self) -> Seq<char> {
        self.bus_powered_id@
    }
}

impl<R: Copy> ElectricalBus<R> {
    /// A new bus receives no potential.
    pub fn new(bus_type: ElectricalBusType) -> (bus: ElectricalBus<R>)
        ensures
            bus.input_pairs() == Seq::<OriginWithRawPotentialPair<R>>::empty(),
            bus.kind() == bus_type,
            bus.powered_id() == "ELEC_"@ + bus_type_name(bus_type) + "_BUS_IS_POWERED"@,
    {
        let name = bus_type.name();
        ElectricalBus {
            bus_powered_id: identifier("ELEC_", name.as_str(), "_BUS_IS_POWERED"),
            input: Potential::none(),
            bus_type,
        }
    }

    pub fn bus_type(&self) -> (bus_type: ElectricalBusType)
        ensures
            bus_type == self.kind(),
    {
        self.bus_type
    }

    /// The potential the bus receives.
    pub fn input_potential(&self) -> (potential: Potential<R>)
        ensures
            potential.pairs() == self.input_pairs(),
    {
        self.input
    }

    /// Receives the given source's potential. When the source provides no
    /// potential neither does the bus receive any.
    pub fn powered_by<T: PotentialSource<R>>(&mut self, source: &T)
        ensures
            final(self).input_pairs() == source.output_pairs(),
            final(self).kind() == old(self).kind(),
            final(self).powered_id() == old(self).powered_id(),
    {
        self.input = source.output();
    }

    /// Receives the given source's potential when the bus receives no
    /// potential yet; otherwise keeps the potential it receives.
    pub fn or_powered_by<T: PotentialSource<R>>(&mut self, source: &T)
        ensures
            final(self).input_pairs() == if old(self).input_pairs().len() == 0 {
                source.output_pairs()
            } else {
                old(self).input_pairs()
            },
            final(self).kind() == old(self).kind(),
            final(self).powered_id() == old(self).powered_id(),
    {
        if self.input.is_unpowered() {
            self.powered_by(source);
        }
    }

    /// Adds the potential passed on by both battery contactors to the
    /// potential the bus receives.
    pub fn or_powered_by_both_batteries(
        &mut self,
        battery_1_contactor: &Contactor<R>,
        battery_2_contactor: &Contactor<R>,
    )
        requires
            unique_by_origin(
                old(self).input_pairs() + battery_1_contactor.output_pairs()
                    + battery_2_contactor.output_pairs(),
            ).len() <= 3,
        ensures
            final(self).input_pairs() == unique_by_origin(
                old(self).input_pairs() + battery_1_contactor.output_pairs()
                    + battery_2_contactor.output_pairs(),
            ),
            final(self).kind() == old(self).kind(),
            final(self).powered_id() == old(self).powered_id(),
    {
        let first = battery_1_contactor.output();
        let second = battery_2_contactor.output();
        proof {
            let a = self.input.pairs();
            let b = first.pairs();
            let c = second.pairs();
            potential::lemma_unique_prefix_len(a + b + c, (a + b).len() as int, (a + b + c).len() as int);
            assert((a + b + c).take((a + b).len() as int) =~= a + b);
            assert((a + b + c).take((a + b + c).len() as int) =~= a + b + c);
            potential::lemma_unique_of_unique_prefix(a + b, c);
        }
        let merged = self.input.merge(&first);
        self.input = merged.merge(&second);
    }

    /// Writes whether the bus is powered.
    pub fn write(&self, writer: &mut SimulatorWriter)
        ensures
            final(writer)@ == old(writer)@.push((self.powered_id(), self.input_pairs().len() > 0)),
    {
        writer.write_bool(self.bus_powered_id.as_str(), self.input.is_powered());
    }
}

impl<R: Copy> PotentialSource<R> for ElectricalBus<R> {
    open spec fn output_pairs(&self) -> Seq<OriginWithRawPotentialPair<R>> {
        self.input_pairs()
    }

    fn output(&self) -> (potential: Potential<R>) {
        self.input
    }
}

} // verus!
