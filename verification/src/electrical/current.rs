//! Electric current tagged with the source it comes from, and the elements
//! it flows through. The magnitudes carried along with a current (frequency,
//! potential, amperage) are type parameters: `A` for alternating current,
//! `D` for direct current. Each source is given the magnitudes it provides.

use vstd::prelude::*;
use crate::overhead::OnOffPushButton;

verus! {

/// Where a current comes from.
#[derive(Clone, Copy, Debug, PartialEq, Eq, Structural)]
pub enum PowerSource {
    NoSource,
    EngineGenerator(u8),
    ApuGenerator,
    External,
    EmergencyGenerator,
    Battery(u8),
}

/// A type of electric current, or none.
#[derive(Clone, Copy, Debug)]
pub enum Current<A, D> {
    Alternating(PowerSource, A),
    Direct(PowerSource, D),
    Unpowered,
}

impl<A: Copy, D: Copy> Current<A, D> {
    pub open spec fn powered(self) -> bool {
        !(self is Unpowered)
    }

    pub open spec fn source_of(self) -> PowerSource {
        match self {
            Current::Alternating(source, _) => source,
            Current::Direct(source, _) => source,
            Current::Unpowered => PowerSource::NoSource,
        }
    }

    pub fn is_powered(&self) -> (powered: bool)
        ensures
            powered == self.powered(),
    {
        match self {
            Current::Alternating(..) => true,
            Current::Direct(..) => true,
            _ => false,
        }
    }

    pub fn is_unpowered(&self) -> (unpowered: bool)
        ensures
            unpowered == !self.powered(),
    {
        if let Current::Unpowered = self {
            true
        } else {
            false
        }
    }

    pub fn source(self) -> (source: PowerSource)
        ensures
            source == self.source_of(),
    {
        match self {
            Current::Alternating(source, ..) => source,
            Current::Direct(source, ..) => source,
            _ => PowerSource::NoSource,
        }
    }
}

/// Something current flows out of.
pub trait PowerConductor<A: Copy, D: Copy> {
    spec fn current(&self) -> Current<A, D>;

    fn output(&self) -> (current: Current<A, D>)
        ensures
            current == self.current(),
    ;

    fn is_powered(&self) -> (powered: bool)
        ensures
            powered == self.current().powered(),
    {
        self.output().is_powered()
    }

    fn is_unpowered(&self) -> (unpowered: bool)
        ensures
            unpowered == !self.current().powered(),
    {
        self.output().is_unpowered()
    }
}

impl<A: Copy, D: Copy> PowerConductor<A, D> for Current<A, D> {
    open spec fn current(&self) -> Current<A, D> {
        *self
    }

    fn output(&self) -> (current: Current<A, D>) {
        *self
    }
}

/// The current of the first powered source, or none when none is powered.
pub open spec fn first_powered<A: Copy, D: Copy, T: PowerConductor<A, D>>(sources: Seq<&T>) -> Current<A, D>
    decreases sources.len(),
{
    if sources.len() == 0 {
        Current::Unpowered
    } else if sources[0].current().powered() {
        sources[0].current()
    } else {
        first_powered(sources.drop_first())
    }
}

/// The current of the last powered source, or `current` when none is powered.
pub open spec fn last_powered<A: Copy, D: Copy, T: PowerConductor<A, D>>(
    current: Current<A, D>,
    sources: Seq<&T>,
) -> Current<A, D>
    decreases sources.len(),
{
    if sources.len() == 0 {
        current
    } else if sources.last().current().powered() {
        sources.last().current()
    } else {
        last_powered(current, sources.drop_last())
    }
}

/// Something current flows into.
pub trait Powerable<A: Copy, D: Copy> {
    spec fn input(&self) -> Current<A, D>;

    /// Whether `self` and `other` differ at most in their input.
    spec fn same_besides_input(&self, other: &Self) -> bool;

    fn set_input(&mut self, current: Current<A, D>)
        ensures
            final(self).input() == current,
            final(self).same_besides_input(&*old(self)),
    ;

    fn get_input(&self) -> (current: Current<A, D>)
        ensures
            current == self.input(),
    ;

    /// Takes its input from the first of the sources that has output; when
    /// none has, there is no input.
    fn powered_by<T: PowerConductor<A, D>>(&mut self, sources: Vec<&T>)
        ensures
            final(self).input() == first_powered(sources@),
            final(self).same_besides_input(&*old(self)),
    {
        let mut found: Current<A, D> = Current::Unpowered;
        let mut i: usize = sources.len();
        while i > 0
            invariant
                i <= sources@.len(),
                found == first_powered(sources@.skip(i as int)),
            decreases i,
        {
            i -= 1;
            let output = sources[i].output();
            assert(sources@.skip(i as int).drop_first() =~= sources@.skip(i + 1));
            if output.is_powered() {
                found = output;
            }
        }
        assert(sources@.skip(0) =~= sources@);
        self.set_input(found);
    }

    /// When there is no input yet, takes its input from each source that
    /// has output in turn (so the last of them gives the input); otherwise
    /// keeps its input.
    fn or_powered_by<T: PowerConductor<A, D>>(&mut self, sources: Vec<&T>)
        ensures
            final(self).input() == if old(self).input().powered() {
                old(self).input()
            } else {
                last_powered(old(self).input(), sources@)
            },
            final(self).same_besides_input(&*old(self)),
    {
        let input = self.get_input();
        if input.is_powered() {
            self.set_input(input);
        } else {
            let mut current = input;
            let mut i: usize = 0;
            assert(sources@.take(0) =~= Seq::<&T>::empty());
            while i < sources.len()
                invariant
                    i <= sources@.len(),
                    current == last_powered(input, sources@.take(i as int)),
                decreases sources.len() - i,
            {
                let output = sources[i].output();
                assert(sources@.take(i + 1).drop_last() =~= sources@.take(i as int));
                if !output.is_unpowered() {
                    current = output;
                }
                i += 1;
            }
            assert(sources@.take(sources.len() as int) =~= sources@);
            self.set_input(current);
        }
    }
}

/// The position of a contactor.
#[derive(Clone, Copy, Debug, PartialEq, Eq, Structural)]
pub enum ContactorState {
    Open,
    Closed,
}

/// A contactor: when closed, its input flows out of it.
pub struct Contactor<A, D> {
    id: String,
    state: ContactorState,
    input: Current<A, D>,
}

impl<A: Copy, D: Copy> Contactor<A, D> {
    pub closed spec fn position(&self) -> ContactorState {
        self.state
    }

    pub closed spec fn identifier(&self) -> Seq<char> {
        self.id@
    }

    pub fn new(id: String) -> (contactor: Contactor<A, D>)
        ensures
            contactor.position() == ContactorState::Open,
            contactor.input() is Unpowered,
            contactor.identifier() == id@,
    {
        Contactor { id, state: ContactorState::Open, input: Current::Unpowered }
    }

    pub fn close_when(&mut self, should_be_closed: bool)
        ensures
            final(self).position() == if should_be_closed { ContactorState::Closed } else { ContactorState::Open },
            final(self).input() == old(self).input(),
            final(self).identifier() == old(self).identifier(),
    {
        self.state = match self.state {
            ContactorState::Open if should_be_closed => ContactorState::Closed,
            ContactorState::Closed if !should_be_closed => ContactorState::Open,
            _ => self.state,
        };
    }

    pub fn is_open(&self) -> (open: bool)
        ensures
            open == (self.position() == ContactorState::Open),
    {
        if let ContactorState::Open = self.state {
            true
        } else {
            false
        }
    }

    pub fn is_closed(&self) -> (closed: bool)
        ensures
            closed == (self.position() == ContactorState::Closed),
    {
        !self.is_open()
    }
}

impl<A: Copy, D: Copy> Powerable<A, D> for Contactor<A, D> {
    closed spec fn input(&self) -> Current<A, D> {
        self.input
    }

    open spec fn same_besides_input(&self, other: &Self) -> bool {
        self.identifier() == other.identifier() && self.position() == other.position()
    }

    fn set_input(&mut self, current: Current<A, D>) {
        self.input = current;
    }

    fn get_input(&self) -> (current: Current<A, D>) {
        self.input
    }
}

impl<A: Copy, D: Copy> PowerConductor<A, D> for Contactor<A, D> {
    open spec fn current(&self) -> Current<A, D> {
        if self.position() == ContactorState::Closed {
            self.input()
        } else {
            Current::Unpowered
        }
    }

    fn output(&self) -> (current: Current<A, D>) {
        if let ContactorState::Closed = self.state {
            self.input
        } else {
            Current::Unpowered
        }
    }
}

/// The generator of an engine: it provides alternating current while the
/// engine's N2 is above 57.5 % and its IDG push button is on.
pub struct EngineGenerator<A, D> {
    number: u8,
    magnitudes: A,
    output: Current<A, D>,
}

impl<A: Copy, D: Copy> EngineGenerator<A, D> {
    pub closed spec fn generator_number(&self) -> u8 {
        self.number
    }

    pub closed spec fn magnitudes(&self) -> A {
        self.magnitudes
    }

    pub fn new(number: u8, magnitudes: A) -> (generator: EngineGenerator<A, D>)
        ensures
            generator.current() is Unpowered,
            generator.generator_number() == number,
            generator.magnitudes() == magnitudes,
    {
        EngineGenerator { number, magnitudes, output: Current::Unpowered }
    }

    /// Given whether the engine's N2 is above the threshold.
    pub fn update(&mut self, engine_n2_above_threshold: bool, idg_push_button: &OnOffPushButton)
        ensures
            final(self).current() == if engine_n2_above_threshold && idg_push_button.state_of()
                == crate::overhead::OnOffPushButtonState::On {
                Current::<A, D>::Alternating(PowerSource::EngineGenerator(old(self).generator_number()), old(self).magnitudes())
            } else {
                Current::Unpowered
            },
            final(self).generator_number() == old(self).generator_number(),
            final(self).magnitudes() == old(self).magnitudes(),
    {
        if engine_n2_above_threshold && idg_push_button.is_on() {
            self.output = Current::Alternating(PowerSource::EngineGenerator(self.number), self.magnitudes);
        } else {
            self.output = Current::Unpowered
        }
    }
}

impl<A: Copy, D: Copy> PowerConductor<A, D> for EngineGenerator<A, D> {
    closed spec fn current(&self) -> Current<A, D> {
        self.output
    }

    fn output(&self) -> (current: Current<A, D>) {
        self.output
    }
}

/// The APU generator: it provides alternating current while the APU's
/// speed is above 57.5 %.
pub struct ApuGenerator<A, D> {
    magnitudes: A,
    output: Current<A, D>,
}

impl<A: Copy, D: Copy> ApuGenerator<A, D> {
    pub closed spec fn magnitudes(&self) -> A {
        self.magnitudes
    }

    pub fn new(magnitudes: A) -> (generator: ApuGenerator<A, D>)
        ensures
            generator.current() is Unpowered,
            generator.magnitudes() == magnitudes,
    {
        ApuGenerator { magnitudes, output: Current::Unpowered }
    }

    /// Given whether the APU's speed is above the threshold.
    pub fn update(&mut self, apu_speed_above_threshold: bool)
        ensures
            final(self).current() == if apu_speed_above_threshold {
                Current::<A, D>::Alternating(PowerSource::ApuGenerator, old(self).magnitudes())
            } else {
                Current::Unpowered
            },
            final(self).magnitudes() == old(self).magnitudes(),
    {
        if apu_speed_above_threshold {
            self.output = Current::Alternating(PowerSource::ApuGenerator, self.magnitudes);
        } else {
            self.output = Current::Unpowered
        }
    }
}

impl<A: Copy, D: Copy> PowerConductor<A, D> for ApuGenerator<A, D> {
    closed spec fn current(&self) -> Current<A, D> {
        self.output
    }

    fn output(&self) -> (current: Current<A, D>) {
        self.output
    }
}

/// External power provides alternating current while connected.
pub struct ExternalPowerSource<A> {
    pub is_connected: bool,
    pub magnitudes: A,
}

impl<A: Copy> ExternalPowerSource<A> {
    pub fn new(magnitudes: A) -> (ext_pwr: ExternalPowerSource<A>)
        ensures
            !ext_pwr.is_connected,
            ext_pwr.magnitudes == magnitudes,
    {
        ExternalPowerSource { is_connected: false, magnitudes }
    }
}

impl<A: Copy, D: Copy> PowerConductor<A, D> for ExternalPowerSource<A> {
    open spec fn current(&self) -> Current<A, D> {
        if self.is_connected {
            Current::Alternating(PowerSource::External, self.magnitudes)
        } else {
            Current::Unpowered
        }
    }

    fn output(&self) -> (current: Current<A, D>) {
        if self.is_connected {
            Current::Alternating(PowerSource::External, self.magnitudes)
        } else {
            Current::Unpowered
        }
    }
}

/// A bus passes its input on unless it failed.
pub struct ElectricalBus<A, D> {
    input: Current<A, D>,
    failed: bool,
}

impl<A: Copy, D: Copy> ElectricalBus<A, D> {
    pub closed spec fn is_failed(&self) -> bool {
        self.failed
    }

    pub fn new() -> (bus: ElectricalBus<A, D>)
        ensures
            bus.input() is Unpowered,
            !bus.is_failed(),
    {
        ElectricalBus { input: Current::Unpowered, failed: false }
    }

    pub fn fail(&mut self)
        ensures
            final(self).is_failed(),
            final(self).input() == old(self).input(),
    {
        self.failed = true;
    }

    pub fn normal(&mut self)
        ensures
            !final(self).is_failed(),
            final(self).input() == old(self).input(),
    {
        self.failed = false;
    }
}

impl<A: Copy, D: Copy> Powerable<A, D> for ElectricalBus<A, D> {
    closed spec fn input(&self) -> Current<A, D> {
        self.input
    }

    open spec fn same_besides_input(&self, other: &Self) -> bool {
        self.is_failed() == other.is_failed()
    }

    fn set_input(&mut self, current: Current<A, D>) {
        self.input = current;
    }

    fn get_input(&self) -> (current: Current<A, D>) {
        self.input
    }
}

impl<A: Copy, D: Copy> PowerConductor<A, D> for ElectricalBus<A, D> {
    open spec fn current(&self) -> Current<A, D> {
        if !self.is_failed() {
            self.input()
        } else {
            Current::Unpowered
        }
    }

    fn output(&self) -> (current: Current<A, D>) {
        if !self.failed {
            self.input
        } else {
            Current::Unpowered
        }
    }
}

/// A transformer rectifier turns alternating current into direct current
/// from the same source, unless it failed.
pub struct TransformerRectifier<A, D> {
    input: Current<A, D>,
    failed: bool,
    magnitudes: D,
}

impl<A: Copy, D: Copy> TransformerRectifier<A, D> {
    pub closed spec fn is_failed(&self) -> bool {
        self.failed
    }

    pub closed spec fn dc_magnitudes(&self) -> D {
        self.magnitudes
    }

    pub fn new(magnitudes: D) -> (tr: TransformerRectifier<A, D>)
        ensures
            tr.input() is Unpowered,
            !tr.is_failed(),
            tr.dc_magnitudes() == magnitudes,
    {
        TransformerRectifier { input: Current::Unpowered, failed: false, magnitudes }
    }

    pub fn fail(&mut self)
        ensures
            final(self).is_failed(),
            final(self).input() == old(self).input(),
            final(self).dc_magnitudes() == old(self).dc_magnitudes(),
    {
        self.failed = true;
    }

    pub fn normal(&mut self)
        ensures
            !final(self).is_failed(),
            final(self).input() == old(self).input(),
            final(self).dc_magnitudes() == old(self).dc_magnitudes(),
    {
        self.failed = false;
    }

    pub fn has_failed(&self) -> (failed: bool)
        ensures
            failed == self.is_failed(),
    {
        self.failed
    }
}

impl<A: Copy, D: Copy> Powerable<A, D> for TransformerRectifier<A, D> {
    closed spec fn input(&self) -> Current<A, D> {
        self.input
    }

    open spec fn same_besides_input(&self, other: &Self) -> bool {
        self.is_failed() == other.is_failed() && self.dc_magnitudes() == other.dc_magnitudes()
    }

    fn set_input(&mut self, current: Current<A, D>) {
        self.input = current;
    }

    fn get_input(&self) -> (current: Current<A, D>) {
        self.input
    }
}

impl<A: Copy, D: Copy> PowerConductor<A, D> for TransformerRectifier<A, D> {
    open spec fn current(&self) -> Current<A, D> {
        if self.is_failed() {
            Current::Unpowered
        } else {
            match self.input() {
                Current::Alternating(source, _) => Current::Direct(source, self.dc_magnitudes()),
                _ => Current::Unpowered,
            }
        }
    }

    fn output(&self) -> (current: Current<A, D>) {
        if self.failed {
            Current::Unpowered
        } else {
            match self.input {
                Current::Alternating(source, ..) => Current::Direct(source, self.magnitudes),
                _ => Current::Unpowered,
            }
        }
    }
}

/// The emergency generator runs once started while the blue hydraulic
/// system is pressurised.
pub struct EmergencyGenerator<A> {
    pub running: bool,
    pub is_blue_pressurised: bool,
    pub magnitudes: A,
}

impl<A: Copy> EmergencyGenerator<A> {
    pub fn new(magnitudes: A) -> (generator: EmergencyGenerator<A>)
        ensures
            !generator.running,
            !generator.is_blue_pressurised,
            generator.magnitudes == magnitudes,
    {
        EmergencyGenerator { running: false, is_blue_pressurised: false, magnitudes }
    }

    pub fn update(&mut self, is_blue_pressurised: bool)
        ensures
            final(self).is_blue_pressurised == is_blue_pressurised,
            final(self).running == old(self).running,
            final(self).magnitudes == old(self).magnitudes,
    {
        self.is_blue_pressurised = is_blue_pressurised;
    }

    pub fn attempt_start(&mut self)
        ensures
            final(self).running,
            final(self).is_blue_pressurised == old(self).is_blue_pressurised,
            final(self).magnitudes == old(self).magnitudes,
    {
        self.running = true;
    }

    pub fn is_running(&self) -> (running: bool)
        ensures
            running == (self.is_blue_pressurised && self.running),
    {
        self.is_blue_pressurised && self.running
    }
}

impl<A: Copy, D: Copy> PowerConductor<A, D> for EmergencyGenerator<A> {
    open spec fn current(&self) -> Current<A, D> {
        if self.is_blue_pressurised && self.running {
            Current::Alternating(PowerSource::EmergencyGenerator, self.magnitudes)
        } else {
            Current::Unpowered
        }
    }

    fn output(&self) -> (current: Current<A, D>) {
        if self.is_running() {
            Current::Alternating(PowerSource::EmergencyGenerator, self.magnitudes)
        } else {
            Current::Unpowered
        }
    }
}

/// A battery, full or empty. A charged battery provides direct current
/// while it receives none.
pub struct Battery<A, D> {
    number: u8,
    input: Current<A, D>,
    charged: bool,
    magnitudes: D,
}

impl<A: Copy, D: Copy> Battery<A, D> {
    pub closed spec fn battery_number(&self) -> u8 {
        self.number
    }

    pub closed spec fn charged(&self) -> bool {
        self.charged
    }

    pub closed spec fn magnitudes(&self) -> D {
        self.magnitudes
    }

    pub fn full(number: u8, magnitudes: D) -> (battery: Battery<A, D>)
        ensures
            battery.charged(),
            battery.battery_number() == number,
            battery.magnitudes() == magnitudes,
            battery.input() is Unpowered,
    {
        Battery { number, input: Current::Unpowered, charged: true, magnitudes }
    }

    pub fn empty(number: u8, magnitudes: D) -> (battery: Battery<A, D>)
        ensures
            !battery.charged(),
            battery.battery_number() == number,
            battery.magnitudes() == magnitudes,
            battery.input() is Unpowered,
    {
        Battery { number, input: Current::Unpowered, charged: false, magnitudes }
    }

    pub fn is_full(&self) -> (full: bool)
        ensures
            full == self.charged(),
    {
        self.charged
    }

    pub fn is_empty(&self) -> (empty: bool)
        ensures
            empty == !self.charged(),
    {
        !self.charged
    }
}

impl<A: Copy, D: Copy> Powerable<A, D> for Battery<A, D> {
    closed spec fn input(&self) -> Current<A, D> {
        self.input
    }

    open spec fn same_besides_input(&self, other: &Self) -> bool {
        self.battery_number() == other.battery_number() && self.charged() == other.charged()
            && self.magnitudes() == other.magnitudes()
    }

    fn set_input(&mut self, current: Current<A, D>) {
        self.input = current
    }

    fn get_input(&self) -> (current: Current<A, D>) {
        self.input
    }
}

impl<A: Copy, D: Copy> PowerConductor<A, D> for Battery<A, D> {
    open spec fn current(&self) -> Current<A, D> {
        if self.input() is Unpowered && self.charged() {
            Current::Direct(PowerSource::Battery(self.battery_number()), self.magnitudes())
        } else {
            Current::Unpowered
        }
    }

    fn output(&self) -> (current: Current<A, D>) {
        if let Current::Unpowered = self.input {
            if self.charged {
                return Current::Direct(PowerSource::Battery(self.number), self.magnitudes);
            }
        }
        Current::Unpowered
    }
}

/// The static inverter turns direct current into alternating current from
/// the same source.
pub struct StaticInverter<A, D> {
    input: Current<A, D>,
    magnitudes: A,
}

impl<A: Copy, D: Copy> StaticInverter<A, D> {
    pub closed spec fn ac_magnitudes(&self) -> A {
        self.magnitudes
    }

    pub fn new(magnitudes: A) -> (inverter: StaticInverter<A, D>)
        ensures
            inverter.input() is Unpowered,
            inverter.ac_magnitudes() == magnitudes,
    {
        StaticInverter { input: Current::Unpowered, magnitudes }
    }
}

impl<A: Copy, D: Copy> Powerable<A, D> for StaticInverter<A, D> {
    closed spec fn input(&self) -> Current<A, D> {
        self.input
    }

    open spec fn same_besides_input(&self, other: &Self) -> bool {
        self.ac_magnitudes() == other.ac_magnitudes()
    }

    fn set_input(&mut self, current: Current<A, D>) {
        self.input = current;
    }

    fn get_input(&self) -> (current: Current<A, D>) {
        self.input
    }
}

impl<A: Copy, D: Copy> PowerConductor<A, D> for StaticInverter<A, D> {
    open spec fn current(&self) -> Current<A, D> {
        match self.input() {
            Current::Direct(source, _) => Current::Alternating(source, self.ac_magnitudes()),
            _ => Current::Unpowered,
        }
    }

    fn output(&self) -> (current: Current<A, D>) {
        match self.input {
            Current::Direct(source, ..) => Current::Alternating(source, self.magnitudes),
            _ => Current::Unpowered,
        }
    }
}

/// The emergency generator supplies exactly while the blue system is
/// pressurised and it was started: never before it is started, and then as
/// alternating current from itself with its own magnitudes.
pub proof fn law_emergency_generator_supplies_only_when_started_and_pressurised<A: Copy, D: Copy>(
    generator: EmergencyGenerator<A>,
)
    ensures
        PowerConductor::<A, D>::current(&generator).powered() <==> (generator.is_blue_pressurised && generator.running),
        !generator.running ==> PowerConductor::<A, D>::current(&generator) == Current::<A, D>::Unpowered,
        PowerConductor::<A, D>::current(&generator).powered() ==> PowerConductor::<A, D>::current(&generator)
            == Current::<A, D>::Alternating(PowerSource::EmergencyGenerator, generator.magnitudes),
{
}

} // verus!
