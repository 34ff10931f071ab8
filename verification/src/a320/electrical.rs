//! The A320 electrical power network: which contactors close and which
//! buses are powered, given the state of the engines, the APU, external
//! power, the emergency generator, the batteries and the overhead panel.

use vstd::prelude::*;
use crate::electrical::{
    decimal, first_powered, unique_by_origin, Contactor, ElectricalBus, ElectricalBusType, OriginWithRawPotentialPair,
    Potential, PotentialSource,
};
use crate::electrical::engine_generator::{
    next_time_above_threshold, whole_millis, CorrectedN2, EngineGenerator,
};
use crate::electrical::converters::{StaticInverter, TransformerRectifier};
use crate::electrical::emergency_generator::{EmergencyGenerator, EMERGENCY_GENERATOR_START_TIME_IN_NANOSECONDS};
use crate::electrical::external_power_source::{Battery, ExternalPowerSource};
use crate::electrical::potential::lemma_unique_len;
use crate::electrical::power_supply::SuppliedPower;
use crate::overhead::{
    AutoOffFaultPushButton, FaultReleasePushButton, NormalAltnFaultPushButton,
    OnOffAvailablePushButton, OnOffFaultPushButton,
};
pub use crate::shared::AirspeedBand;
use crate::shared::{
    delta_sum, gate_after, law_gate_output_over_a_run, saturating_sum, trailing_true_start, DelayedTrueLogicGate,
    UpdateContext,
};
use crate::simulation::{value_of, SimulatorReader, SimulatorWriter};

verus! {

/// The push buttons of the electrical section of the overhead panel.
pub struct A320ElectricalOverheadPanel {
    pub bat_1: AutoOffFaultPushButton,
    pub bat_2: AutoOffFaultPushButton,
    pub idg_1: FaultReleasePushButton,
    pub idg_2: FaultReleasePushButton,
    pub gen_1: OnOffFaultPushButton,
    pub gen_2: OnOffFaultPushButton,
    pub apu_gen: OnOffFaultPushButton,
    pub bus_tie: AutoOffFaultPushButton,
    pub ac_ess_feed: NormalAltnFaultPushButton,
    pub galy_and_cab: AutoOffFaultPushButton,
    pub ext_pwr: OnOffAvailablePushButton,
    pub commercial: OnOffFaultPushButton,
}

impl A320ElectricalOverheadPanel {
    /// Batteries, bus tie and galley in auto; IDGs in; generators and
    /// commercial on; AC ESS FEED normal; external power off.
    pub fn new() -> (panel: A320ElectricalOverheadPanel)
        ensures
            panel.bat_1.auto(),
            panel.bat_2.auto(),
            !panel.idg_1.released(),
            !panel.idg_2.released(),
            panel.gen_1.on(),
            panel.gen_2.on(),
            panel.apu_gen.on(),
            panel.bus_tie.auto(),
            panel.ac_ess_feed.normal(),
            !panel.ac_ess_feed.fault(),
            panel.galy_and_cab.auto(),
            !panel.ext_pwr.on(),
            panel.commercial.on(),
    {
        A320ElectricalOverheadPanel {
            bat_1: AutoOffFaultPushButton::new_auto("ELEC_BAT_10"),
            bat_2: AutoOffFaultPushButton::new_auto("ELEC_BAT_11"),
            idg_1: FaultReleasePushButton::new_in("ELEC_IDG_1"),
            idg_2: FaultReleasePushButton::new_in("ELEC_IDG_2"),
            gen_1: OnOffFaultPushButton::new_on("ELEC_ENG_GEN_1"),
            gen_2: OnOffFaultPushButton::new_on("ELEC_ENG_GEN_2"),
            apu_gen: OnOffFaultPushButton::new_on("ELEC_APU_GEN"),
            bus_tie: AutoOffFaultPushButton::new_auto("ELEC_BUS_TIE"),
            ac_ess_feed: NormalAltnFaultPushButton::new_normal("ELEC_AC_ESS_FEED"),
            galy_and_cab: AutoOffFaultPushButton::new_auto("ELEC_GALY_AND_CAB"),
            ext_pwr: OnOffAvailablePushButton::new_off("ELEC_EXT_PWR"),
            commercial: OnOffFaultPushButton::new_on("ELEC_COMMERCIAL"),
        }
    }

    pub fn external_power_is_available(&self) -> (available: bool)
        ensures
            available == self.ext_pwr.available(),
    {
        self.ext_pwr.is_available()
    }

    pub fn external_power_is_on(&self) -> (on: bool)
        ensures
            on == self.ext_pwr.on(),
    {
        self.ext_pwr.is_on()
    }

    pub fn apu_generator_is_on(&self) -> (on: bool)
        ensures
            on == self.apu_gen.on(),
    {
        self.apu_gen.is_on()
    }
}

/// Whether a contactor is as built: open, receiving nothing, and written
/// under `ELEC_CONTACTOR_<code>_IS_CLOSED`.
pub open spec fn fresh_contactor<R>(contactor: Contactor<R>, code: Seq<char>) -> bool {
    &&& !contactor.closed_position()
    &&& contactor.input_pairs().len() == 0
    &&& contactor.closed_id() == "ELEC_CONTACTOR_"@ + code + "_IS_CLOSED"@
}

/// Whether an engine generator is as built: numbered `number`, connected,
/// never above the threshold, providing `potential` once it supplies.
pub open spec fn fresh_engine_generator<R>(generator: EngineGenerator<R>, number: usize, potential: R) -> bool {
    &&& generator.generator_number() == number
    &&& generator.drive().is_connected_spec()
    &&& generator.drive().time_above_threshold() == 0
    &&& generator.drive().generator_number() == number
    &&& generator.drive().connected_id() == "ELEC_ENG_GEN_"@ + decimal(number as nat) + "_IDG_IS_CONNECTED"@
    &&& generator.raw_potential() == potential
}

/// Whether a transformer rectifier is as built: numbered `number`, not
/// failed, receiving nothing, providing `potential` once powered.
pub open spec fn fresh_transformer_rectifier<R>(tr: TransformerRectifier<R>, number: usize, potential: R) -> bool {
    &&& tr.rectifier_number() == number
    &&& !tr.has_failed()
    &&& tr.input_pairs().len() == 0
    &&& tr.raw_potential() == potential
}

/// The engine generators, APU generator and external power, with the
/// contactors connecting them to AC BUS 1 and 2.
struct A320MainPowerSources<R> {
    engine_1_gen: EngineGenerator<R>,
    engine_1_gen_contactor: Contactor<R>,
    engine_2_gen: EngineGenerator<R>,
    engine_2_gen_contactor: Contactor<R>,
    bus_tie_1_contactor: Contactor<R>,
    bus_tie_2_contactor: Contactor<R>,
    apu_gen_contactor: Contactor<R>,
    ext_pwr_contactor: Contactor<R>,
}

impl<R: Copy> A320MainPowerSources<R> {
    fn new(potential: R) -> (sources: Self)
        ensures
            fresh_engine_generator(sources.engine_1_gen, 1, potential),
            fresh_engine_generator(sources.engine_2_gen, 2, potential),
            fresh_contactor(sources.engine_1_gen_contactor, "9XU1"@),
            fresh_contactor(sources.engine_2_gen_contactor, "9XU2"@),
            fresh_contactor(sources.bus_tie_1_contactor, "11XU1"@),
            fresh_contactor(sources.bus_tie_2_contactor, "11XU2"@),
            fresh_contactor(sources.apu_gen_contactor, "3XS"@),
            fresh_contactor(sources.ext_pwr_contactor, "3XG"@),
    {
        A320MainPowerSources {
            engine_1_gen: EngineGenerator::new(1, potential),
            engine_1_gen_contactor: Contactor::new("9XU1"),
            engine_2_gen: EngineGenerator::new(2, potential),
            engine_2_gen_contactor: Contactor::new("9XU2"),
            bus_tie_1_contactor: Contactor::new("11XU1"),
            bus_tie_2_contactor: Contactor::new("11XU2"),
            apu_gen_contactor: Contactor::new("3XS"),
            ext_pwr_contactor: Contactor::new("3XG"),
        }
    }

    /// What bus tie 1 receives from the sources on its side.
    spec fn bus_tie_1_feed(&self) -> Seq<OriginWithRawPotentialPair<R>> {
        first_powered(
            first_powered(self.engine_1_gen_contactor.output_pairs(), self.apu_gen_contactor.output_pairs()),
            self.ext_pwr_contactor.output_pairs(),
        )
    }

    /// What bus tie 2 receives from the sources on its side.
    spec fn bus_tie_2_feed(&self) -> Seq<OriginWithRawPotentialPair<R>> {
        first_powered(
            first_powered(self.engine_2_gen_contactor.output_pairs(), self.apu_gen_contactor.output_pairs()),
            self.ext_pwr_contactor.output_pairs(),
        )
    }

    fn update(
        &mut self,
        context: &UpdateContext,
        engine_1_n2: CorrectedN2,
        engine_2_n2: CorrectedN2,
        apu: &Potential<R>,
        ext_pwr: &ExternalPowerSource<R>,
        overhead: &A320ElectricalOverheadPanel,
    )
        ensures
            final(self).engine_1_gen.drive().is_connected_spec() == (old(self).engine_1_gen.drive().is_connected_spec()
                && !overhead.idg_1.released()),
            final(self).engine_1_gen.drive().time_above_threshold() == next_time_above_threshold(
                old(self).engine_1_gen.drive().time_above_threshold(),
                final(self).engine_1_gen.drive().is_connected_spec(),
                engine_1_n2,
                whole_millis(context.delta_nanos()),
            ),
            final(self).engine_1_gen.generator_number() == old(self).engine_1_gen.generator_number(),
            final(self).engine_1_gen.raw_potential() == old(self).engine_1_gen.raw_potential(),
            final(self).engine_2_gen.drive().is_connected_spec() == (old(self).engine_2_gen.drive().is_connected_spec()
                && !overhead.idg_2.released()),
            final(self).engine_2_gen.drive().time_above_threshold() == next_time_above_threshold(
                old(self).engine_2_gen.drive().time_above_threshold(),
                final(self).engine_2_gen.drive().is_connected_spec(),
                engine_2_n2,
                whole_millis(context.delta_nanos()),
            ),
            final(self).engine_2_gen.generator_number() == old(self).engine_2_gen.generator_number(),
            final(self).engine_2_gen.raw_potential() == old(self).engine_2_gen.raw_potential(),
            ({
                let s = *final(self);
                let gen_1 = overhead.gen_1.on() && s.engine_1_gen.supplies();
                let gen_2 = overhead.gen_2.on() && s.engine_2_gen.supplies();
                let both_gens = gen_1 && gen_2;
                let only_one_gen = gen_1 != gen_2;
                let ext = overhead.ext_pwr.on() && ext_pwr.output_pairs().len() > 0 && !both_gens;
                let apu_gen = overhead.apu_gen.on() && apu.pairs().len() > 0 && !ext && !both_gens;
                let apu_or_ext = ext || apu_gen;
                &&& s.engine_1_gen_contactor.closed_position() == gen_1
                &&& s.engine_2_gen_contactor.closed_position() == gen_2
                &&& s.ext_pwr_contactor.closed_position() == ext
                &&& s.apu_gen_contactor.closed_position() == apu_gen
                &&& s.bus_tie_1_contactor.closed_position() == (overhead.bus_tie.auto() && ((only_one_gen
                    && !apu_or_ext) || (apu_or_ext && !gen_1)))
                &&& s.bus_tie_2_contactor.closed_position() == (overhead.bus_tie.auto() && ((only_one_gen
                    && !apu_or_ext) || (apu_or_ext && !gen_2)))
            }),
            final(self).engine_1_gen_contactor.input_pairs() == final(self).engine_1_gen.output_pairs(),
            final(self).engine_2_gen_contactor.input_pairs() == final(self).engine_2_gen.output_pairs(),
            final(self).apu_gen_contactor.input_pairs() == apu.pairs(),
            final(self).ext_pwr_contactor.input_pairs() == ext_pwr.output_pairs(),
            final(self).bus_tie_1_contactor.input_pairs() == first_powered(
                final(self).bus_tie_1_feed(),
                if final(self).bus_tie_2_contactor.closed_position() {
                    final(self).bus_tie_2_feed()
                } else {
                    Seq::empty()
                },
            ),
            final(self).bus_tie_2_contactor.input_pairs() == first_powered(
                final(self).bus_tie_2_feed(),
                final(self).bus_tie_1_contactor.output_pairs(),
            ),
    {
        self.engine_1_gen.update(context, engine_1_n2, overhead.idg_1.is_released());
        self.engine_2_gen.update(context, engine_2_n2, overhead.idg_2.is_released());

        let gen_1_provides_power = overhead.gen_1.is_on() && self.engine_1_gen.provides_stable_power_output();
        let gen_2_provides_power = overhead.gen_2.is_on() && self.engine_2_gen.provides_stable_power_output();
        let no_engine_gen_provides_power = !gen_1_provides_power && !gen_2_provides_power;
        let only_one_engine_gen_is_powered = gen_1_provides_power != gen_2_provides_power;
        let both_engine_gens_provide_power = !(no_engine_gen_provides_power || only_one_engine_gen_is_powered);
        let ext_pwr_provides_power = overhead.ext_pwr.is_on() && ext_pwr.is_powered()
            && !both_engine_gens_provide_power;
        let apu_gen_provides_power = overhead.apu_gen.is_on() && apu.is_powered() && !ext_pwr_provides_power
            && !both_engine_gens_provide_power;

        self.engine_1_gen_contactor.close_when(gen_1_provides_power);
        self.engine_2_gen_contactor.close_when(gen_2_provides_power);
        self.apu_gen_contactor.close_when(apu_gen_provides_power);
        self.ext_pwr_contactor.close_when(ext_pwr_provides_power);

        let apu_or_ext_pwr_provides_power = ext_pwr_provides_power || apu_gen_provides_power;
        let bus_tie_auto = overhead.bus_tie.is_auto();
        self.bus_tie_1_contactor.close_when(
            bus_tie_auto && ((only_one_engine_gen_is_powered && !apu_or_ext_pwr_provides_power) || (
            apu_or_ext_pwr_provides_power && !gen_1_provides_power)),
        );
        self.bus_tie_2_contactor.close_when(
            bus_tie_auto && ((only_one_engine_gen_is_powered && !apu_or_ext_pwr_provides_power) || (
            apu_or_ext_pwr_provides_power && !gen_2_provides_power)),
        );

        self.apu_gen_contactor.powered_by(apu);
        self.ext_pwr_contactor.powered_by(ext_pwr);

        self.engine_1_gen_contactor.powered_by(&self.engine_1_gen);
        self.bus_tie_1_contactor.powered_by(&self.engine_1_gen_contactor);
        self.bus_tie_1_contactor.or_powered_by(&self.apu_gen_contactor);
        self.bus_tie_1_contactor.or_powered_by(&self.ext_pwr_contactor);

        self.engine_2_gen_contactor.powered_by(&self.engine_2_gen);
        self.bus_tie_2_contactor.powered_by(&self.engine_2_gen_contactor);
        self.bus_tie_2_contactor.or_powered_by(&self.apu_gen_contactor);
        self.bus_tie_2_contactor.or_powered_by(&self.ext_pwr_contactor);

        self.bus_tie_1_contactor.or_powered_by(&self.bus_tie_2_contactor);
        self.bus_tie_2_contactor.or_powered_by(&self.bus_tie_1_contactor);
    }
}

/// The time AC BUS 1 has to be unpowered before AC BUS 2 feeds the AC ESS
/// BUS, in nanoseconds.
pub const AC_ESS_FEED_TO_AC_BUS_2_DELAY_IN_NANOSECONDS: u64 = 3_000_000_000;

/// The contactors feeding the AC ESS BUS from AC BUS 1 (normally) or AC BUS 2
/// (after AC BUS 1 was lost for a while, or when AC ESS FEED is in ALTN).
struct A320AcEssFeedContactors<R> {
    ac_ess_feed_contactor_1: Contactor<R>,
    ac_ess_feed_contactor_2: Contactor<R>,
    ac_ess_feed_contactor_delay_logic_gate: DelayedTrueLogicGate,
}

impl<R: Copy> A320AcEssFeedContactors<R> {
    fn new() -> (contactors: Self)
        ensures
            contactors.ac_ess_feed_contactor_delay_logic_gate.delay_nanos() == AC_ESS_FEED_TO_AC_BUS_2_DELAY_IN_NANOSECONDS,
            !contactors.ac_ess_feed_contactor_delay_logic_gate.expression(),
            contactors.ac_ess_feed_contactor_delay_logic_gate.true_for() == 0,
            fresh_contactor(contactors.ac_ess_feed_contactor_1, "3XC1"@),
            fresh_contactor(contactors.ac_ess_feed_contactor_2, "3XC2"@),
    {
        A320AcEssFeedContactors {
            ac_ess_feed_contactor_1: Contactor::new("3XC1"),
            ac_ess_feed_contactor_2: Contactor::new("3XC2"),
            ac_ess_feed_contactor_delay_logic_gate: DelayedTrueLogicGate::new(
                AC_ESS_FEED_TO_AC_BUS_2_DELAY_IN_NANOSECONDS,
            ),
        }
    }

    fn update(
        &mut self,
        context: &UpdateContext,
        ac_bus_1: &ElectricalBus<R>,
        ac_bus_2: &ElectricalBus<R>,
        overhead: &A320ElectricalOverheadPanel,
    )
        ensures
            final(self).ac_ess_feed_contactor_delay_logic_gate.delay_nanos()
                == old(self).ac_ess_feed_contactor_delay_logic_gate.delay_nanos(),
            final(self).ac_ess_feed_contactor_delay_logic_gate.expression() == (ac_bus_1.input_pairs().len() == 0),
            final(self).ac_ess_feed_contactor_delay_logic_gate.true_for() == if old(self).ac_ess_feed_contactor_delay_logic_gate.expression()
                && ac_bus_1.input_pairs().len() == 0 {
                saturating_sum(old(self).ac_ess_feed_contactor_delay_logic_gate.true_for(), context.delta_nanos())
            } else {
                0
            },
            final(self).ac_ess_feed_contactor_1.closed_position() == (ac_bus_1.input_pairs().len() > 0
                && !final(self).ac_ess_feed_contactor_delay_logic_gate.spec_output() && overhead.ac_ess_feed.normal()),
            final(self).ac_ess_feed_contactor_2.closed_position() == (ac_bus_2.input_pairs().len() > 0
                && (final(self).ac_ess_feed_contactor_delay_logic_gate.spec_output() || !overhead.ac_ess_feed.normal())),
            final(self).ac_ess_feed_contactor_1.input_pairs() == ac_bus_1.input_pairs(),
            final(self).ac_ess_feed_contactor_2.input_pairs() == ac_bus_2.input_pairs(),
    {
        self.ac_ess_feed_contactor_delay_logic_gate.update(context, ac_bus_1.is_unpowered());

        let delayed = self.ac_ess_feed_contactor_delay_logic_gate.output();
        self.ac_ess_feed_contactor_1.close_when(
            ac_bus_1.is_powered() && (!delayed && overhead.ac_ess_feed.is_normal()),
        );
        self.ac_ess_feed_contactor_2.close_when(
            ac_bus_2.is_powered() && (delayed || overhead.ac_ess_feed.is_altn()),
        );

        self.ac_ess_feed_contactor_1.powered_by(ac_bus_1);
        self.ac_ess_feed_contactor_2.powered_by(ac_bus_2);
    }

    /// What the AC ESS BUS receives through the feed contactors.
    spec fn feed(&self) -> Seq<OriginWithRawPotentialPair<R>> {
        first_powered(self.ac_ess_feed_contactor_1.output_pairs(), self.ac_ess_feed_contactor_2.output_pairs())
    }

    fn provides_power(&self) -> (powered: bool)
        ensures
            powered == (self.feed().len() > 0),
    {
        self.ac_ess_feed_contactor_1.is_powered() || self.ac_ess_feed_contactor_2.is_powered()
    }
}

/// The alternating current part of the network.
struct A320AlternatingCurrentElectrical<R> {
    main_power_sources: A320MainPowerSources<R>,
    ac_ess_feed_contactors: A320AcEssFeedContactors<R>,
    ac_bus_1: ElectricalBus<R>,
    ac_bus_2: ElectricalBus<R>,
    ac_ess_bus: ElectricalBus<R>,
    ac_ess_shed_bus: ElectricalBus<R>,
    ac_ess_shed_contactor: Contactor<R>,
    tr_1: TransformerRectifier<R>,
    tr_2: TransformerRectifier<R>,
    tr_ess: TransformerRectifier<R>,
    ac_ess_to_tr_ess_contactor: Contactor<R>,
    emergency_gen: EmergencyGenerator<R>,
    emergency_gen_contactor: Contactor<R>,
    static_inv_to_ac_ess_bus_contactor: Contactor<R>,
    ac_stat_inv_bus: ElectricalBus<R>,
}

impl<R: Copy> A320AlternatingCurrentElectrical<R> {
    fn new(alternating_potential: R, direct_potential: R) -> (ac: Self)
        ensures
            !ac.emergency_gen.supplies(),
            !ac.emergency_gen.started(),
            ac.ac_bus_1.input_pairs().len() == 0,
            ac.ac_bus_2.input_pairs().len() == 0,
            ac.ac_ess_bus.input_pairs().len() == 0,
            ac.ac_ess_shed_bus.input_pairs().len() == 0,
            ac.ac_stat_inv_bus.input_pairs().len() == 0,
            !ac.tr_1.has_failed(),
            !ac.tr_2.has_failed(),
            !ac.tr_ess.has_failed(),
            ac.ac_ess_feed_contactors.ac_ess_feed_contactor_delay_logic_gate.delay_nanos()
                == AC_ESS_FEED_TO_AC_BUS_2_DELAY_IN_NANOSECONDS,
            !ac.ac_ess_feed_contactors.ac_ess_feed_contactor_delay_logic_gate.expression(),
            ac.ac_ess_feed_contactors.ac_ess_feed_contactor_delay_logic_gate.true_for() == 0,
            fresh_engine_generator(ac.main_power_sources.engine_1_gen, 1, alternating_potential),
            fresh_engine_generator(ac.main_power_sources.engine_2_gen, 2, alternating_potential),
            fresh_contactor(ac.main_power_sources.engine_1_gen_contactor, "9XU1"@),
            fresh_contactor(ac.main_power_sources.engine_2_gen_contactor, "9XU2"@),
            fresh_contactor(ac.main_power_sources.bus_tie_1_contactor, "11XU1"@),
            fresh_contactor(ac.main_power_sources.bus_tie_2_contactor, "11XU2"@),
            fresh_contactor(ac.main_power_sources.apu_gen_contactor, "3XS"@),
            fresh_contactor(ac.main_power_sources.ext_pwr_contactor, "3XG"@),
            fresh_contactor(ac.ac_ess_feed_contactors.ac_ess_feed_contactor_1, "3XC1"@),
            fresh_contactor(ac.ac_ess_feed_contactors.ac_ess_feed_contactor_2, "3XC2"@),
            fresh_contactor(ac.ac_ess_shed_contactor, "8XH"@),
            fresh_contactor(ac.ac_ess_to_tr_ess_contactor, "15XE1"@),
            fresh_contactor(ac.emergency_gen_contactor, "2XE"@),
            fresh_contactor(ac.static_inv_to_ac_ess_bus_contactor, "15XE2"@),
            fresh_transformer_rectifier(ac.tr_1, 1, direct_potential),
            fresh_transformer_rectifier(ac.tr_2, 2, direct_potential),
            fresh_transformer_rectifier(ac.tr_ess, 3, direct_potential),
            ac.emergency_gen.running_for() == 0,
            ac.emergency_gen.raw_potential() == alternating_potential,
    {
        A320AlternatingCurrentElectrical {
            main_power_sources: A320MainPowerSources::new(alternating_potential),
            ac_ess_feed_contactors: A320AcEssFeedContactors::new(),
            ac_bus_1: ElectricalBus::new(ElectricalBusType::AlternatingCurrent(1)),
            ac_bus_2: ElectricalBus::new(ElectricalBusType::AlternatingCurrent(2)),
            ac_ess_bus: ElectricalBus::new(ElectricalBusType::AlternatingCurrentEssential),
            ac_ess_shed_bus: ElectricalBus::new(ElectricalBusType::AlternatingCurrentEssentialShed),
            ac_ess_shed_contactor: Contactor::new("8XH"),
            tr_1: TransformerRectifier::new(1, direct_potential),
            tr_2: TransformerRectifier::new(2, direct_potential),
            tr_ess: TransformerRectifier::new(3, direct_potential),
            ac_ess_to_tr_ess_contactor: Contactor::new("15XE1"),
            emergency_gen: EmergencyGenerator::new(alternating_potential),
            emergency_gen_contactor: Contactor::new("2XE"),
            static_inv_to_ac_ess_bus_contactor: Contactor::new("15XE2"),
            ac_stat_inv_bus: ElectricalBus::new(ElectricalBusType::AlternatingCurrentStaticInverter),
        }
    }

    spec fn ac_bus_1_and_2_unpowered(&self) -> bool {
        self.ac_bus_1.input_pairs().len() == 0 && self.ac_bus_2.input_pairs().len() == 0
    }

    spec fn tr_1_and_2_available(&self) -> bool {
        self.tr_1.output_pairs().len() > 0 && self.tr_2.output_pairs().len() > 0
    }

    spec fn ac_1_and_2_and_emergency_gen_unpowered(&self) -> bool {
        self.ac_bus_1_and_2_unpowered() && !self.emergency_gen.supplies()
    }

    fn update(
        &mut self,
        context: &UpdateContext,
        airspeed: AirspeedBand,
        engine_1_n2: CorrectedN2,
        engine_2_n2: CorrectedN2,
        apu: &Potential<R>,
        ext_pwr: &ExternalPowerSource<R>,
        blue_hydraulic_pressurised: bool,
        overhead: &A320ElectricalOverheadPanel,
    )
        ensures
            final(self).emergency_gen.started() == old(self).emergency_gen.started(),
            final(self).emergency_gen.running_for() == if old(self).emergency_gen.started() {
                saturating_sum(old(self).emergency_gen.running_for(), context.delta_nanos())
            } else {
                old(self).emergency_gen.running_for()
            },
            final(self).emergency_gen.supplies() == (blue_hydraulic_pressurised && airspeed.above_100_knots()
                && final(self).emergency_gen.started()
                && final(self).emergency_gen.running_for() > EMERGENCY_GENERATOR_START_TIME_IN_NANOSECONDS),
            final(self).emergency_gen.raw_potential() == old(self).emergency_gen.raw_potential(),
            final(self).main_power_sources.engine_1_gen.drive().is_connected_spec() == (
                old(self).main_power_sources.engine_1_gen.drive().is_connected_spec() && !overhead.idg_1.released()),
            final(self).main_power_sources.engine_1_gen.drive().time_above_threshold() == next_time_above_threshold(
                old(self).main_power_sources.engine_1_gen.drive().time_above_threshold(),
                final(self).main_power_sources.engine_1_gen.drive().is_connected_spec(),
                engine_1_n2,
                whole_millis(context.delta_nanos()),
            ),
            final(self).main_power_sources.engine_2_gen.drive().is_connected_spec() == (
                old(self).main_power_sources.engine_2_gen.drive().is_connected_spec() && !overhead.idg_2.released()),
            final(self).main_power_sources.engine_2_gen.drive().time_above_threshold() == next_time_above_threshold(
                old(self).main_power_sources.engine_2_gen.drive().time_above_threshold(),
                final(self).main_power_sources.engine_2_gen.drive().is_connected_spec(),
                engine_2_n2,
                whole_millis(context.delta_nanos()),
            ),
            ({
                let m = final(self).main_power_sources;
                let gen_1 = overhead.gen_1.on() && m.engine_1_gen.supplies();
                let gen_2 = overhead.gen_2.on() && m.engine_2_gen.supplies();
                let both_gens = gen_1 && gen_2;
                let only_one_gen = gen_1 != gen_2;
                let ext = overhead.ext_pwr.on() && ext_pwr.output_pairs().len() > 0 && !both_gens;
                let apu_gen = overhead.apu_gen.on() && apu.pairs().len() > 0 && !ext && !both_gens;
                let apu_or_ext = ext || apu_gen;
                &&& m.engine_1_gen_contactor.closed_position() == gen_1
                &&& m.engine_2_gen_contactor.closed_position() == gen_2
                &&& m.ext_pwr_contactor.closed_position() == ext
                &&& m.apu_gen_contactor.closed_position() == apu_gen
                &&& m.bus_tie_1_contactor.closed_position() == (overhead.bus_tie.auto() && ((only_one_gen
                    && !apu_or_ext) || (apu_or_ext && !gen_1)))
                &&& m.bus_tie_2_contactor.closed_position() == (overhead.bus_tie.auto() && ((only_one_gen
                    && !apu_or_ext) || (apu_or_ext && !gen_2)))
                &&& m.engine_1_gen_contactor.input_pairs() == m.engine_1_gen.output_pairs()
                &&& m.engine_2_gen_contactor.input_pairs() == m.engine_2_gen.output_pairs()
                &&& m.apu_gen_contactor.input_pairs() == apu.pairs()
                &&& m.ext_pwr_contactor.input_pairs() == ext_pwr.output_pairs()
                &&& m.bus_tie_1_contactor.input_pairs() == first_powered(
                    m.bus_tie_1_feed(),
                    if m.bus_tie_2_contactor.closed_position() { m.bus_tie_2_feed() } else { Seq::empty() },
                )
                &&& m.bus_tie_2_contactor.input_pairs() == first_powered(
                    m.bus_tie_2_feed(),
                    m.bus_tie_1_contactor.output_pairs(),
                )
            }),
            final(self).main_power_sources.engine_1_gen.generator_number() == old(self).main_power_sources.engine_1_gen.generator_number(),
            final(self).main_power_sources.engine_2_gen.generator_number() == old(self).main_power_sources.engine_2_gen.generator_number(),
            final(self).main_power_sources.engine_1_gen.raw_potential() == old(self).main_power_sources.engine_1_gen.raw_potential(),
            final(self).main_power_sources.engine_2_gen.raw_potential() == old(self).main_power_sources.engine_2_gen.raw_potential(),
            final(self).ac_bus_1.input_pairs() == first_powered(
                final(self).main_power_sources.engine_1_gen_contactor.output_pairs(),
                final(self).main_power_sources.bus_tie_1_contactor.output_pairs(),
            ),
            final(self).ac_bus_2.input_pairs() == first_powered(
                final(self).main_power_sources.engine_2_gen_contactor.output_pairs(),
                final(self).main_power_sources.bus_tie_2_contactor.output_pairs(),
            ),
            final(self).tr_1.input_pairs() == final(self).ac_bus_1.input_pairs(),
            final(self).tr_2.input_pairs() == final(self).ac_bus_2.input_pairs(),
            ({
                let f = final(self).ac_ess_feed_contactors;
                let g = f.ac_ess_feed_contactor_delay_logic_gate;
                let og = old(self).ac_ess_feed_contactors.ac_ess_feed_contactor_delay_logic_gate;
                let ac_1 = final(self).ac_bus_1.input_pairs();
                let ac_2 = final(self).ac_bus_2.input_pairs();
                &&& g.delay_nanos() == og.delay_nanos()
                &&& g.expression() == (ac_1.len() == 0)
                &&& g.true_for() == if og.expression() && ac_1.len() == 0 {
                    saturating_sum(og.true_for(), context.delta_nanos())
                } else {
                    0
                }
                &&& f.ac_ess_feed_contactor_1.closed_position() == (ac_1.len() > 0 && !g.spec_output()
                    && overhead.ac_ess_feed.normal())
                &&& f.ac_ess_feed_contactor_2.closed_position() == (ac_2.len() > 0 && (g.spec_output()
                    || !overhead.ac_ess_feed.normal()))
                &&& f.ac_ess_feed_contactor_1.input_pairs() == ac_1
                &&& f.ac_ess_feed_contactor_2.input_pairs() == ac_2
            }),
            final(self).emergency_gen_contactor.closed_position() == (final(self).ac_bus_1_and_2_unpowered()
                && final(self).emergency_gen.supplies()),
            final(self).emergency_gen_contactor.input_pairs() == final(self).emergency_gen.output_pairs(),
            final(self).ac_ess_to_tr_ess_contactor.input_pairs() == first_powered(
                final(self).ac_ess_feed_contactors.feed(),
                final(self).emergency_gen_contactor.output_pairs(),
            ),
            final(self).ac_ess_to_tr_ess_contactor.closed_position() == ((!final(self).tr_1_and_2_available()
                && final(self).ac_ess_feed_contactors.feed().len() > 0)
                || final(self).emergency_gen_contactor.output_pairs().len() > 0),
            final(self).ac_ess_bus.input_pairs() == first_powered(
                final(self).ac_ess_feed_contactors.feed(),
                final(self).ac_ess_to_tr_ess_contactor.output_pairs(),
            ),
            final(self).ac_ess_shed_contactor.input_pairs() == final(self).ac_ess_bus.input_pairs(),
            final(self).ac_ess_shed_contactor.closed_position() == (!final(self).ac_bus_1_and_2_unpowered()
                || final(self).emergency_gen.supplies()),
            final(self).ac_ess_shed_bus.input_pairs() == final(self).ac_ess_shed_contactor.output_pairs(),
            final(self).tr_ess.input_pairs() == first_powered(
                final(self).ac_ess_to_tr_ess_contactor.output_pairs(),
                final(self).emergency_gen_contactor.output_pairs(),
            ),
            final(self).tr_1.has_failed() == old(self).tr_1.has_failed(),
            final(self).tr_2.has_failed() == old(self).tr_2.has_failed(),
            final(self).tr_ess.has_failed() == old(self).tr_ess.has_failed(),
            final(self).tr_1.rectifier_number() == old(self).tr_1.rectifier_number(),
            final(self).tr_2.rectifier_number() == old(self).tr_2.rectifier_number(),
            final(self).tr_ess.rectifier_number() == old(self).tr_ess.rectifier_number(),
            final(self).tr_1.raw_potential() == old(self).tr_1.raw_potential(),
            final(self).tr_2.raw_potential() == old(self).tr_2.raw_potential(),
            final(self).tr_ess.raw_potential() == old(self).tr_ess.raw_potential(),
            final(self).static_inv_to_ac_ess_bus_contactor == old(self).static_inv_to_ac_ess_bus_contactor,
            final(self).ac_stat_inv_bus == old(self).ac_stat_inv_bus,
    {
        self.emergency_gen.update(
            context,
            blue_hydraulic_pressurised && airspeed == AirspeedBand::Above100Knots,
        );

        self.main_power_sources.update(context, engine_1_n2, engine_2_n2, apu, ext_pwr, overhead);

        self.ac_bus_1.powered_by(&self.main_power_sources.engine_1_gen_contactor);
        self.ac_bus_1.or_powered_by(&self.main_power_sources.bus_tie_1_contactor);
        self.ac_bus_2.powered_by(&self.main_power_sources.engine_2_gen_contactor);
        self.ac_bus_2.or_powered_by(&self.main_power_sources.bus_tie_2_contactor);

        self.tr_1.powered_by(&self.ac_bus_1);
        self.tr_2.powered_by(&self.ac_bus_2);

        self.ac_ess_feed_contactors.update(context, &self.ac_bus_1, &self.ac_bus_2, overhead);

        self.ac_ess_bus.powered_by(&self.ac_ess_feed_contactors.ac_ess_feed_contactor_1);
        self.ac_ess_bus.or_powered_by(&self.ac_ess_feed_contactors.ac_ess_feed_contactor_2);

        let ac_bus_1_and_2_unpowered = self.ac_bus_1.is_unpowered() && self.ac_bus_2.is_unpowered();
        self.emergency_gen_contactor.close_when(
            ac_bus_1_and_2_unpowered && self.emergency_gen.is_powered(),
        );
        self.emergency_gen_contactor.powered_by(&self.emergency_gen);

        self.ac_ess_to_tr_ess_contactor.powered_by(&self.ac_ess_bus);
        self.ac_ess_to_tr_ess_contactor.or_powered_by(&self.emergency_gen_contactor);

        let tr_1_and_2_available = self.tr_1.is_powered() && self.tr_2.is_powered();
        let feed_provides_power = self.ac_ess_feed_contactors.provides_power();
        let emergency_gen_contactor_powered = self.emergency_gen_contactor.is_powered();
        self.ac_ess_to_tr_ess_contactor.close_when(
            (!tr_1_and_2_available && feed_provides_power) || emergency_gen_contactor_powered,
        );

        self.ac_ess_bus.or_powered_by(&self.ac_ess_to_tr_ess_contactor);

        self.ac_ess_shed_contactor.powered_by(&self.ac_ess_bus);

        self.tr_ess.powered_by(&self.ac_ess_to_tr_ess_contactor);
        self.tr_ess.or_powered_by(&self.emergency_gen_contactor);

        self.update_shedding();
    }

    fn update_shedding(&mut self)
        ensures
            final(self).ac_ess_shed_contactor.closed_position() == (!old(self).ac_bus_1_and_2_unpowered()
                || old(self).emergency_gen.supplies()),
            final(self).ac_ess_shed_contactor.input_pairs() == old(self).ac_ess_shed_contactor.input_pairs(),
            final(self).ac_ess_shed_bus.input_pairs() == final(self).ac_ess_shed_contactor.output_pairs(),
            final(self).main_power_sources == old(self).main_power_sources,
            final(self).ac_ess_feed_contactors == old(self).ac_ess_feed_contactors,
            final(self).ac_bus_1 == old(self).ac_bus_1,
            final(self).ac_bus_2 == old(self).ac_bus_2,
            final(self).ac_ess_bus == old(self).ac_ess_bus,
            final(self).tr_1 == old(self).tr_1,
            final(self).tr_2 == old(self).tr_2,
            final(self).tr_ess == old(self).tr_ess,
            final(self).ac_ess_to_tr_ess_contactor == old(self).ac_ess_to_tr_ess_contactor,
            final(self).emergency_gen == old(self).emergency_gen,
            final(self).emergency_gen_contactor == old(self).emergency_gen_contactor,
            final(self).static_inv_to_ac_ess_bus_contactor == old(self).static_inv_to_ac_ess_bus_contactor,
            final(self).ac_stat_inv_bus == old(self).ac_stat_inv_bus,
    {
        let ac_bus_or_emergency_gen_provides_power = self.ac_bus_1.is_powered() || self.ac_bus_2.is_powered()
            || self.emergency_gen.is_powered();
        self.ac_ess_shed_contactor.close_when(ac_bus_or_emergency_gen_provides_power);
        self.ac_ess_shed_bus.powered_by(&self.ac_ess_shed_contactor);
    }
}

/// The direct current part of the network.
struct A320DirectCurrentElectrical<R> {
    dc_bus_1: ElectricalBus<R>,
    dc_bus_2: ElectricalBus<R>,
    dc_bus_1_tie_contactor: Contactor<R>,
    dc_bus_2_tie_contactor: Contactor<R>,
    dc_bat_bus: ElectricalBus<R>,
    dc_ess_bus: ElectricalBus<R>,
    dc_bat_bus_to_dc_ess_bus_contactor: Contactor<R>,
    dc_ess_shed_bus: ElectricalBus<R>,
    dc_ess_shed_contactor: Contactor<R>,
    battery_1: Battery<R>,
    battery_1_contactor: Contactor<R>,
    battery_2: Battery<R>,
    battery_2_contactor: Contactor<R>,
    battery_2_to_dc_ess_bus_contactor: Contactor<R>,
    battery_1_to_static_inv_contactor: Contactor<R>,
    static_inverter: StaticInverter<R>,
    hot_bus_1: ElectricalBus<R>,
    hot_bus_2: ElectricalBus<R>,
    tr_1_contactor: Contactor<R>,
    tr_2_contactor: Contactor<R>,
    tr_ess_contactor: Contactor<R>,
}

impl<R: Copy> A320DirectCurrentElectrical<R> {
    fn new(alternating_potential: R, battery_potential: R) -> (dc: Self)
        ensures
            dc.dc_bus_1.input_pairs().len() == 0,
            dc.dc_bus_2.input_pairs().len() == 0,
            dc.dc_ess_bus.input_pairs().len() == 0,
            dc.dc_ess_shed_bus.input_pairs().len() == 0,
            dc.dc_bat_bus.input_pairs().len() == 0,
            dc.hot_bus_1.input_pairs().len() == 0,
            dc.hot_bus_2.input_pairs().len() == 0,
            dc.battery_1.fully_charged(),
            dc.battery_2.fully_charged(),
            dc.battery_1.charge_potential() == Some(battery_potential),
            dc.battery_2.charge_potential() == Some(battery_potential),
            dc.battery_1.battery_number() == 10,
            dc.battery_2.battery_number() == 11,
            fresh_contactor(dc.dc_bus_1_tie_contactor, "1PC1"@),
            fresh_contactor(dc.dc_bus_2_tie_contactor, "1PC2"@),
            fresh_contactor(dc.dc_bat_bus_to_dc_ess_bus_contactor, "4PC"@),
            fresh_contactor(dc.dc_ess_shed_contactor, "8PH"@),
            fresh_contactor(dc.battery_1_contactor, "6PB1"@),
            fresh_contactor(dc.battery_2_contactor, "6PB2"@),
            fresh_contactor(dc.battery_2_to_dc_ess_bus_contactor, "2XB2"@),
            fresh_contactor(dc.battery_1_to_static_inv_contactor, "2XB1"@),
            fresh_contactor(dc.tr_1_contactor, "5PU1"@),
            fresh_contactor(dc.tr_2_contactor, "5PU2"@),
            fresh_contactor(dc.tr_ess_contactor, "3PE"@),
            dc.static_inverter.input_pairs().len() == 0,
            dc.static_inverter.raw_potential() == alternating_potential,
    {
        A320DirectCurrentElectrical {
            dc_bus_1: ElectricalBus::new(ElectricalBusType::DirectCurrent(1)),
            dc_bus_1_tie_contactor: Contactor::new("1PC1"),
            dc_bus_2: ElectricalBus::new(ElectricalBusType::DirectCurrent(2)),
            dc_bus_2_tie_contactor: Contactor::new("1PC2"),
            dc_bat_bus: ElectricalBus::new(ElectricalBusType::DirectCurrentBattery),
            dc_ess_bus: ElectricalBus::new(ElectricalBusType::DirectCurrentEssential),
            dc_bat_bus_to_dc_ess_bus_contactor: Contactor::new("4PC"),
            dc_ess_shed_bus: ElectricalBus::new(ElectricalBusType::DirectCurrentEssentialShed),
            dc_ess_shed_contactor: Contactor::new("8PH"),
            battery_1: Battery::new(10, true, Some(battery_potential)),
            battery_1_contactor: Contactor::new("6PB1"),
            battery_2: Battery::new(11, true, Some(battery_potential)),
            battery_2_contactor: Contactor::new("6PB2"),
            battery_2_to_dc_ess_bus_contactor: Contactor::new("2XB2"),
            battery_1_to_static_inv_contactor: Contactor::new("2XB1"),
            static_inverter: StaticInverter::new(alternating_potential),
            hot_bus_1: ElectricalBus::new(ElectricalBusType::DirectCurrentHot(1)),
            hot_bus_2: ElectricalBus::new(ElectricalBusType::DirectCurrentHot(2)),
            tr_1_contactor: Contactor::new("5PU1"),
            tr_2_contactor: Contactor::new("5PU2"),
            tr_ess_contactor: Contactor::new("3PE"),
        }
    }

    /// Whether the 2XB contactors, connecting battery 2 to the DC ESS BUS
    /// and battery 1 to the static inverter, close.
    spec fn two_xb_should_close(
        &self,
        airspeed: AirspeedBand,
        ac: A320AlternatingCurrentElectrical<R>,
    ) -> bool {
        (airspeed.below_50_knots() && self.battery_1_contactor.closed_position()
            && self.battery_2_contactor.closed_position() && ac.ac_1_and_2_and_emergency_gen_unpowered())
            || (ac.ac_1_and_2_and_emergency_gen_unpowered() && !airspeed.below_50_knots())
    }

    fn update_with_alternating_current_state(
        &mut self,
        airspeed: AirspeedBand,
        overhead: &A320ElectricalOverheadPanel,
        ac: &A320AlternatingCurrentElectrical<R>,
    )
        ensures
            final(self).tr_1_contactor.closed_position() == (ac.tr_1.output_pairs().len() > 0),
            final(self).tr_1_contactor.input_pairs() == ac.tr_1.output_pairs(),
            final(self).tr_2_contactor.closed_position() == (ac.tr_2.output_pairs().len() > 0),
            final(self).tr_2_contactor.input_pairs() == ac.tr_2.output_pairs(),
            final(self).tr_ess_contactor.closed_position() == (!ac.tr_1_and_2_available()
                && ac.tr_ess.output_pairs().len() > 0),
            final(self).tr_ess_contactor.input_pairs() == ac.tr_ess.output_pairs(),
            ({
                let s = *final(self);
                let dc_1 = s.tr_1_contactor.output_pairs();
                let dc_2 = s.tr_2_contactor.output_pairs();
                let tie_1_closed = dc_1.len() > 0 || dc_2.len() > 0;
                let tie_2_closed = (dc_1.len() == 0 && dc_2.len() > 0) || (dc_2.len() == 0 && dc_1.len() > 0);
                let tie_1_out = if tie_1_closed { dc_1 } else { Seq::empty() };
                let tie_2_out = if tie_2_closed { dc_2 } else { Seq::empty() };
                let bat_bus = first_powered(tie_1_out, tie_2_out);
                let should_supply = ac.ac_bus_1_and_2_unpowered() && airspeed.below_100_knots();
                &&& s.dc_bus_1_tie_contactor.closed_position() == tie_1_closed
                &&& s.dc_bus_2_tie_contactor.closed_position() == tie_2_closed
                &&& s.dc_bus_1_tie_contactor.input_pairs() == first_powered(dc_1, bat_bus)
                &&& s.dc_bus_2_tie_contactor.input_pairs() == first_powered(dc_2, bat_bus)
                &&& s.dc_bus_1.input_pairs() == first_powered(dc_1, s.dc_bus_1_tie_contactor.output_pairs())
                &&& s.dc_bus_2.input_pairs() == first_powered(dc_2, s.dc_bus_2_tie_contactor.output_pairs())
                &&& s.battery_1_contactor.closed_position() == (overhead.bat_1.auto()
                    && (!s.battery_1.fully_charged() || should_supply))
                &&& s.battery_2_contactor.closed_position() == (overhead.bat_2.auto()
                    && (!s.battery_2.fully_charged() || should_supply))
                &&& s.battery_1.input_pairs() == (if s.battery_1_contactor.closed_position() { bat_bus } else { Seq::empty() })
                &&& s.battery_2.input_pairs() == (if s.battery_2_contactor.closed_position() { bat_bus } else { Seq::empty() })
                &&& s.battery_1_contactor.input_pairs() == first_powered(bat_bus, s.battery_1.output_pairs())
                &&& s.battery_2_contactor.input_pairs() == first_powered(bat_bus, s.battery_2.output_pairs())
                &&& s.dc_bat_bus.input_pairs() == unique_by_origin(bat_bus + s.battery_1_contactor.output_pairs()
                    + s.battery_2_contactor.output_pairs())
                &&& s.hot_bus_1.input_pairs() == first_powered(s.battery_1_contactor.output_pairs(), s.battery_1.output_pairs())
                &&& s.hot_bus_2.input_pairs() == first_powered(s.battery_2_contactor.output_pairs(), s.battery_2.output_pairs())
            }),
            final(self).battery_1.fully_charged() == old(self).battery_1.fully_charged(),
            final(self).battery_1.charge_potential() == old(self).battery_1.charge_potential(),
            final(self).battery_1.battery_number() == old(self).battery_1.battery_number(),
            final(self).battery_2.fully_charged() == old(self).battery_2.fully_charged(),
            final(self).battery_2.charge_potential() == old(self).battery_2.charge_potential(),
            final(self).battery_2.battery_number() == old(self).battery_2.battery_number(),
            final(self).dc_bat_bus_to_dc_ess_bus_contactor.closed_position() == ac.tr_1_and_2_available(),
            final(self).dc_bat_bus_to_dc_ess_bus_contactor.input_pairs() == final(self).dc_bat_bus.input_pairs(),
            final(self).battery_2_to_dc_ess_bus_contactor.input_pairs() == final(self).battery_2.output_pairs(),
            final(self).battery_2_to_dc_ess_bus_contactor.closed_position() == final(self).two_xb_should_close(airspeed, *ac),
            final(self).battery_1_to_static_inv_contactor.closed_position() == final(self).two_xb_should_close(airspeed, *ac),
            final(self).battery_1_to_static_inv_contactor.input_pairs() == final(self).battery_1.output_pairs(),
            final(self).static_inverter.input_pairs() == final(self).battery_1_to_static_inv_contactor.output_pairs(),
            final(self).static_inverter.raw_potential() == old(self).static_inverter.raw_potential(),
            final(self).dc_ess_bus.input_pairs() == first_powered(
                first_powered(
                    final(self).dc_bat_bus_to_dc_ess_bus_contactor.output_pairs(),
                    final(self).tr_ess_contactor.output_pairs(),
                ),
                final(self).battery_2_to_dc_ess_bus_contactor.output_pairs(),
            ),
            final(self).dc_ess_shed_contactor.input_pairs() == final(self).dc_ess_bus.input_pairs(),
            final(self).dc_ess_shed_contactor.closed_position() == !final(self).battery_2_to_dc_ess_bus_contactor.closed_position(),
            final(self).dc_ess_shed_bus.input_pairs() == final(self).dc_ess_shed_contactor.output_pairs(),
    {
        let tr_1_powered = ac.tr_1.is_powered();
        let tr_2_powered = ac.tr_2.is_powered();
        let tr_1_and_2_available = tr_1_powered && tr_2_powered;
        self.tr_1_contactor.close_when(tr_1_powered);
        self.tr_1_contactor.powered_by(&ac.tr_1);

        self.tr_2_contactor.close_when(tr_2_powered);
        self.tr_2_contactor.powered_by(&ac.tr_2);

        let tr_ess_powered = ac.tr_ess.is_powered();
        self.tr_ess_contactor.close_when(!tr_1_and_2_available && tr_ess_powered);
        self.tr_ess_contactor.powered_by(&ac.tr_ess);

        self.dc_bus_1.powered_by(&self.tr_1_contactor);
        self.dc_bus_2.powered_by(&self.tr_2_contactor);

        self.dc_bus_1_tie_contactor.powered_by(&self.dc_bus_1);
        self.dc_bus_2_tie_contactor.powered_by(&self.dc_bus_2);

        let dc_bus_1_powered = self.dc_bus_1.is_powered();
        let dc_bus_2_powered = self.dc_bus_2.is_powered();
        self.dc_bus_1_tie_contactor.close_when(dc_bus_1_powered || dc_bus_2_powered);
        self.dc_bus_2_tie_contactor.close_when(
            (!dc_bus_1_powered && dc_bus_2_powered) || (!dc_bus_2_powered && dc_bus_1_powered),
        );

        self.dc_bat_bus.powered_by(&self.dc_bus_1_tie_contactor);
        self.dc_bat_bus.or_powered_by(&self.dc_bus_2_tie_contactor);

        self.dc_bus_1_tie_contactor.or_powered_by(&self.dc_bat_bus);
        self.dc_bus_2_tie_contactor.or_powered_by(&self.dc_bat_bus);
        self.dc_bus_1.or_powered_by(&self.dc_bus_1_tie_contactor);
        self.dc_bus_2.or_powered_by(&self.dc_bus_2_tie_contactor);

        self.battery_1_contactor.powered_by(&self.dc_bat_bus);
        self.battery_2_contactor.powered_by(&self.dc_bat_bus);

        // The actual logic for battery contactors is more complex; it depends
        // on systems that are not modelled here.
        let airspeed_below_100_knots = airspeed == AirspeedBand::Below50Knots
            || airspeed == AirspeedBand::From50To100Knots;
        let ac_bus_1_and_2_unpowered = ac.ac_bus_1.is_unpowered() && ac.ac_bus_2.is_unpowered();
        let batteries_should_supply_bat_bus = ac_bus_1_and_2_unpowered && airspeed_below_100_knots;
        let battery_1_full = self.battery_1.is_full();
        let battery_2_full = self.battery_2.is_full();
        self.battery_1_contactor.close_when(
            overhead.bat_1.is_auto() && (!battery_1_full || batteries_should_supply_bat_bus),
        );
        self.battery_2_contactor.close_when(
            overhead.bat_2.is_auto() && (!battery_2_full || batteries_should_supply_bat_bus),
        );

        self.battery_1.powered_by(&self.battery_1_contactor);
        self.battery_2.powered_by(&self.battery_2_contactor);

        self.battery_1_contactor.or_powered_by(&self.battery_1);
        self.battery_2_contactor.or_powered_by(&self.battery_2);

        proof {
            let all = self.dc_bat_bus.input_pairs() + self.battery_1_contactor.output_pairs()
                + self.battery_2_contactor.output_pairs();
            assert(all.len() <= 3);
            lemma_unique_len(all);
        }
        self.dc_bat_bus.or_powered_by_both_batteries(&self.battery_1_contactor, &self.battery_2_contactor);

        self.hot_bus_1.powered_by(&self.battery_1_contactor);
        self.hot_bus_1.or_powered_by(&self.battery_1);
        self.hot_bus_2.powered_by(&self.battery_2_contactor);
        self.hot_bus_2.or_powered_by(&self.battery_2);

        self.dc_bat_bus_to_dc_ess_bus_contactor.powered_by(&self.dc_bat_bus);
        self.dc_bat_bus_to_dc_ess_bus_contactor.close_when(tr_1_and_2_available);
        self.battery_2_to_dc_ess_bus_contactor.powered_by(&self.battery_2);

        let ac_1_and_2_and_emergency_gen_unpowered = ac_bus_1_and_2_unpowered
            && ac.emergency_gen.is_unpowered();
        let below_50_knots = airspeed == AirspeedBand::Below50Knots;
        let should_close_2xb_contactors = (below_50_knots && self.battery_1_contactor.is_closed()
            && self.battery_2_contactor.is_closed() && ac_1_and_2_and_emergency_gen_unpowered)
            || (ac_1_and_2_and_emergency_gen_unpowered && !below_50_knots);
        self.battery_2_to_dc_ess_bus_contactor.close_when(should_close_2xb_contactors);
        self.battery_1_to_static_inv_contactor.close_when(should_close_2xb_contactors);
        self.battery_1_to_static_inv_contactor.powered_by(&self.battery_1);

        self.static_inverter.powered_by(&self.battery_1_to_static_inv_contactor);

        self.dc_ess_bus.powered_by(&self.dc_bat_bus_to_dc_ess_bus_contactor);
        self.dc_ess_bus.or_powered_by(&self.tr_ess_contactor);
        self.dc_ess_bus.or_powered_by(&self.battery_2_to_dc_ess_bus_contactor);

        self.dc_ess_shed_contactor.powered_by(&self.dc_ess_bus);
        let battery_2_to_dc_ess_bus_open = self.battery_2_to_dc_ess_bus_contactor.is_open();
        self.dc_ess_shed_contactor.close_when(battery_2_to_dc_ess_bus_open);
        self.dc_ess_shed_bus.powered_by(&self.dc_ess_shed_contactor);
    }
}

impl<R: Copy> A320AlternatingCurrentElectrical<R> {
    fn update_with_direct_current_state(&mut self, airspeed: AirspeedBand, dc: &A320DirectCurrentElectrical<R>)
        ensures
            final(self).ac_stat_inv_bus.input_pairs() == dc.static_inverter.output_pairs(),
            final(self).static_inv_to_ac_ess_bus_contactor.closed_position() == (
                old(self).ac_1_and_2_and_emergency_gen_unpowered() && !airspeed.below_50_knots()),
            final(self).static_inv_to_ac_ess_bus_contactor.input_pairs() == dc.static_inverter.output_pairs(),
            final(self).ac_ess_bus.input_pairs() == first_powered(
                old(self).ac_ess_bus.input_pairs(),
                final(self).static_inv_to_ac_ess_bus_contactor.output_pairs(),
            ),
            final(self).main_power_sources == old(self).main_power_sources,
            final(self).ac_ess_feed_contactors == old(self).ac_ess_feed_contactors,
            final(self).ac_bus_1 == old(self).ac_bus_1,
            final(self).ac_bus_2 == old(self).ac_bus_2,
            final(self).ac_ess_shed_bus == old(self).ac_ess_shed_bus,
            final(self).ac_ess_shed_contactor == old(self).ac_ess_shed_contactor,
            final(self).tr_1 == old(self).tr_1,
            final(self).tr_2 == old(self).tr_2,
            final(self).tr_ess == old(self).tr_ess,
            final(self).ac_ess_to_tr_ess_contactor == old(self).ac_ess_to_tr_ess_contactor,
            final(self).emergency_gen == old(self).emergency_gen,
            final(self).emergency_gen_contactor == old(self).emergency_gen_contactor,
    {
        self.ac_stat_inv_bus.powered_by(&dc.static_inverter);
        let unpowered = self.ac_bus_1.is_unpowered() && self.ac_bus_2.is_unpowered()
            && self.emergency_gen.is_unpowered();
        self.static_inv_to_ac_ess_bus_contactor.close_when(
            unpowered && airspeed != AirspeedBand::Below50Knots,
        );
        self.static_inv_to_ac_ess_bus_contactor.powered_by(&dc.static_inverter);
        self.ac_ess_bus.or_powered_by(&self.static_inv_to_ac_ess_bus_contactor);
    }
}

/// The contactors of the A320 electrical network, with the identifiers
/// under which they are written to the simulator.
#[derive(Clone, Copy, Debug, PartialEq, Eq, Structural)]
pub enum A320Contactor {
    /// 9XU1
    EngineGenerator1,
    /// 9XU2
    EngineGenerator2,
    /// 11XU1
    BusTie1,
    /// 11XU2
    BusTie2,
    /// 3XS
    ApuGenerator,
    /// 3XG
    ExternalPower,
    /// 3XC1
    AcEssFeed1,
    /// 3XC2
    AcEssFeed2,
    /// 8XH
    AcEssShed,
    /// 15XE1
    AcEssToTrEss,
    /// 2XE
    EmergencyGenerator,
    /// 15XE2
    StaticInverterToAcEss,
    /// 1PC1
    DcBus1Tie,
    /// 1PC2
    DcBus2Tie,
    /// 4PC
    DcBatToDcEss,
    /// 8PH
    DcEssShed,
    /// 6PB1
    Battery1,
    /// 6PB2
    Battery2,
    /// 2XB2
    Battery2ToDcEss,
    /// 2XB1
    Battery1ToStaticInverter,
    /// 5PU1
    TransformerRectifier1,
    /// 5PU2
    TransformerRectifier2,
    /// 3PE
    TransformerRectifierEss,
}

/// The identifier of a contactor in the network.
pub open spec fn contactor_code(which: A320Contactor) -> Seq<char> {
    match which {
        A320Contactor::EngineGenerator1 => "9XU1"@,
        A320Contactor::EngineGenerator2 => "9XU2"@,
        A320Contactor::BusTie1 => "11XU1"@,
        A320Contactor::BusTie2 => "11XU2"@,
        A320Contactor::ApuGenerator => "3XS"@,
        A320Contactor::ExternalPower => "3XG"@,
        A320Contactor::AcEssFeed1 => "3XC1"@,
        A320Contactor::AcEssFeed2 => "3XC2"@,
        A320Contactor::AcEssShed => "8XH"@,
        A320Contactor::AcEssToTrEss => "15XE1"@,
        A320Contactor::EmergencyGenerator => "2XE"@,
        A320Contactor::StaticInverterToAcEss => "15XE2"@,
        A320Contactor::DcBus1Tie => "1PC1"@,
        A320Contactor::DcBus2Tie => "1PC2"@,
        A320Contactor::DcBatToDcEss => "4PC"@,
        A320Contactor::DcEssShed => "8PH"@,
        A320Contactor::Battery1 => "6PB1"@,
        A320Contactor::Battery2 => "6PB2"@,
        A320Contactor::Battery2ToDcEss => "2XB2"@,
        A320Contactor::Battery1ToStaticInverter => "2XB1"@,
        A320Contactor::TransformerRectifier1 => "5PU1"@,
        A320Contactor::TransformerRectifier2 => "5PU2"@,
        A320Contactor::TransformerRectifierEss => "3PE"@,
    }
}

/// Whether an engine generator provides power to its contactor: its push
/// button is on and it supplies.
pub open spec fn engine_generator_provides(button_on: bool, generator_supplies: bool) -> bool {
    button_on && generator_supplies
}

/// The A320 electrical power network.
pub struct A320Electrical<R> {
    alternating_current: A320AlternatingCurrentElectrical<R>,
    direct_current: A320DirectCurrentElectrical<R>,
}

impl<R: Copy> A320Electrical<R> {
    pub closed spec fn contactor(&self, which: A320Contactor) -> Contactor<R> {
        let ac = self.alternating_current;
        let m = ac.main_power_sources;
        let dc = self.direct_current;
        match which {
            A320Contactor::EngineGenerator1 => m.engine_1_gen_contactor,
            A320Contactor::EngineGenerator2 => m.engine_2_gen_contactor,
            A320Contactor::BusTie1 => m.bus_tie_1_contactor,
            A320Contactor::BusTie2 => m.bus_tie_2_contactor,
            A320Contactor::ApuGenerator => m.apu_gen_contactor,
            A320Contactor::ExternalPower => m.ext_pwr_contactor,
            A320Contactor::AcEssFeed1 => ac.ac_ess_feed_contactors.ac_ess_feed_contactor_1,
            A320Contactor::AcEssFeed2 => ac.ac_ess_feed_contactors.ac_ess_feed_contactor_2,
            A320Contactor::AcEssShed => ac.ac_ess_shed_contactor,
            A320Contactor::AcEssToTrEss => ac.ac_ess_to_tr_ess_contactor,
            A320Contactor::EmergencyGenerator => ac.emergency_gen_contactor,
            A320Contactor::StaticInverterToAcEss => ac.static_inv_to_ac_ess_bus_contactor,
            A320Contactor::DcBus1Tie => dc.dc_bus_1_tie_contactor,
            A320Contactor::DcBus2Tie => dc.dc_bus_2_tie_contactor,
            A320Contactor::DcBatToDcEss => dc.dc_bat_bus_to_dc_ess_bus_contactor,
            A320Contactor::DcEssShed => dc.dc_ess_shed_contactor,
            A320Contactor::Battery1 => dc.battery_1_contactor,
            A320Contactor::Battery2 => dc.battery_2_contactor,
            A320Contactor::Battery2ToDcEss => dc.battery_2_to_dc_ess_bus_contactor,
            A320Contactor::Battery1ToStaticInverter => dc.battery_1_to_static_inv_contactor,
            A320Contactor::TransformerRectifier1 => dc.tr_1_contactor,
            A320Contactor::TransformerRectifier2 => dc.tr_2_contactor,
            A320Contactor::TransformerRectifierEss => dc.tr_ess_contactor,
        }
    }

    /// Whether a contactor is closed.
    pub open spec fn closed(&self, which: A320Contactor) -> bool {
        self.contactor(which).closed_position()
    }

    /// What a contactor passes on.
    pub open spec fn passes(&self, which: A320Contactor) -> Seq<OriginWithRawPotentialPair<R>> {
        self.contactor(which).output_pairs()
    }

    /// What a contactor receives.
    pub open spec fn receives(&self, which: A320Contactor) -> Seq<OriginWithRawPotentialPair<R>> {
        self.contactor(which).input_pairs()
    }

    pub closed spec fn engine_generator_1(&self) -> EngineGenerator<R> {
        self.alternating_current.main_power_sources.engine_1_gen
    }

    pub closed spec fn engine_generator_2(&self) -> EngineGenerator<R> {
        self.alternating_current.main_power_sources.engine_2_gen
    }

    pub closed spec fn emergency_generator(&self) -> EmergencyGenerator<R> {
        self.alternating_current.emergency_gen
    }

    pub closed spec fn transformer_rectifier_1(&self) -> TransformerRectifier<R> {
        self.alternating_current.tr_1
    }

    pub closed spec fn transformer_rectifier_2(&self) -> TransformerRectifier<R> {
        self.alternating_current.tr_2
    }

    pub closed spec fn transformer_rectifier_ess(&self) -> TransformerRectifier<R> {
        self.alternating_current.tr_ess
    }

    pub closed spec fn static_inverter(&self) -> StaticInverter<R> {
        self.direct_current.static_inverter
    }

    pub closed spec fn battery_1(&self) -> Battery<R> {
        self.direct_current.battery_1
    }

    pub closed spec fn battery_2(&self) -> Battery<R> {
        self.direct_current.battery_2
    }

    /// The delay gate deciding when AC BUS 2 takes over feeding the AC ESS BUS.
    pub closed spec fn ac_ess_feed_delay(&self) -> DelayedTrueLogicGate {
        self.alternating_current.ac_ess_feed_contactors.ac_ess_feed_contactor_delay_logic_gate
    }

    /// The potential a bus of the network receives; nothing for a bus type
    /// the network does not have.
    pub closed spec fn bus_pairs(&self, bus_type: ElectricalBusType) -> Seq<OriginWithRawPotentialPair<R>> {
        let ac = self.alternating_current;
        let dc = self.direct_current;
        match bus_type {
            ElectricalBusType::AlternatingCurrent(1) => ac.ac_bus_1.input_pairs(),
            ElectricalBusType::AlternatingCurrent(2) => ac.ac_bus_2.input_pairs(),
            ElectricalBusType::AlternatingCurrentEssential => ac.ac_ess_bus.input_pairs(),
            ElectricalBusType::AlternatingCurrentEssentialShed => ac.ac_ess_shed_bus.input_pairs(),
            ElectricalBusType::AlternatingCurrentStaticInverter => ac.ac_stat_inv_bus.input_pairs(),
            ElectricalBusType::DirectCurrent(1) => dc.dc_bus_1.input_pairs(),
            ElectricalBusType::DirectCurrent(2) => dc.dc_bus_2.input_pairs(),
            ElectricalBusType::DirectCurrentEssential => dc.dc_ess_bus.input_pairs(),
            ElectricalBusType::DirectCurrentEssentialShed => dc.dc_ess_shed_bus.input_pairs(),
            ElectricalBusType::DirectCurrentBattery => dc.dc_bat_bus.input_pairs(),
            ElectricalBusType::DirectCurrentHot(1) => dc.hot_bus_1.input_pairs(),
            ElectricalBusType::DirectCurrentHot(2) => dc.hot_bus_2.input_pairs(),
            _ => Seq::empty(),
        }
    }

    /// Whether a bus of the network is powered.
    pub open spec fn bus_powered(&self, bus_type: ElectricalBusType) -> bool {
        self.bus_pairs(bus_type).len() > 0
    }

    /// What the AC ESS BUS receives through its feed contactors.
    pub open spec fn ac_ess_feed(&self) -> Seq<OriginWithRawPotentialPair<R>> {
        first_powered(self.passes(A320Contactor::AcEssFeed1), self.passes(A320Contactor::AcEssFeed2))
    }

    /// Whether TR 1 and TR 2 both provide potential.
    pub open spec fn tr_1_and_2_available(&self) -> bool {
        self.transformer_rectifier_1().output_pairs().len() > 0
            && self.transformer_rectifier_2().output_pairs().len() > 0
    }

    /// Whether AC BUS 1 and 2 are unpowered and the emergency generator does not supply.
    pub open spec fn ac_1_and_2_and_emergency_gen_unpowered(&self) -> bool {
        !self.bus_powered(ElectricalBusType::AlternatingCurrent(1))
            && !self.bus_powered(ElectricalBusType::AlternatingCurrent(2))
            && !self.emergency_generator().supplies()
    }

    /// What the DC BAT BUS receives through the DC bus tie contactors,
    /// before the batteries add theirs.
    pub open spec fn dc_bus_tie_feed(&self) -> Seq<OriginWithRawPotentialPair<R>> {
        first_powered(
            if self.closed(A320Contactor::DcBus1Tie) { self.passes(A320Contactor::TransformerRectifier1) } else { Seq::empty() },
            if self.closed(A320Contactor::DcBus2Tie) { self.passes(A320Contactor::TransformerRectifier2) } else { Seq::empty() },
        )
    }
}

impl<R: Copy> A320Electrical<R> {
    /// A network with all contactors open and all buses unpowered; the
    /// generators, transformer rectifiers and the static inverter provide
    /// the given raw potentials while they supply, and both batteries are
    /// full, providing `battery_potential`.
    pub fn new(alternating_potential: R, direct_potential: R, battery_potential: R) -> (electrical: A320Electrical<R>)
        ensures
            !electrical.emergency_generator().supplies(),
            !electrical.emergency_generator().started(),
            forall|bus_type: ElectricalBusType| #[trigger] electrical.bus_pairs(bus_type).len() == 0,
            electrical.battery_1().fully_charged(),
            electrical.battery_2().fully_charged(),
            electrical.battery_1().charge_potential() == Some(battery_potential),
            electrical.battery_2().charge_potential() == Some(battery_potential),
            electrical.battery_1().battery_number() == 10,
            electrical.battery_2().battery_number() == 11,
            electrical.ac_ess_feed_delay().delay_nanos() == AC_ESS_FEED_TO_AC_BUS_2_DELAY_IN_NANOSECONDS,
            !electrical.ac_ess_feed_delay().expression(),
            !electrical.transformer_rectifier_1().has_failed(),
            !electrical.transformer_rectifier_2().has_failed(),
            !electrical.transformer_rectifier_ess().has_failed(),
            electrical.ac_ess_feed_delay().true_for() == 0,
            fresh_engine_generator(electrical.engine_generator_1(), 1, alternating_potential),
            fresh_engine_generator(electrical.engine_generator_2(), 2, alternating_potential),
            fresh_transformer_rectifier(electrical.transformer_rectifier_1(), 1, direct_potential),
            fresh_transformer_rectifier(electrical.transformer_rectifier_2(), 2, direct_potential),
            fresh_transformer_rectifier(electrical.transformer_rectifier_ess(), 3, direct_potential),
            electrical.static_inverter().input_pairs().len() == 0,
            electrical.static_inverter().raw_potential() == alternating_potential,
            electrical.emergency_generator().running_for() == 0,
            electrical.emergency_generator().raw_potential() == alternating_potential,
            forall|which: A320Contactor| !#[trigger] electrical.closed(which),
            forall|which: A320Contactor| #[trigger] fresh_contactor(electrical.contactor(which), contactor_code(which)),
    {
        A320Electrical {
            alternating_current: A320AlternatingCurrentElectrical::new(alternating_potential, direct_potential),
            direct_current: A320DirectCurrentElectrical::new(alternating_potential, battery_potential),
        }
    }

    /// Updates the whole network for one tick: first the AC part, then the
    /// DC part given the AC state, then the parts of the AC side fed by the
    /// DC side (the static inverter).
    pub fn update(
        &mut self,
        context: &UpdateContext,
        airspeed: AirspeedBand,
        engine_1_n2: CorrectedN2,
        engine_2_n2: CorrectedN2,
        apu: &Potential<R>,
        ext_pwr: &ExternalPowerSource<R>,
        blue_hydraulic_pressurised: bool,
        overhead: &A320ElectricalOverheadPanel,
    )
        ensures
            // The integrated drive generators and the emergency generator.
            final(self).engine_generator_1().drive().is_connected_spec() == (
                old(self).engine_generator_1().drive().is_connected_spec() && !overhead.idg_1.released()),
            final(self).engine_generator_1().drive().time_above_threshold() == next_time_above_threshold(
                old(self).engine_generator_1().drive().time_above_threshold(),
                final(self).engine_generator_1().drive().is_connected_spec(),
                engine_1_n2,
                whole_millis(context.delta_nanos()),
            ),
            final(self).engine_generator_2().drive().is_connected_spec() == (
                old(self).engine_generator_2().drive().is_connected_spec() && !overhead.idg_2.released()),
            final(self).engine_generator_2().drive().time_above_threshold() == next_time_above_threshold(
                old(self).engine_generator_2().drive().time_above_threshold(),
                final(self).engine_generator_2().drive().is_connected_spec(),
                engine_2_n2,
                whole_millis(context.delta_nanos()),
            ),
            final(self).engine_generator_1().generator_number() == old(self).engine_generator_1().generator_number(),
            final(self).engine_generator_2().generator_number() == old(self).engine_generator_2().generator_number(),
            final(self).engine_generator_1().raw_potential() == old(self).engine_generator_1().raw_potential(),
            final(self).engine_generator_2().raw_potential() == old(self).engine_generator_2().raw_potential(),
            final(self).emergency_generator().started() == old(self).emergency_generator().started(),
            final(self).emergency_generator().running_for() == if old(self).emergency_generator().started() {
                saturating_sum(old(self).emergency_generator().running_for(), context.delta_nanos())
            } else {
                old(self).emergency_generator().running_for()
            },
            final(self).emergency_generator().supplies() == (blue_hydraulic_pressurised
                && airspeed.above_100_knots() && final(self).emergency_generator().started()
                && final(self).emergency_generator().running_for() > EMERGENCY_GENERATOR_START_TIME_IN_NANOSECONDS),
            final(self).emergency_generator().raw_potential() == old(self).emergency_generator().raw_potential(),
            // The main power sources.
            ({
                let e = *final(self);
                let gen_1 = engine_generator_provides(overhead.gen_1.on(), e.engine_generator_1().supplies());
                let gen_2 = engine_generator_provides(overhead.gen_2.on(), e.engine_generator_2().supplies());
                let both_gens = gen_1 && gen_2;
                let only_one_gen = gen_1 != gen_2;
                let ext = overhead.ext_pwr.on() && ext_pwr.output_pairs().len() > 0 && !both_gens;
                let apu_gen = overhead.apu_gen.on() && apu.pairs().len() > 0 && !ext && !both_gens;
                let apu_or_ext = ext || apu_gen;
                let feed_1 = first_powered(
                    first_powered(e.passes(A320Contactor::EngineGenerator1), e.passes(A320Contactor::ApuGenerator)),
                    e.passes(A320Contactor::ExternalPower),
                );
                let feed_2 = first_powered(
                    first_powered(e.passes(A320Contactor::EngineGenerator2), e.passes(A320Contactor::ApuGenerator)),
                    e.passes(A320Contactor::ExternalPower),
                );
                &&& e.closed(A320Contactor::EngineGenerator1) == gen_1
                &&& e.closed(A320Contactor::EngineGenerator2) == gen_2
                &&& e.closed(A320Contactor::ExternalPower) == ext
                &&& e.closed(A320Contactor::ApuGenerator) == apu_gen
                &&& e.closed(A320Contactor::BusTie1) == (overhead.bus_tie.auto() && ((only_one_gen && !apu_or_ext)
                    || (apu_or_ext && !gen_1)))
                &&& e.closed(A320Contactor::BusTie2) == (overhead.bus_tie.auto() && ((only_one_gen && !apu_or_ext)
                    || (apu_or_ext && !gen_2)))
                &&& e.receives(A320Contactor::EngineGenerator1) == e.engine_generator_1().output_pairs()
                &&& e.receives(A320Contactor::EngineGenerator2) == e.engine_generator_2().output_pairs()
                &&& e.receives(A320Contactor::ApuGenerator) == apu.pairs()
                &&& e.receives(A320Contactor::ExternalPower) == ext_pwr.output_pairs()
                &&& e.receives(A320Contactor::BusTie1) == first_powered(
                    feed_1,
                    if e.closed(A320Contactor::BusTie2) { feed_2 } else { Seq::empty() },
                )
                &&& e.receives(A320Contactor::BusTie2) == first_powered(feed_2, e.passes(A320Contactor::BusTie1))
                &&& e.bus_pairs(ElectricalBusType::AlternatingCurrent(1)) == first_powered(
                    e.passes(A320Contactor::EngineGenerator1),
                    e.passes(A320Contactor::BusTie1),
                )
                &&& e.bus_pairs(ElectricalBusType::AlternatingCurrent(2)) == first_powered(
                    e.passes(A320Contactor::EngineGenerator2),
                    e.passes(A320Contactor::BusTie2),
                )
            }),
            // The AC ESS BUS, its feed and shedding, the TRs and the static inverter.
            ({
                let e = *final(self);
                let o = *old(self);
                let ac_1 = e.bus_pairs(ElectricalBusType::AlternatingCurrent(1));
                let ac_2 = e.bus_pairs(ElectricalBusType::AlternatingCurrent(2));
                let g = e.ac_ess_feed_delay();
                let og = o.ac_ess_feed_delay();
                &&& g.delay_nanos() == og.delay_nanos()
                &&& g.expression() == (ac_1.len() == 0)
                &&& g.true_for() == if og.expression() && ac_1.len() == 0 {
                    saturating_sum(og.true_for(), context.delta_nanos())
                } else {
                    0
                }
                &&& e.closed(A320Contactor::AcEssFeed1) == (ac_1.len() > 0 && !g.spec_output()
                    && overhead.ac_ess_feed.normal())
                &&& e.closed(A320Contactor::AcEssFeed2) == (ac_2.len() > 0 && (g.spec_output()
                    || !overhead.ac_ess_feed.normal()))
                &&& e.receives(A320Contactor::AcEssFeed1) == ac_1
                &&& e.receives(A320Contactor::AcEssFeed2) == ac_2
                &&& e.transformer_rectifier_1().input_pairs() == ac_1
                &&& e.transformer_rectifier_2().input_pairs() == ac_2
                &&& e.closed(A320Contactor::EmergencyGenerator) == (ac_1.len() == 0 && ac_2.len() == 0
                    && e.emergency_generator().supplies())
                &&& e.receives(A320Contactor::EmergencyGenerator) == e.emergency_generator().output_pairs()
                &&& e.receives(A320Contactor::AcEssToTrEss) == first_powered(
                    e.ac_ess_feed(),
                    e.passes(A320Contactor::EmergencyGenerator),
                )
                &&& e.closed(A320Contactor::AcEssToTrEss) == ((!e.tr_1_and_2_available() && e.ac_ess_feed().len() > 0)
                    || e.passes(A320Contactor::EmergencyGenerator).len() > 0)
                &&& e.transformer_rectifier_ess().input_pairs() == first_powered(
                    e.passes(A320Contactor::AcEssToTrEss),
                    e.passes(A320Contactor::EmergencyGenerator),
                )
                &&& e.closed(A320Contactor::AcEssShed) == (ac_1.len() > 0 || ac_2.len() > 0
                    || e.emergency_generator().supplies())
                &&& e.receives(A320Contactor::AcEssShed) == first_powered(
                    e.ac_ess_feed(),
                    e.passes(A320Contactor::AcEssToTrEss),
                )
                &&& e.bus_pairs(ElectricalBusType::AlternatingCurrentEssentialShed) == e.passes(A320Contactor::AcEssShed)
                &&& e.closed(A320Contactor::StaticInverterToAcEss) == (e.ac_1_and_2_and_emergency_gen_unpowered()
                    && !airspeed.below_50_knots())
                &&& e.receives(A320Contactor::StaticInverterToAcEss) == e.static_inverter().output_pairs()
                &&& e.bus_pairs(ElectricalBusType::AlternatingCurrentStaticInverter) == e.static_inverter().output_pairs()
                &&& e.bus_pairs(ElectricalBusType::AlternatingCurrentEssential) == first_powered(
                    first_powered(e.ac_ess_feed(), e.passes(A320Contactor::AcEssToTrEss)),
                    e.passes(A320Contactor::StaticInverterToAcEss),
                )
                &&& e.transformer_rectifier_1().has_failed() == o.transformer_rectifier_1().has_failed()
                &&& e.transformer_rectifier_2().has_failed() == o.transformer_rectifier_2().has_failed()
                &&& e.transformer_rectifier_ess().has_failed() == o.transformer_rectifier_ess().has_failed()
                &&& e.transformer_rectifier_1().rectifier_number() == o.transformer_rectifier_1().rectifier_number()
                &&& e.transformer_rectifier_2().rectifier_number() == o.transformer_rectifier_2().rectifier_number()
                &&& e.transformer_rectifier_ess().rectifier_number() == o.transformer_rectifier_ess().rectifier_number()
                &&& e.transformer_rectifier_1().raw_potential() == o.transformer_rectifier_1().raw_potential()
                &&& e.transformer_rectifier_2().raw_potential() == o.transformer_rectifier_2().raw_potential()
                &&& e.transformer_rectifier_ess().raw_potential() == o.transformer_rectifier_ess().raw_potential()
                &&& e.static_inverter().raw_potential() == o.static_inverter().raw_potential()
            }),
            // The DC part.
            ({
                let e = *final(self);
                let o = *old(self);
                let dc_1 = e.passes(A320Contactor::TransformerRectifier1);
                let dc_2 = e.passes(A320Contactor::TransformerRectifier2);
                let bat_bus = e.dc_bus_tie_feed();
                let should_supply = !e.bus_powered(ElectricalBusType::AlternatingCurrent(1))
                    && !e.bus_powered(ElectricalBusType::AlternatingCurrent(2)) && airspeed.below_100_knots();
                let two_xb = (airspeed.below_50_knots() && e.closed(A320Contactor::Battery1)
                    && e.closed(A320Contactor::Battery2) && e.ac_1_and_2_and_emergency_gen_unpowered())
                    || (e.ac_1_and_2_and_emergency_gen_unpowered() && !airspeed.below_50_knots());
                &&& e.closed(A320Contactor::TransformerRectifier1) == (e.transformer_rectifier_1().output_pairs().len() > 0)
                &&& e.receives(A320Contactor::TransformerRectifier1) == e.transformer_rectifier_1().output_pairs()
                &&& e.closed(A320Contactor::TransformerRectifier2) == (e.transformer_rectifier_2().output_pairs().len() > 0)
                &&& e.receives(A320Contactor::TransformerRectifier2) == e.transformer_rectifier_2().output_pairs()
                &&& e.closed(A320Contactor::TransformerRectifierEss) == (!e.tr_1_and_2_available()
                    && e.transformer_rectifier_ess().output_pairs().len() > 0)
                &&& e.receives(A320Contactor::TransformerRectifierEss) == e.transformer_rectifier_ess().output_pairs()
                &&& e.closed(A320Contactor::DcBus1Tie) == (dc_1.len() > 0 || dc_2.len() > 0)
                &&& e.closed(A320Contactor::DcBus2Tie) == ((dc_1.len() == 0 && dc_2.len() > 0)
                    || (dc_2.len() == 0 && dc_1.len() > 0))
                &&& e.receives(A320Contactor::DcBus1Tie) == first_powered(dc_1, bat_bus)
                &&& e.receives(A320Contactor::DcBus2Tie) == first_powered(dc_2, bat_bus)
                &&& e.bus_pairs(ElectricalBusType::DirectCurrent(1)) == first_powered(dc_1, e.passes(A320Contactor::DcBus1Tie))
                &&& e.bus_pairs(ElectricalBusType::DirectCurrent(2)) == first_powered(dc_2, e.passes(A320Contactor::DcBus2Tie))
                &&& e.closed(A320Contactor::Battery1) == (overhead.bat_1.auto()
                    && (!e.battery_1().fully_charged() || should_supply))
                &&& e.closed(A320Contactor::Battery2) == (overhead.bat_2.auto()
                    && (!e.battery_2().fully_charged() || should_supply))
                &&& e.battery_1().input_pairs() == (if e.closed(A320Contactor::Battery1) { bat_bus } else { Seq::empty() })
                &&& e.battery_2().input_pairs() == (if e.closed(A320Contactor::Battery2) { bat_bus } else { Seq::empty() })
                &&& e.receives(A320Contactor::Battery1) == first_powered(bat_bus, e.battery_1().output_pairs())
                &&& e.receives(A320Contactor::Battery2) == first_powered(bat_bus, e.battery_2().output_pairs())
                &&& e.bus_pairs(ElectricalBusType::DirectCurrentBattery) == unique_by_origin(bat_bus
                    + e.passes(A320Contactor::Battery1) + e.passes(A320Contactor::Battery2))
                &&& e.bus_pairs(ElectricalBusType::DirectCurrentHot(1)) == first_powered(
                    e.passes(A320Contactor::Battery1),
                    e.battery_1().output_pairs(),
                )
                &&& e.bus_pairs(ElectricalBusType::DirectCurrentHot(2)) == first_powered(
                    e.passes(A320Contactor::Battery2),
                    e.battery_2().output_pairs(),
                )
                &&& e.closed(A320Contactor::DcBatToDcEss) == e.tr_1_and_2_available()
                &&& e.receives(A320Contactor::DcBatToDcEss) == e.bus_pairs(ElectricalBusType::DirectCurrentBattery)
                &&& e.closed(A320Contactor::Battery2ToDcEss) == two_xb
                &&& e.receives(A320Contactor::Battery2ToDcEss) == e.battery_2().output_pairs()
                &&& e.closed(A320Contactor::Battery1ToStaticInverter) == two_xb
                &&& e.receives(A320Contactor::Battery1ToStaticInverter) == e.battery_1().output_pairs()
                &&& e.static_inverter().input_pairs() == e.passes(A320Contactor::Battery1ToStaticInverter)
                &&& e.bus_pairs(ElectricalBusType::DirectCurrentEssential) == first_powered(
                    first_powered(e.passes(A320Contactor::DcBatToDcEss), e.passes(A320Contactor::TransformerRectifierEss)),
                    e.passes(A320Contactor::Battery2ToDcEss),
                )
                &&& e.receives(A320Contactor::DcEssShed) == e.bus_pairs(ElectricalBusType::DirectCurrentEssential)
                &&& e.closed(A320Contactor::DcEssShed) == !e.closed(A320Contactor::Battery2ToDcEss)
                &&& e.bus_pairs(ElectricalBusType::DirectCurrentEssentialShed) == e.passes(A320Contactor::DcEssShed)
                &&& e.battery_1().fully_charged() == o.battery_1().fully_charged()
                &&& e.battery_2().fully_charged() == o.battery_2().fully_charged()
                &&& e.battery_1().charge_potential() == o.battery_1().charge_potential()
                &&& e.battery_2().charge_potential() == o.battery_2().charge_potential()
                &&& e.battery_1().battery_number() == o.battery_1().battery_number()
                &&& e.battery_2().battery_number() == o.battery_2().battery_number()
            }),
            // Laws of the network: no two sources feed the AC ESS BUS side
            // at once, the DC ESS BUS has at most one source, and a battery
            // never feeds the DC ESS SHED BUS.
            !(final(self).closed(A320Contactor::StaticInverterToAcEss) && final(self).closed(A320Contactor::AcEssToTrEss)),
            !(final(self).closed(A320Contactor::Battery2ToDcEss) && final(self).closed(A320Contactor::DcEssShed)),
            final(self).closed(A320Contactor::Battery1ToStaticInverter) == final(self).closed(A320Contactor::Battery2ToDcEss),
            !(final(self).closed(A320Contactor::Battery2ToDcEss) && final(self).closed(A320Contactor::DcBatToDcEss)),
            !(final(self).closed(A320Contactor::Battery2ToDcEss) && final(self).closed(A320Contactor::TransformerRectifierEss)),
            !(final(self).closed(A320Contactor::DcBatToDcEss) && final(self).closed(A320Contactor::TransformerRectifierEss)),
            final(self).ac_1_and_2_and_emergency_gen_unpowered() && airspeed.below_50_knots()
                ==> !final(self).bus_powered(ElectricalBusType::AlternatingCurrentEssential),
            // External power has priority over the APU generator; two running
            // engine generators have priority over both and leave the bus ties open.
            !(final(self).closed(A320Contactor::ApuGenerator) && final(self).closed(A320Contactor::ExternalPower)),
            final(self).closed(A320Contactor::EngineGenerator1) && final(self).closed(A320Contactor::EngineGenerator2)
                ==> !final(self).closed(A320Contactor::ApuGenerator) && !final(self).closed(A320Contactor::ExternalPower)
                && !final(self).closed(A320Contactor::BusTie1) && !final(self).closed(A320Contactor::BusTie2),
            !overhead.bus_tie.auto() ==> !final(self).closed(A320Contactor::BusTie1)
                && !final(self).closed(A320Contactor::BusTie2),
            // The AC ESS BUS is fed by one AC bus at a time; AC BUS 2 takes over
            // in normal operation only once AC BUS 1 was lost for the delay.
            !(final(self).closed(A320Contactor::AcEssFeed1) && final(self).closed(A320Contactor::AcEssFeed2)),
            final(self).closed(A320Contactor::AcEssFeed2) && overhead.ac_ess_feed.normal()
                ==> !final(self).bus_powered(ElectricalBusType::AlternatingCurrent(1))
                && final(self).ac_ess_feed_delay().true_for() >= final(self).ac_ess_feed_delay().delay_nanos(),
            ac_ess_feed_after(*old(self), *final(self), context.delta_nanos(), overhead.ac_ess_feed.normal()),
            // A battery holding charge keeps its hot bus powered, whatever its
            // charge level and whatever else the network does.
            final(self).battery_1().charge_potential() is Some ==> final(self).bus_powered(ElectricalBusType::DirectCurrentHot(1)),
            final(self).battery_2().charge_potential() is Some ==> final(self).bus_powered(ElectricalBusType::DirectCurrentHot(2)),
            // The emergency generator only feeds when AC BUS 1 and 2 are lost.
            final(self).closed(A320Contactor::EmergencyGenerator)
                ==> !final(self).bus_powered(ElectricalBusType::AlternatingCurrent(1))
                && !final(self).bus_powered(ElectricalBusType::AlternatingCurrent(2)),
    {
        self.alternating_current.update(
            context,
            airspeed,
            engine_1_n2,
            engine_2_n2,
            apu,
            ext_pwr,
            blue_hydraulic_pressurised,
            overhead,
        );
        self.direct_current.update_with_alternating_current_state(airspeed, overhead, &self.alternating_current);
        self.alternating_current.update_with_direct_current_state(airspeed, &self.direct_current);
    }

    /// The potential a bus receives; none for a bus type the network does not have.
    pub fn bus_output(&self, bus_type: ElectricalBusType) -> (potential: Potential<R>)
        ensures
            potential.pairs() == self.bus_pairs(bus_type),
    {
        let ac = &self.alternating_current;
        let dc = &self.direct_current;
        match bus_type {
            ElectricalBusType::AlternatingCurrent(1) => ac.ac_bus_1.output(),
            ElectricalBusType::AlternatingCurrent(2) => ac.ac_bus_2.output(),
            ElectricalBusType::AlternatingCurrentEssential => ac.ac_ess_bus.output(),
            ElectricalBusType::AlternatingCurrentEssentialShed => ac.ac_ess_shed_bus.output(),
            ElectricalBusType::AlternatingCurrentStaticInverter => ac.ac_stat_inv_bus.output(),
            ElectricalBusType::DirectCurrent(1) => dc.dc_bus_1.output(),
            ElectricalBusType::DirectCurrent(2) => dc.dc_bus_2.output(),
            ElectricalBusType::DirectCurrentEssential => dc.dc_ess_bus.output(),
            ElectricalBusType::DirectCurrentEssentialShed => dc.dc_ess_shed_bus.output(),
            ElectricalBusType::DirectCurrentBattery => dc.dc_bat_bus.output(),
            ElectricalBusType::DirectCurrentHot(1) => dc.hot_bus_1.output(),
            ElectricalBusType::DirectCurrentHot(2) => dc.hot_bus_2.output(),
            _ => Potential::none(),
        }
    }

    /// The potential each bus of the network supplies, by bus type.
    pub fn create_power_supply(&self) -> (supply: SuppliedPower<R>)
        ensures
            forall|bus_type: ElectricalBusType| #[trigger] supply.supplied(bus_type) == self.bus_pairs(bus_type),
    {
        let ac = &self.alternating_current;
        let dc = &self.direct_current;
        let mut supply = SuppliedPower::new();
        supply.insert(ElectricalBusType::AlternatingCurrent(1), ac.ac_bus_1.output());
        supply.insert(ElectricalBusType::AlternatingCurrent(2), ac.ac_bus_2.output());
        supply.insert(ElectricalBusType::AlternatingCurrentEssential, ac.ac_ess_bus.output());
        supply.insert(ElectricalBusType::AlternatingCurrentEssentialShed, ac.ac_ess_shed_bus.output());
        supply.insert(ElectricalBusType::AlternatingCurrentStaticInverter, ac.ac_stat_inv_bus.output());
        supply.insert(ElectricalBusType::DirectCurrent(1), dc.dc_bus_1.output());
        supply.insert(ElectricalBusType::DirectCurrent(2), dc.dc_bus_2.output());
        supply.insert(ElectricalBusType::DirectCurrentEssential, dc.dc_ess_bus.output());
        supply.insert(ElectricalBusType::DirectCurrentEssentialShed, dc.dc_ess_shed_bus.output());
        supply.insert(ElectricalBusType::DirectCurrentBattery, dc.dc_bat_bus.output());
        supply.insert(ElectricalBusType::DirectCurrentHot(1), dc.hot_bus_1.output());
        supply.insert(ElectricalBusType::DirectCurrentHot(2), dc.hot_bus_2.output());
        supply
    }

    /// Whether a bus of the network is powered.
    pub fn is_powered(&self, bus_type: ElectricalBusType) -> (powered: bool)
        ensures
            powered == self.bus_powered(bus_type),
    {
        self.bus_output(bus_type).is_powered()
    }

    /// Whether a contactor is closed.
    pub fn is_closed(&self, which: A320Contactor) -> (closed: bool)
        ensures
            closed == self.closed(which),
    {
        let ac = &self.alternating_current;
        let m = &ac.main_power_sources;
        let dc = &self.direct_current;
        match which {
            A320Contactor::EngineGenerator1 => m.engine_1_gen_contactor.is_closed(),
            A320Contactor::EngineGenerator2 => m.engine_2_gen_contactor.is_closed(),
            A320Contactor::BusTie1 => m.bus_tie_1_contactor.is_closed(),
            A320Contactor::BusTie2 => m.bus_tie_2_contactor.is_closed(),
            A320Contactor::ApuGenerator => m.apu_gen_contactor.is_closed(),
            A320Contactor::ExternalPower => m.ext_pwr_contactor.is_closed(),
            A320Contactor::AcEssFeed1 => ac.ac_ess_feed_contactors.ac_ess_feed_contactor_1.is_closed(),
            A320Contactor::AcEssFeed2 => ac.ac_ess_feed_contactors.ac_ess_feed_contactor_2.is_closed(),
            A320Contactor::AcEssShed => ac.ac_ess_shed_contactor.is_closed(),
            A320Contactor::AcEssToTrEss => ac.ac_ess_to_tr_ess_contactor.is_closed(),
            A320Contactor::EmergencyGenerator => ac.emergency_gen_contactor.is_closed(),
            A320Contactor::StaticInverterToAcEss => ac.static_inv_to_ac_ess_bus_contactor.is_closed(),
            A320Contactor::DcBus1Tie => dc.dc_bus_1_tie_contactor.is_closed(),
            A320Contactor::DcBus2Tie => dc.dc_bus_2_tie_contactor.is_closed(),
            A320Contactor::DcBatToDcEss => dc.dc_bat_bus_to_dc_ess_bus_contactor.is_closed(),
            A320Contactor::DcEssShed => dc.dc_ess_shed_contactor.is_closed(),
            A320Contactor::Battery1 => dc.battery_1_contactor.is_closed(),
            A320Contactor::Battery2 => dc.battery_2_contactor.is_closed(),
            A320Contactor::Battery2ToDcEss => dc.battery_2_to_dc_ess_bus_contactor.is_closed(),
            A320Contactor::Battery1ToStaticInverter => dc.battery_1_to_static_inv_contactor.is_closed(),
            A320Contactor::TransformerRectifier1 => dc.tr_1_contactor.is_closed(),
            A320Contactor::TransformerRectifier2 => dc.tr_2_contactor.is_closed(),
            A320Contactor::TransformerRectifierEss => dc.tr_ess_contactor.is_closed(),
        }
    }

    /// What the emergency generator supplies.
    pub fn emergency_generator_output(&self) -> (potential: Potential<R>)
        ensures
            potential.pairs() == self.emergency_generator().output_pairs(),
    {
        self.alternating_current.emergency_gen.output()
    }

    /// What the static inverter supplies.
    pub fn static_inverter_output(&self) -> (potential: Potential<R>)
        ensures
            potential.pairs() == self.static_inverter().output_pairs(),
    {
        self.direct_current.static_inverter.output()
    }

    /// What transformer rectifier 1 supplies.
    pub fn tr_1_output(&self) -> (potential: Potential<R>)
        ensures
            potential.pairs() == self.transformer_rectifier_1().output_pairs(),
    {
        self.alternating_current.tr_1.output()
    }

    /// What transformer rectifier 2 supplies.
    pub fn tr_2_output(&self) -> (potential: Potential<R>)
        ensures
            potential.pairs() == self.transformer_rectifier_2().output_pairs(),
    {
        self.alternating_current.tr_2.output()
    }

    /// What the ESS transformer rectifier supplies.
    pub fn tr_ess_output(&self) -> (potential: Potential<R>)
        ensures
            potential.pairs() == self.transformer_rectifier_ess().output_pairs(),
    {
        self.alternating_current.tr_ess.output()
    }

    pub fn static_inverter_input(&self) -> (potential: Potential<R>)
        ensures
            potential.pairs() == self.static_inverter().input_pairs(),
    {
        self.direct_current.static_inverter.input_potential()
    }

    pub fn tr_1_input(&self) -> (potential: Potential<R>)
        ensures
            potential.pairs() == self.transformer_rectifier_1().input_pairs(),
    {
        self.alternating_current.tr_1.input_potential()
    }

    pub fn tr_2_input(&self) -> (potential: Potential<R>)
        ensures
            potential.pairs() == self.transformer_rectifier_2().input_pairs(),
    {
        self.alternating_current.tr_2.input_potential()
    }

    pub fn tr_ess_input(&self) -> (potential: Potential<R>)
        ensures
            potential.pairs() == self.transformer_rectifier_ess().input_pairs(),
    {
        self.alternating_current.tr_ess.input_potential()
    }

    pub fn battery_1_input(&self) -> (potential: Potential<R>)
        ensures
            potential.pairs() == self.battery_1().input_pairs(),
    {
        self.direct_current.battery_1.input_potential()
    }

    pub fn battery_2_input(&self) -> (potential: Potential<R>)
        ensures
            potential.pairs() == self.battery_2().input_pairs(),
    {
        self.direct_current.battery_2.input_potential()
    }

    /// Whether engine generator 1 or 2 provides stable power; `false` for
    /// another number.
    pub fn engine_generator_provides_stable_power(&self, number: usize) -> (stable: bool)
        ensures
            stable == (number == 1 && self.engine_generator_1().supplies()
                || number == 2 && self.engine_generator_2().supplies()),
    {
        if number == 1 {
            self.alternating_current.main_power_sources.engine_1_gen.provides_stable_power_output()
        } else if number == 2 {
            self.alternating_current.main_power_sources.engine_2_gen.provides_stable_power_output()
        } else {
            false
        }
    }

    /// Starts the emergency generator.
    pub fn start_emergency_generator(&mut self)
        ensures
            final(self).emergency_generator().started(),
            final(self).emergency_generator().supplies() == old(self).emergency_generator().supplies(),
            final(self).emergency_generator().running_for() == old(self).emergency_generator().running_for(),
            final(self).emergency_generator().raw_potential() == old(self).emergency_generator().raw_potential(),
            same_wiring(*old(self), *final(self)),
            final(self).engine_generator_1() == old(self).engine_generator_1(),
            final(self).engine_generator_2() == old(self).engine_generator_2(),
            final(self).transformer_rectifier_1() == old(self).transformer_rectifier_1(),
            final(self).transformer_rectifier_2() == old(self).transformer_rectifier_2(),
            final(self).transformer_rectifier_ess() == old(self).transformer_rectifier_ess(),
            final(self).static_inverter() == old(self).static_inverter(),
            final(self).battery_1() == old(self).battery_1(),
            final(self).battery_2() == old(self).battery_2(),
    {
        self.alternating_current.emergency_gen.start();
    }

    /// Fails transformer rectifier 1.
    pub fn fail_transformer_rectifier_1(&mut self)
        ensures
            final(self).transformer_rectifier_1().has_failed(),
            final(self).transformer_rectifier_1().input_pairs() == old(self).transformer_rectifier_1().input_pairs(),
            final(self).transformer_rectifier_1().rectifier_number() == old(self).transformer_rectifier_1().rectifier_number(),
            final(self).transformer_rectifier_1().raw_potential() == old(self).transformer_rectifier_1().raw_potential(),
            same_wiring(*old(self), *final(self)),
            final(self).engine_generator_1() == old(self).engine_generator_1(),
            final(self).engine_generator_2() == old(self).engine_generator_2(),
            final(self).emergency_generator() == old(self).emergency_generator(),
            final(self).transformer_rectifier_2() == old(self).transformer_rectifier_2(),
            final(self).transformer_rectifier_ess() == old(self).transformer_rectifier_ess(),
            final(self).static_inverter() == old(self).static_inverter(),
            final(self).battery_1() == old(self).battery_1(),
            final(self).battery_2() == old(self).battery_2(),
    {
        self.alternating_current.tr_1.fail();
    }

    /// Fails transformer rectifier 2.
    pub fn fail_transformer_rectifier_2(&mut self)
        ensures
            final(self).transformer_rectifier_2().has_failed(),
            final(self).transformer_rectifier_2().input_pairs() == old(self).transformer_rectifier_2().input_pairs(),
            final(self).transformer_rectifier_2().rectifier_number() == old(self).transformer_rectifier_2().rectifier_number(),
            final(self).transformer_rectifier_2().raw_potential() == old(self).transformer_rectifier_2().raw_potential(),
            same_wiring(*old(self), *final(self)),
            final(self).engine_generator_1() == old(self).engine_generator_1(),
            final(self).engine_generator_2() == old(self).engine_generator_2(),
            final(self).emergency_generator() == old(self).emergency_generator(),
            final(self).transformer_rectifier_1() == old(self).transformer_rectifier_1(),
            final(self).transformer_rectifier_ess() == old(self).transformer_rectifier_ess(),
            final(self).static_inverter() == old(self).static_inverter(),
            final(self).battery_1() == old(self).battery_1(),
            final(self).battery_2() == old(self).battery_2(),
    {
        self.alternating_current.tr_2.fail();
    }

    /// Sets whether battery 1 is fully charged and the raw potential it
    /// provides (`None` when empty).
    pub fn set_battery_1_charge_state(&mut self, full: bool, potential: Option<R>)
        ensures
            final(self).battery_1().fully_charged() == full,
            final(self).battery_1().charge_potential() == potential,
            final(self).battery_1().battery_number() == old(self).battery_1().battery_number(),
            final(self).battery_1().input_pairs() == old(self).battery_1().input_pairs(),
            same_wiring(*old(self), *final(self)),
            final(self).engine_generator_1() == old(self).engine_generator_1(),
            final(self).engine_generator_2() == old(self).engine_generator_2(),
            final(self).emergency_generator() == old(self).emergency_generator(),
            final(self).transformer_rectifier_1() == old(self).transformer_rectifier_1(),
            final(self).transformer_rectifier_2() == old(self).transformer_rectifier_2(),
            final(self).transformer_rectifier_ess() == old(self).transformer_rectifier_ess(),
            final(self).static_inverter() == old(self).static_inverter(),
            final(self).battery_2() == old(self).battery_2(),
    {
        self.direct_current.battery_1.set_charge_state(full, potential);
    }

    /// Sets whether battery 2 is fully charged and the raw potential it
    /// provides (`None` when empty).
    pub fn set_battery_2_charge_state(&mut self, full: bool, potential: Option<R>)
        ensures
            final(self).battery_2().fully_charged() == full,
            final(self).battery_2().charge_potential() == potential,
            final(self).battery_2().battery_number() == old(self).battery_2().battery_number(),
            final(self).battery_2().input_pairs() == old(self).battery_2().input_pairs(),
            same_wiring(*old(self), *final(self)),
            final(self).engine_generator_1() == old(self).engine_generator_1(),
            final(self).engine_generator_2() == old(self).engine_generator_2(),
            final(self).emergency_generator() == old(self).emergency_generator(),
            final(self).transformer_rectifier_1() == old(self).transformer_rectifier_1(),
            final(self).transformer_rectifier_2() == old(self).transformer_rectifier_2(),
            final(self).transformer_rectifier_ess() == old(self).transformer_rectifier_ess(),
            final(self).static_inverter() == old(self).static_inverter(),
            final(self).battery_1() == old(self).battery_1(),
    {
        self.direct_current.battery_2.set_charge_state(full, potential);
    }
}

/// Whether two networks have the same contactors, bus potentials, AC ESS
/// feed delay and written entries.
pub open spec fn same_wiring<R: Copy>(a: A320Electrical<R>, b: A320Electrical<R>) -> bool {
    &&& forall|which: A320Contactor| #[trigger] b.contactor(which) == a.contactor(which)
    &&& forall|bus_type: ElectricalBusType| #[trigger] b.bus_pairs(bus_type) == a.bus_pairs(bus_type)
    &&& b.ac_ess_feed_delay() == a.ac_ess_feed_delay()
    &&& b.written() == a.written()
}

impl A320ElectricalOverheadPanel {
    /// Lights the AC ESS FEED fault when the AC ESS BUS is unpowered; the
    /// other buttons are left as they are.
    pub fn update_after_elec<R: Copy>(&mut self, electrical: &A320Electrical<R>)
        ensures
            final(self).ac_ess_feed.fault() == !electrical.bus_powered(ElectricalBusType::AlternatingCurrentEssential),
            final(self).ac_ess_feed.normal() == old(self).ac_ess_feed.normal(),
            final(self).ac_ess_feed.normal_id() == old(self).ac_ess_feed.normal_id(),
            final(self).ac_ess_feed.fault_id() == old(self).ac_ess_feed.fault_id(),
            final(self).bat_1 == old(self).bat_1,
            final(self).bat_2 == old(self).bat_2,
            final(self).idg_1 == old(self).idg_1,
            final(self).idg_2 == old(self).idg_2,
            final(self).gen_1 == old(self).gen_1,
            final(self).gen_2 == old(self).gen_2,
            final(self).apu_gen == old(self).apu_gen,
            final(self).bus_tie == old(self).bus_tie,
            final(self).galy_and_cab == old(self).galy_and_cab,
            final(self).ext_pwr == old(self).ext_pwr,
            final(self).commercial == old(self).commercial,
    {
        let unpowered = !electrical.is_powered(ElectricalBusType::AlternatingCurrentEssential);
        self.ac_ess_feed.set_fault(unpowered);
    }
}


/// The entry a contactor writes: whether it is closed.
pub open spec fn contactor_entry<R>(contactor: Contactor<R>) -> (Seq<char>, bool) {
    (contactor.closed_id(), contactor.closed_position())
}

/// The entry a bus writes: whether it is powered.
pub open spec fn bus_entry<R>(bus: ElectricalBus<R>) -> (Seq<char>, bool) {
    (bus.powered_id(), bus.input_pairs().len() > 0)
}

impl<R: Copy> A320AlternatingCurrentElectrical<R> {
    spec fn written(&self) -> Seq<(Seq<char>, bool)> {
        let m = self.main_power_sources;
        let f = self.ac_ess_feed_contactors;
        seq![
            (m.engine_1_gen.drive().connected_id(), m.engine_1_gen.drive().is_connected_spec()),
            (m.engine_2_gen.drive().connected_id(), m.engine_2_gen.drive().is_connected_spec()),
            contactor_entry(m.engine_1_gen_contactor),
            contactor_entry(m.engine_2_gen_contactor),
            contactor_entry(m.bus_tie_1_contactor),
            contactor_entry(m.bus_tie_2_contactor),
            contactor_entry(m.apu_gen_contactor),
            contactor_entry(m.ext_pwr_contactor),
            contactor_entry(f.ac_ess_feed_contactor_1),
            contactor_entry(f.ac_ess_feed_contactor_2),
            contactor_entry(self.ac_ess_shed_contactor),
            contactor_entry(self.ac_ess_to_tr_ess_contactor),
            contactor_entry(self.emergency_gen_contactor),
            contactor_entry(self.static_inv_to_ac_ess_bus_contactor),
            bus_entry(self.ac_bus_1),
            bus_entry(self.ac_bus_2),
            bus_entry(self.ac_ess_bus),
            bus_entry(self.ac_ess_shed_bus),
            bus_entry(self.ac_stat_inv_bus),
        ]
    }

    #[verifier::rlimit(60)]
    fn write(&self, writer: &mut SimulatorWriter)
        ensures
            final(writer)@ == old(writer)@ + self.written(),
    {
        let m = &self.main_power_sources;
        let f = &self.ac_ess_feed_contactors;
        m.engine_1_gen.write(writer);
        m.engine_2_gen.write(writer);
        m.engine_1_gen_contactor.write(writer);
        m.engine_2_gen_contactor.write(writer);
        m.bus_tie_1_contactor.write(writer);
        m.bus_tie_2_contactor.write(writer);
        m.apu_gen_contactor.write(writer);
        m.ext_pwr_contactor.write(writer);
        f.ac_ess_feed_contactor_1.write(writer);
        f.ac_ess_feed_contactor_2.write(writer);
        self.ac_ess_shed_contactor.write(writer);
        self.ac_ess_to_tr_ess_contactor.write(writer);
        self.emergency_gen_contactor.write(writer);
        self.static_inv_to_ac_ess_bus_contactor.write(writer);
        self.ac_bus_1.write(writer);
        self.ac_bus_2.write(writer);
        self.ac_ess_bus.write(writer);
        self.ac_ess_shed_bus.write(writer);
        self.ac_stat_inv_bus.write(writer);
        assert(writer@ =~= old(writer)@ + self.written());
    }
}

impl<R: Copy> A320DirectCurrentElectrical<R> {
    spec fn written_contactors(&self) -> Seq<(Seq<char>, bool)> {
        seq![
            contactor_entry(self.dc_bus_1_tie_contactor),
            contactor_entry(self.dc_bus_2_tie_contactor),
            contactor_entry(self.dc_bat_bus_to_dc_ess_bus_contactor),
            contactor_entry(self.dc_ess_shed_contactor),
            contactor_entry(self.battery_1_contactor),
            contactor_entry(self.battery_2_contactor),
            contactor_entry(self.battery_2_to_dc_ess_bus_contactor),
            contactor_entry(self.battery_1_to_static_inv_contactor),
            contactor_entry(self.tr_1_contactor),
            contactor_entry(self.tr_2_contactor),
            contactor_entry(self.tr_ess_contactor),
        ]
    }

    spec fn written_buses(&self) -> Seq<(Seq<char>, bool)> {
        seq![
            bus_entry(self.dc_bus_1),
            bus_entry(self.dc_bus_2),
            bus_entry(self.dc_bat_bus),
            bus_entry(self.dc_ess_bus),
            bus_entry(self.dc_ess_shed_bus),
            bus_entry(self.hot_bus_1),
            bus_entry(self.hot_bus_2),
        ]
    }

    spec fn written(&self) -> Seq<(Seq<char>, bool)> {
        self.written_contactors() + self.written_buses()
    }

    #[verifier::rlimit(60)]
    fn write_contactors(&self, writer: &mut SimulatorWriter)
        ensures
            final(writer)@ == old(writer)@ + self.written_contactors(),
    {
        self.dc_bus_1_tie_contactor.write(writer);
        self.dc_bus_2_tie_contactor.write(writer);
        self.dc_bat_bus_to_dc_ess_bus_contactor.write(writer);
        self.dc_ess_shed_contactor.write(writer);
        self.battery_1_contactor.write(writer);
        self.battery_2_contactor.write(writer);
        self.battery_2_to_dc_ess_bus_contactor.write(writer);
        self.battery_1_to_static_inv_contactor.write(writer);
        self.tr_1_contactor.write(writer);
        self.tr_2_contactor.write(writer);
        self.tr_ess_contactor.write(writer);
        assert(writer@ =~= old(writer)@ + self.written_contactors());
    }

    #[verifier::rlimit(60)]
    fn write_buses(&self, writer: &mut SimulatorWriter)
        ensures
            final(writer)@ == old(writer)@ + self.written_buses(),
    {
        self.dc_bus_1.write(writer);
        self.dc_bus_2.write(writer);
        self.dc_bat_bus.write(writer);
        self.dc_ess_bus.write(writer);
        self.dc_ess_shed_bus.write(writer);
        self.hot_bus_1.write(writer);
        self.hot_bus_2.write(writer);
        assert(writer@ =~= old(writer)@ + self.written_buses());
    }

    fn write(&self, writer: &mut SimulatorWriter)
        ensures
            final(writer)@ == old(writer)@ + self.written(),
    {
        self.write_contactors(writer);
        self.write_buses(writer);
        assert(writer@ =~= old(writer)@ + self.written());
    }
}

impl<R: Copy> A320Electrical<R> {
    /// The entries the network writes: whether each IDG is connected,
    /// whether each contactor is closed and whether each bus is powered.
    pub closed spec fn written(&self) -> Seq<(Seq<char>, bool)> {
        self.alternating_current.written() + self.direct_current.written()
    }

    /// Writes the state of the IDGs, contactors and buses.
    pub fn write(&self, writer: &mut SimulatorWriter)
        ensures
            final(writer)@ == old(writer)@ + self.written(),
    {
        self.alternating_current.write(writer);
        self.direct_current.write(writer);
        assert(writer@ =~= old(writer)@ + self.written());
    }
}


impl A320ElectricalOverheadPanel {
    /// The entries written for the batteries, IDGs and generators.
    pub open spec fn written_first_half(&self) -> Seq<(Seq<char>, bool)> {
        seq![
            (self.bat_1.auto_id(), self.bat_1.auto()),
            (self.bat_1.fault_id(), self.bat_1.fault()),
            (self.bat_2.auto_id(), self.bat_2.auto()),
            (self.bat_2.fault_id(), self.bat_2.fault()),
            (self.idg_1.released_id(), self.idg_1.released()),
            (self.idg_1.fault_id(), self.idg_1.fault()),
            (self.idg_2.released_id(), self.idg_2.released()),
            (self.idg_2.fault_id(), self.idg_2.fault()),
            (self.gen_1.on_id(), self.gen_1.on()),
            (self.gen_1.fault_id(), self.gen_1.fault()),
            (self.gen_2.on_id(), self.gen_2.on()),
            (self.gen_2.fault_id(), self.gen_2.fault()),
        ]
    }

    /// The entries written for the other buttons.
    pub open spec fn written_second_half(&self) -> Seq<(Seq<char>, bool)> {
        seq![
            (self.apu_gen.on_id(), self.apu_gen.on()),
            (self.apu_gen.fault_id(), self.apu_gen.fault()),
            (self.bus_tie.auto_id(), self.bus_tie.auto()),
            (self.bus_tie.fault_id(), self.bus_tie.fault()),
            (self.ac_ess_feed.normal_id(), self.ac_ess_feed.normal()),
            (self.ac_ess_feed.fault_id(), self.ac_ess_feed.fault()),
            (self.galy_and_cab.auto_id(), self.galy_and_cab.auto()),
            (self.galy_and_cab.fault_id(), self.galy_and_cab.fault()),
            (self.ext_pwr.on_id(), self.ext_pwr.on()),
            (self.ext_pwr.available_id(), self.ext_pwr.available()),
            (self.commercial.on_id(), self.commercial.on()),
            (self.commercial.fault_id(), self.commercial.fault()),
        ]
    }

    #[verifier::rlimit(60)]
    fn write_first_half(&self, writer: &mut SimulatorWriter)
        ensures
            final(writer)@ == old(writer)@ + self.written_first_half(),
    {
        self.bat_1.write(writer);
        self.bat_2.write(writer);
        self.idg_1.write(writer);
        self.idg_2.write(writer);
        self.gen_1.write(writer);
        self.gen_2.write(writer);
        assert(writer@ =~= old(writer)@ + self.written_first_half());
    }

    #[verifier::rlimit(60)]
    fn write_second_half(&self, writer: &mut SimulatorWriter)
        ensures
            final(writer)@ == old(writer)@ + self.written_second_half(),
    {
        self.apu_gen.write(writer);
        self.bus_tie.write(writer);
        self.ac_ess_feed.write(writer);
        self.galy_and_cab.write(writer);
        self.ext_pwr.write(writer);
        self.commercial.write(writer);
        assert(writer@ =~= old(writer)@ + self.written_second_half());
    }

    /// Writes the state of every button.
    pub fn write(&self, writer: &mut SimulatorWriter)
        ensures
            final(writer)@ == old(writer)@ + self.written_first_half() + self.written_second_half(),
    {
        self.write_first_half(writer);
        self.write_second_half(writer);
    }

    /// Reads the state of every button.
    pub fn read(&mut self, reader: &mut SimulatorReader)
        ensures
            final(self).bat_1.auto() == value_of(old(reader)@, old(self).bat_1.auto_id()),
            final(self).bat_1.fault() == value_of(old(reader)@, old(self).bat_1.fault_id()),
            final(self).bat_2.auto() == value_of(old(reader)@, old(self).bat_2.auto_id()),
            final(self).bat_2.fault() == value_of(old(reader)@, old(self).bat_2.fault_id()),
            final(self).idg_1.released() == (old(self).idg_1.released() || value_of(old(reader)@, old(self).idg_1.released_id())),
            final(self).idg_2.released() == (old(self).idg_2.released() || value_of(old(reader)@, old(self).idg_2.released_id())),
            final(self).gen_1.on() == value_of(old(reader)@, old(self).gen_1.on_id()),
            final(self).gen_2.on() == value_of(old(reader)@, old(self).gen_2.on_id()),
            final(self).apu_gen.on() == value_of(old(reader)@, old(self).apu_gen.on_id()),
            final(self).bus_tie.auto() == value_of(old(reader)@, old(self).bus_tie.auto_id()),
            final(self).ac_ess_feed.normal() == value_of(old(reader)@, old(self).ac_ess_feed.normal_id()),
            final(self).galy_and_cab.auto() == value_of(old(reader)@, old(self).galy_and_cab.auto_id()),
            final(self).ext_pwr.on() == value_of(old(reader)@, old(self).ext_pwr.on_id()),
            final(self).ext_pwr.available() == value_of(old(reader)@, old(self).ext_pwr.available_id()),
            final(self).commercial.on() == value_of(old(reader)@, old(self).commercial.on_id()),
            final(self).idg_1.fault() == value_of(old(reader)@, old(self).idg_1.fault_id()),
            final(self).idg_2.fault() == value_of(old(reader)@, old(self).idg_2.fault_id()),
            final(self).gen_1.fault() == value_of(old(reader)@, old(self).gen_1.fault_id()),
            final(self).gen_2.fault() == value_of(old(reader)@, old(self).gen_2.fault_id()),
            final(self).apu_gen.fault() == value_of(old(reader)@, old(self).apu_gen.fault_id()),
            final(self).bus_tie.fault() == value_of(old(reader)@, old(self).bus_tie.fault_id()),
            final(self).ac_ess_feed.fault() == value_of(old(reader)@, old(self).ac_ess_feed.fault_id()),
            final(self).galy_and_cab.fault() == value_of(old(reader)@, old(self).galy_and_cab.fault_id()),
            final(self).commercial.fault() == value_of(old(reader)@, old(self).commercial.fault_id()),
            final(self).bat_1.auto_id() == old(self).bat_1.auto_id(),
            final(self).bat_1.fault_id() == old(self).bat_1.fault_id(),
            final(self).bat_2.auto_id() == old(self).bat_2.auto_id(),
            final(self).bat_2.fault_id() == old(self).bat_2.fault_id(),
            final(self).idg_1.released_id() == old(self).idg_1.released_id(),
            final(self).idg_1.fault_id() == old(self).idg_1.fault_id(),
            final(self).idg_2.released_id() == old(self).idg_2.released_id(),
            final(self).idg_2.fault_id() == old(self).idg_2.fault_id(),
            final(self).gen_1.on_id() == old(self).gen_1.on_id(),
            final(self).gen_1.fault_id() == old(self).gen_1.fault_id(),
            final(self).gen_2.on_id() == old(self).gen_2.on_id(),
            final(self).gen_2.fault_id() == old(self).gen_2.fault_id(),
            final(self).apu_gen.on_id() == old(self).apu_gen.on_id(),
            final(self).apu_gen.fault_id() == old(self).apu_gen.fault_id(),
            final(self).bus_tie.auto_id() == old(self).bus_tie.auto_id(),
            final(self).bus_tie.fault_id() == old(self).bus_tie.fault_id(),
            final(self).ac_ess_feed.normal_id() == old(self).ac_ess_feed.normal_id(),
            final(self).ac_ess_feed.fault_id() == old(self).ac_ess_feed.fault_id(),
            final(self).galy_and_cab.auto_id() == old(self).galy_and_cab.auto_id(),
            final(self).galy_and_cab.fault_id() == old(self).galy_and_cab.fault_id(),
            final(self).ext_pwr.on_id() == old(self).ext_pwr.on_id(),
            final(self).ext_pwr.available_id() == old(self).ext_pwr.available_id(),
            final(self).commercial.on_id() == old(self).commercial.on_id(),
            final(self).commercial.fault_id() == old(self).commercial.fault_id(),
            final(reader)@ == old(reader)@,
    {
        self.bat_1.read(reader);
        self.bat_2.read(reader);
        self.idg_1.read(reader);
        self.idg_2.read(reader);
        self.gen_1.read(reader);
        self.gen_2.read(reader);
        self.apu_gen.read(reader);
        self.bus_tie.read(reader);
        self.ac_ess_feed.read(reader);
        self.galy_and_cab.read(reader);
        self.ext_pwr.read(reader);
        self.commercial.read(reader);
    }
}

/// How an update over a tick of `delta` nanoseconds moves the AC ESS feed,
/// from network `o` to network `e`: the delay counts how long AC BUS 1 has
/// been unpowered, feed 1 closes while AC BUS 1 is powered and the delay has
/// not run out in normal feed, and feed 2 closes while AC BUS 2 is powered and
/// either the delay has run out or the feed is alternate.
pub open spec fn ac_ess_feed_after<R: Copy>(o: A320Electrical<R>, e: A320Electrical<R>, delta: u64, normal: bool) -> bool {
    let ac_1 = e.bus_pairs(ElectricalBusType::AlternatingCurrent(1));
    let ac_2 = e.bus_pairs(ElectricalBusType::AlternatingCurrent(2));
    &&& gate_after(o.ac_ess_feed_delay(), e.ac_ess_feed_delay(), delta, ac_1.len() == 0)
    &&& e.closed(A320Contactor::AcEssFeed1) == (ac_1.len() > 0 && !e.ac_ess_feed_delay().spec_output() && normal)
    &&& e.closed(A320Contactor::AcEssFeed2) == (ac_2.len() > 0 && (e.ac_ess_feed_delay().spec_output() || !normal))
}

/// Over a run of updates from a network whose AC ESS feed delay has not
/// started (as after `new`), with ticks `deltas[i]` and the AC ESS FEED push
/// button in `normals[i]`: in normal feed, feed 2 is closed after the last
/// update exactly when AC BUS 2 is powered, AC BUS 1 is unpowered, and the
/// ticks after the one in which AC BUS 1 last became unpowered add up to at
/// least the delay (3 s); feed 1 is closed exactly when AC BUS 1 is powered.
/// (The ticks must add up to at most `u64::MAX` nanoseconds.)
pub proof fn law_ac_ess_feed_over_a_run<R: Copy>(nets: Seq<A320Electrical<R>>, deltas: Seq<u64>, normals: Seq<bool>)
    requires
        nets.len() == deltas.len() + 1,
        normals.len() == deltas.len(),
        deltas.len() > 0,
        !nets[0].ac_ess_feed_delay().expression(),
        nets[0].ac_ess_feed_delay().true_for() == 0,
        nets[0].ac_ess_feed_delay().delay_nanos() == AC_ESS_FEED_TO_AC_BUS_2_DELAY_IN_NANOSECONDS,
        forall|i: int| 0 <= i < deltas.len() ==> ac_ess_feed_after(nets[i], nets[i + 1], #[trigger] deltas[i], normals[i]),
        delta_sum(deltas, 0, deltas.len() as int) <= u64::MAX,
        normals.last(),
    ensures
        ({
            let last = nets.last();
            let unpowered = Seq::new(
                deltas.len(),
                |i: int| nets[i + 1].bus_pairs(ElectricalBusType::AlternatingCurrent(1)).len() == 0,
            );
            &&& last.closed(A320Contactor::AcEssFeed2) == (last.bus_pairs(ElectricalBusType::AlternatingCurrent(2)).len() > 0
                && last.bus_pairs(ElectricalBusType::AlternatingCurrent(1)).len() == 0
                && AC_ESS_FEED_TO_AC_BUS_2_DELAY_IN_NANOSECONDS <= delta_sum(
                deltas,
                trailing_true_start(unpowered) + 1,
                deltas.len() as int,
            ))
            &&& last.closed(A320Contactor::AcEssFeed1) == (last.bus_pairs(ElectricalBusType::AlternatingCurrent(1)).len() > 0)
        }),
{
    let n = deltas.len() as int;
    let unpowered = Seq::new(
        deltas.len(),
        |i: int| nets[i + 1].bus_pairs(ElectricalBusType::AlternatingCurrent(1)).len() == 0,
    );
    let gates = Seq::new(nets.len(), |i: int| nets[i].ac_ess_feed_delay());
    assert forall|i: int| 0 <= i < unpowered.len() implies gate_after(gates[i], gates[i + 1], #[trigger] deltas[i], unpowered[i]) by {
        assert(ac_ess_feed_after(nets[i], nets[i + 1], deltas[i], normals[i]));
    }
    law_gate_output_over_a_run(gates, deltas, unpowered);
    assert(gates.last() == nets.last().ac_ess_feed_delay());
    assert(ac_ess_feed_after(nets[n - 1], nets[n], deltas[n - 1], normals[n - 1]));
    assert(unpowered.last() == (nets.last().bus_pairs(ElectricalBusType::AlternatingCurrent(1)).len() == 0));
}

} // verus!
