//! Generators, converters, external power, batteries and the power supply.

use airbus_systems::electrical::converters::{StaticInverter, TransformerRectifier};
use airbus_systems::electrical::emergency_generator::EmergencyGenerator;
use airbus_systems::electrical::engine_generator::{
    CorrectedN2, EngineGenerator, IntegratedDriveGenerator,
};
use airbus_systems::electrical::external_power_source::{Battery, ExternalPowerSource};
use airbus_systems::electrical::power_supply::SuppliedPower;
use airbus_systems::electrical::{ElectricalBus, ElectricalBusType, Potential, PotentialOrigin, PotentialSource};
use airbus_systems::shared::UpdateContext;
use airbus_systems::simulation::{SimulatorReader, SimulatorWriter};
use std::time::Duration;

fn context(delta: Duration) -> UpdateContext {
    UpdateContext::new(delta.as_nanos() as u64)
}

fn running() -> CorrectedN2 {
    CorrectedN2::AtOrAbovePowerUpThreshold
}

fn shutdown() -> CorrectedN2 {
    CorrectedN2::AtOrBelowPowerDownThreshold
}

#[test]
fn starts_unstable() {
    assert_eq!(IntegratedDriveGenerator::new(1).provides_stable_power_output(), false);
}

#[test]
fn becomes_stable_once_engine_above_threshold_for_500_milliseconds() {
    let mut idg = IntegratedDriveGenerator::new(1);
    idg.update(&context(Duration::from_millis(500)), running(), false);

    assert_eq!(idg.provides_stable_power_output(), true);
}

#[test]
fn does_not_become_stable_before_engine_above_threshold_for_500_milliseconds() {
    let mut idg = IntegratedDriveGenerator::new(1);
    idg.update(&context(Duration::from_millis(499)), running(), false);

    assert_eq!(idg.provides_stable_power_output(), false);
}

#[test]
fn cannot_reconnect_once_disconnected() {
    let mut idg = IntegratedDriveGenerator::new(1);
    idg.update(&context(Duration::from_millis(500)), running(), true);
    idg.update(&context(Duration::from_millis(500)), running(), false);

    assert_eq!(idg.provides_stable_power_output(), false);
    assert_eq!(idg.is_connected(), false);
}

#[test]
fn stability_builds_up_over_several_ticks() {
    let mut idg = IntegratedDriveGenerator::new(1);
    idg.update(&context(Duration::from_millis(300)), running(), false);
    assert!(!idg.provides_stable_power_output());

    idg.update(&context(Duration::from_millis(300)), running(), false);
    assert!(idg.provides_stable_power_output());
}

#[test]
fn between_thresholds_keeps_stability() {
    let mut idg = IntegratedDriveGenerator::new(1);
    idg.update(&context(Duration::from_millis(500)), running(), false);
    idg.update(&context(Duration::from_secs(10)), CorrectedN2::BetweenThresholds, false);

    assert!(idg.provides_stable_power_output());
}

#[test]
fn below_power_down_threshold_loses_stability() {
    let mut idg = IntegratedDriveGenerator::new(1);
    idg.update(&context(Duration::from_millis(500)), running(), false);
    idg.update(&context(Duration::from_millis(1)), shutdown(), false);

    assert!(!idg.provides_stable_power_output());

    idg.update(&context(Duration::from_millis(1)), running(), false);
    assert!(idg.provides_stable_power_output());
}

#[test]
fn idg_writes_its_state() {
    let idg = IntegratedDriveGenerator::new(1);
    let mut writer = SimulatorWriter::new();
    idg.write(&mut writer);

    assert!(writer.contains_key("ELEC_ENG_GEN_1_IDG_IS_CONNECTED"));
    assert_eq!(writer.last_value_of("ELEC_ENG_GEN_1_IDG_IS_CONNECTED"), Some(true));
}

#[test]
fn when_engine_running_provides_output() {
    let mut generator = EngineGenerator::new(1, 115.);
    generator.update(&context(Duration::from_secs(1)), running(), false);

    assert!(generator.is_powered());
    assert!(generator.output().is_single(PotentialOrigin::EngineGenerator(1)));
}

#[test]
fn when_engine_shutdown_provides_no_output() {
    let mut generator = EngineGenerator::new(1, 115.);
    generator.update(&context(Duration::from_secs(1)), shutdown(), false);

    assert!(!generator.is_powered());
}

#[test]
fn when_engine_running_but_idg_disconnected_provides_no_output() {
    let mut generator = EngineGenerator::new(1, 115.);
    generator.update(&context(Duration::from_secs(1)), running(), true);

    assert!(!generator.is_powered());
    assert!(!generator.idg_is_connected());
}

#[test]
fn engine_generator_provides_the_raw_potential_it_was_given() {
    let mut generator = EngineGenerator::new(2, 0.);
    generator.update(&context(Duration::from_secs(1)), running(), false);
    generator.set_output_potential(115.);

    let output = generator.output();
    let pair = output.origins_with_raw_potential()[0].unwrap();
    assert_eq!(pair.origin(), PotentialOrigin::EngineGenerator(2));
    assert_eq!(pair.raw(), 115.);
}

#[test]
fn when_shutdown_has_no_output() {
    let mut generator = EmergencyGenerator::new(115.);
    generator.update(&context(Duration::from_secs(100)), true);

    assert!(!generator.is_powered());
}

#[test]
fn when_started_provides_output() {
    let mut generator = EmergencyGenerator::new(115.);
    generator.start();
    generator.update(&context(Duration::from_secs(100)), true);

    assert!(generator.is_powered());
    assert!(generator.output().is_single(PotentialOrigin::EmergencyGenerator));
}

#[test]
fn when_started_without_hydraulic_pressure_is_unpowered() {
    let mut generator = EmergencyGenerator::new(115.);
    generator.start();
    generator.update(&context(Duration::from_secs(100)), false);

    assert!(!generator.is_powered());
}

#[test]
fn emergency_generator_supplies_only_after_more_than_eight_seconds() {
    let mut generator = EmergencyGenerator::new(115.);
    generator.start();
    generator.update(&context(Duration::from_secs(8)), true);
    assert!(!generator.is_powered());

    generator.update(&context(Duration::from_nanos(1)), true);
    assert!(generator.is_powered());
}

fn powered() -> Potential<f64> {
    Potential::single(PotentialOrigin::ApuGenerator(1), 115.)
}

fn no_potential() -> Potential<f64> {
    Potential::none()
}

#[test]
fn when_unpowered_has_no_output() {
    let mut tr = TransformerRectifier::new(1, 28.);
    tr.powered_by(&no_potential());

    assert!(!tr.is_powered());
}

#[test]
fn when_powered_has_output() {
    let mut tr = TransformerRectifier::new(1, 28.);
    tr.powered_by(&powered());

    assert!(tr.is_powered());
    assert!(tr.output().is_single(PotentialOrigin::TransformerRectifier(1)));
}

#[test]
fn when_powered_but_failed_has_no_output() {
    let mut tr = TransformerRectifier::new(1, 28.);
    tr.powered_by(&powered());
    tr.fail();

    assert!(!tr.is_powered());
}

#[test]
fn static_inverter_when_unpowered_has_no_output() {
    let mut inverter = StaticInverter::new(115.);
    inverter.powered_by(&no_potential());

    assert!(!inverter.is_powered());
}

#[test]
fn static_inverter_when_powered_has_output() {
    let mut inverter = StaticInverter::new(115.);
    inverter.powered_by(&powered());

    assert!(inverter.output().is_single(PotentialOrigin::StaticInverter));
}

#[test]
fn when_disconnected_provides_no_output() {
    let ext_pwr = ExternalPowerSource::new(115.);

    assert!(!ext_pwr.is_powered());
}

#[test]
fn when_connected_provides_output() {
    let mut ext_pwr = ExternalPowerSource::new(115.);
    let mut reader = SimulatorReader::new(vec![(String::from("EXTERNAL POWER AVAILABLE:1"), true)]);
    ext_pwr.read(&mut reader);

    assert!(ext_pwr.is_connected());
    assert!(ext_pwr.output().is_single(PotentialOrigin::External));
}

#[test]
fn external_power_not_mentioned_by_the_simulator_is_disconnected() {
    let mut ext_pwr = ExternalPowerSource::new(115.);
    let mut reader = SimulatorReader::new(vec![(String::from("SOMETHING ELSE"), true)]);
    ext_pwr.read(&mut reader);

    assert!(!ext_pwr.is_powered());
}

#[test]
fn a_battery_with_charge_provides_its_own_origin() {
    let battery = Battery::new(10, true, Some(28.));

    assert!(battery.output().is_single(PotentialOrigin::Battery(10)));
    assert!(battery.is_full());
}

#[test]
fn an_empty_battery_provides_nothing() {
    let mut battery = Battery::new(10, true, Some(28.));
    battery.set_charge_state(false, None);

    assert!(!battery.is_powered());
    assert!(!battery.is_full());
}

#[test]
fn a_battery_receives_potential_for_charging() {
    let mut battery = Battery::new(11, false, Some(24.));
    battery.powered_by(&Potential::single(PotentialOrigin::TransformerRectifier(1), 28.));

    assert!(battery.input_potential().is_single(PotentialOrigin::TransformerRectifier(1)));
}

fn powered_bus(bus_type: ElectricalBusType) -> ElectricalBus<f64> {
    let mut bus = ElectricalBus::new(bus_type);
    bus.powered_by(&powered());

    bus
}

fn unpowered_bus(bus_type: ElectricalBusType) -> ElectricalBus<f64> {
    ElectricalBus::new(bus_type)
}

#[test]
fn is_powered_returns_false_when_bus_not_found() {
    let supplied_power = SuppliedPower::<f64>::new();

    assert!(!supplied_power.is_powered(ElectricalBusType::AlternatingCurrent(1)));
}

#[test]
fn is_powered_returns_true_when_bus_is_powered() {
    let mut supplied_power = SuppliedPower::new();
    supplied_power.add(&powered_bus(ElectricalBusType::AlternatingCurrent(1)));

    assert!(supplied_power.is_powered(ElectricalBusType::AlternatingCurrent(1)));
}

#[test]
fn is_powered_returns_false_when_bus_unpowered() {
    let mut supplied_power = SuppliedPower::new();
    supplied_power.add(&unpowered_bus(ElectricalBusType::AlternatingCurrent(1)));

    assert!(!supplied_power.is_powered(ElectricalBusType::AlternatingCurrent(1)));
}

#[test]
fn adding_a_bus_again_replaces_its_potential() {
    let mut supplied_power = SuppliedPower::new();
    supplied_power.add(&powered_bus(ElectricalBusType::DirectCurrent(2)));
    supplied_power.add(&unpowered_bus(ElectricalBusType::DirectCurrent(1)));
    supplied_power.add(&unpowered_bus(ElectricalBusType::DirectCurrent(2)));

    assert!(!supplied_power.is_powered(ElectricalBusType::DirectCurrent(2)));
    assert!(supplied_power.source_for(ElectricalBusType::DirectCurrent(2)).is_unpowered());
}

#[test]
fn potential_of_returns_the_origins_of_the_bus() {
    let mut supplied_power = SuppliedPower::new();
    supplied_power.add(&powered_bus(ElectricalBusType::DirectCurrentEssential));

    assert!(supplied_power
        .potential_of(ElectricalBusType::DirectCurrentEssential)
        .is_single(PotentialOrigin::ApuGenerator(1)));
    assert!(supplied_power.potential_of(ElectricalBusType::DirectCurrentBattery).is_unpowered());
}
