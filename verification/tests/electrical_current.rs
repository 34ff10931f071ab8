//! Currents tagged with their source, and the elements they flow through.

use airbus_systems::electrical::current::{
    ApuGenerator, Battery, Contactor, Current, ElectricalBus, EmergencyGenerator, EngineGenerator,
    ExternalPowerSource, PowerConductor, PowerSource, Powerable, StaticInverter,
    TransformerRectifier,
};
use airbus_systems::overhead::OnOffPushButton;

/// Frequency (Hz), potential (V) and current (A) of alternating current.
type Ac = (f64, f64, f64);
/// Potential (V) and current (A) of direct current.
type Dc = (f64, f64);
type TestCurrent = Current<Ac, Dc>;

const GENERATOR: Ac = (400., 115., 782.60);
const RECTIFIED: Dc = (28.5, 35.);
const INVERTED: Ac = (400., 115., 8.7);

#[allow(non_upper_case_globals)]
const Powerless: TestCurrent = Current::Unpowered;

fn apu_generator() -> TestCurrent {
    Current::Alternating(PowerSource::ApuGenerator, GENERATOR)
}

fn alternating_current() -> TestCurrent {
    Current::Alternating(PowerSource::ApuGenerator, (0., 0., 0.))
}

fn direct_current() -> TestCurrent {
    Current::Direct(PowerSource::ApuGenerator, (0., 0.))
}

fn none_current() -> TestCurrent {
    Current::Unpowered
}

#[test]
fn alternating_current_is_powered() {
    assert_eq!(alternating_current().is_powered(), true);
}

#[test]
fn alternating_current_is_not_unpowered() {
    assert_eq!(alternating_current().is_unpowered(), false);
}

#[test]
fn direct_current_is_powered() {
    assert_eq!(direct_current().is_powered(), true);
}

#[test]
fn direct_current_is_not_unpowered() {
    assert_eq!(direct_current().is_unpowered(), false);
}

#[test]
fn none_current_is_not_powered() {
    assert_eq!(none_current().is_powered(), false);
}

#[test]
fn none_current_is_unpowered() {
    assert_eq!(none_current().is_unpowered(), true);
}

#[test]
fn the_source_of_a_current_is_its_tag() {
    assert_eq!(direct_current().source(), PowerSource::ApuGenerator);
    assert_eq!(none_current().source(), PowerSource::NoSource);
}

fn contactor() -> Contactor<Ac, Dc> {
    Contactor::new(String::from("TEST"))
}

fn open_contactor() -> Contactor<Ac, Dc> {
    let mut contactor = contactor();
    contactor.close_when(false);
    contactor
}

fn closed_contactor() -> Contactor<Ac, Dc> {
    let mut contactor = contactor();
    contactor.close_when(true);
    contactor
}

#[test]
fn tagged_contactor_starts_open() {
    assert!(contactor().is_open());
}

#[test]
fn tagged_open_contactor_when_toggled_open_stays_open() {
    let mut contactor = open_contactor();
    contactor.close_when(false);

    assert!(contactor.is_open());
}

#[test]
fn tagged_open_contactor_when_toggled_closed_closes() {
    let mut contactor = open_contactor();
    contactor.close_when(true);

    assert!(contactor.is_closed());
}

#[test]
fn tagged_closed_contactor_when_toggled_open_opens() {
    let mut contactor = closed_contactor();
    contactor.close_when(false);

    assert!(contactor.is_open());
}

#[test]
fn tagged_closed_contactor_when_toggled_closed_stays_closed() {
    let mut contactor = closed_contactor();
    contactor.close_when(true);

    assert!(contactor.is_closed());
}

fn contactor_has_no_output_when_powered_by_nothing(mut contactor: Contactor<Ac, Dc>) {
    let nothing: Vec<&TestCurrent> = vec![];
    contactor.powered_by(nothing);

    assert!(contactor.output().is_unpowered());
}

#[test]
fn tagged_open_contactor_has_no_output_when_powered_by_nothing() {
    contactor_has_no_output_when_powered_by_nothing(open_contactor());
}

#[test]
fn tagged_closed_contactor_has_no_output_when_powered_by_nothing() {
    contactor_has_no_output_when_powered_by_nothing(closed_contactor());
}

fn contactor_has_no_output_when_powered_by_nothing_which_is_powered(mut contactor: Contactor<Ac, Dc>) {
    contactor.powered_by(vec![&Powerless]);

    assert!(contactor.output().is_unpowered());
}

#[test]
fn tagged_open_contactor_has_no_output_when_powered_by_nothing_which_is_powered() {
    contactor_has_no_output_when_powered_by_nothing_which_is_powered(open_contactor());
}

#[test]
fn tagged_closed_contactor_has_no_output_when_powered_by_nothing_which_is_powered() {
    contactor_has_no_output_when_powered_by_nothing_which_is_powered(closed_contactor());
}

#[test]
fn tagged_open_contactor_has_no_output_when_powered_by_something() {
    let mut contactor = open_contactor();
    let apu = apu_generator();
    let conductors: Vec<&TestCurrent> = vec![&Powerless, &apu];
    contactor.powered_by(conductors);

    assert!(contactor.output().is_unpowered());
}

#[test]
fn tagged_closed_contactor_has_output_when_powered_by_something_which_is_powered() {
    let mut contactor = closed_contactor();
    let apu = apu_generator();
    let conductors: Vec<&TestCurrent> = vec![&Powerless, &apu];
    contactor.powered_by(conductors);

    assert!(contactor.output().is_powered());
}

#[test]
fn powered_by_takes_the_first_powered_source() {
    let mut contactor = closed_contactor();
    let external: TestCurrent = Current::Alternating(PowerSource::External, GENERATOR);
    let apu = apu_generator();
    contactor.powered_by(vec![&Powerless, &external, &apu]);

    assert_eq!(contactor.output().source(), PowerSource::External);
}

#[test]
fn or_powered_by_keeps_an_existing_input() {
    let mut contactor = closed_contactor();
    let external: TestCurrent = Current::Alternating(PowerSource::External, GENERATOR);
    contactor.powered_by(vec![&external]);
    let apu = apu_generator();
    contactor.or_powered_by(vec![&apu]);

    assert_eq!(contactor.output().source(), PowerSource::External);
}

#[test]
fn or_powered_by_takes_the_last_powered_source_when_without_input() {
    let mut contactor = closed_contactor();
    let external: TestCurrent = Current::Alternating(PowerSource::External, GENERATOR);
    let apu = apu_generator();
    contactor.or_powered_by(vec![&external, &Powerless, &apu, &Powerless]);

    assert_eq!(contactor.output().source(), PowerSource::ApuGenerator);
}

fn engine_generator() -> EngineGenerator<Ac, Dc> {
    EngineGenerator::new(1, GENERATOR)
}

fn update_above_threshold(generator: &mut EngineGenerator<Ac, Dc>) {
    generator.update(true, &OnOffPushButton::new_on());
}

fn update_below_threshold(generator: &mut EngineGenerator<Ac, Dc>) {
    generator.update(false, &OnOffPushButton::new_on());
}

#[test]
fn engine_generator_starts_without_output() {
    assert!(engine_generator().output().is_unpowered());
}

#[test]
fn when_engine_n2_above_threshold_provides_output() {
    let mut generator = engine_generator();
    update_below_threshold(&mut generator);
    update_above_threshold(&mut generator);

    assert!(generator.output().is_powered());
    assert_eq!(generator.output().source(), PowerSource::EngineGenerator(1));
}

#[test]
fn when_engine_n2_below_threshold_provides_no_output() {
    let mut generator = engine_generator();
    update_above_threshold(&mut generator);
    update_below_threshold(&mut generator);

    assert!(generator.output().is_unpowered());
}

#[test]
fn when_idg_disconnected_provides_no_output() {
    let mut generator = engine_generator();
    generator.update(true, &OnOffPushButton::new_off());

    assert!(generator.output().is_unpowered());
}

fn apu_generator_element() -> ApuGenerator<Ac, Dc> {
    ApuGenerator::new(GENERATOR)
}

#[test]
fn apu_generator_starts_without_output() {
    assert!(apu_generator_element().output().is_unpowered());
}

#[test]
fn when_apu_speed_above_threshold_provides_output() {
    let mut generator = apu_generator_element();
    generator.update(false);
    generator.update(true);

    assert!(generator.output().is_powered());
}

#[test]
fn when_apu_speed_below_threshold_provides_no_output() {
    let mut generator = apu_generator_element();
    generator.update(true);
    generator.update(false);

    assert!(generator.output().is_unpowered());
}

fn external_power_source() -> ExternalPowerSource<Ac> {
    ExternalPowerSource::new(GENERATOR)
}

#[test]
fn external_power_starts_without_output() {
    assert!(PowerConductor::<Ac, Dc>::output(&external_power_source()).is_unpowered());
}

#[test]
fn when_plugged_in_provides_output() {
    let mut ext_pwr = external_power_source();
    ext_pwr.is_connected = true;

    assert!(PowerConductor::<Ac, Dc>::output(&ext_pwr).is_powered());
}

#[test]
fn when_not_plugged_in_provides_no_output() {
    let mut ext_pwr = external_power_source();
    ext_pwr.is_connected = false;

    assert!(PowerConductor::<Ac, Dc>::output(&ext_pwr).is_unpowered());
}

fn transformer_rectifier() -> TransformerRectifier<Ac, Dc> {
    TransformerRectifier::new(RECTIFIED)
}

#[test]
fn transformer_rectifier_starts_without_output() {
    assert!(transformer_rectifier().output().is_unpowered());
}

#[test]
fn when_powered_with_alternating_current_outputs_direct_current() {
    let mut tr = transformer_rectifier();
    tr.powered_by(vec![&apu_generator()]);

    assert!(tr.output().is_powered());
    assert!(if let Current::Direct(PowerSource::ApuGenerator, ..) = tr.output() {
        true
    } else {
        false
    });
}

#[test]
fn when_powered_with_alternating_current_but_failed_has_no_output() {
    let mut tr = transformer_rectifier();
    tr.powered_by(vec![&apu_generator()]);
    tr.fail();

    assert!(tr.output().is_unpowered());
}

#[test]
fn transformer_rectifier_when_unpowered_has_no_output() {
    let mut tr = transformer_rectifier();
    tr.powered_by(vec![&Powerless]);

    assert!(tr.output().is_unpowered());
}

#[test]
fn transformer_rectifier_does_not_rectify_direct_current() {
    let mut tr = transformer_rectifier();
    tr.powered_by(vec![&direct_current()]);

    assert!(tr.output().is_unpowered());
}

fn emergency_generator() -> EmergencyGenerator<Ac> {
    EmergencyGenerator::new((400., 115., 43.47))
}

#[test]
fn emergency_generator_starts_without_output() {
    assert!(PowerConductor::<Ac, Dc>::output(&emergency_generator()).is_unpowered());
}

#[test]
fn emergency_generator_when_started_provides_output() {
    let mut emer_gen = emergency_generator();
    emer_gen.attempt_start();
    emer_gen.update(true);

    assert!(PowerConductor::<Ac, Dc>::output(&emer_gen).is_powered());
}

#[test]
fn emergency_generator_when_started_without_hydraulic_pressure_is_unpowered() {
    let mut emer_gen = emergency_generator();
    emer_gen.attempt_start();
    emer_gen.update(false);

    assert!(PowerConductor::<Ac, Dc>::output(&emer_gen).is_unpowered());
}

fn full_battery() -> Battery<Ac, Dc> {
    Battery::full(1, RECTIFIED)
}

fn empty_battery() -> Battery<Ac, Dc> {
    Battery::empty(1, RECTIFIED)
}

#[test]
fn full_battery_is_full_with_output() {
    assert!(full_battery().is_full());
    assert!(!full_battery().is_empty());
    assert!(full_battery().output().is_powered());
}

#[test]
fn empty_battery_is_empty_without_output() {
    assert!(!empty_battery().is_full());
    assert!(empty_battery().is_empty());
    assert!(empty_battery().output().is_unpowered());
}

#[test]
fn when_empty_battery_has_input_doesnt_have_output() {
    let mut battery = empty_battery();
    battery.powered_by(vec![&apu_generator()]);

    assert!(battery.output().is_unpowered());
}

#[test]
fn when_full_battery_has_doesnt_have_output() {
    let mut battery = full_battery();
    battery.powered_by(vec![&apu_generator()]);

    assert!(battery.output().is_unpowered());
}

#[test]
fn charged_battery_without_input_has_output() {
    let mut battery = full_battery();
    battery.powered_by(vec![&Powerless]);

    assert!(battery.output().is_powered());
}

#[test]
fn empty_battery_without_input_has_no_output() {
    let mut battery = empty_battery();
    battery.powered_by(vec![&Powerless]);

    assert!(battery.output().is_unpowered());
}

fn static_inverter() -> StaticInverter<Ac, Dc> {
    StaticInverter::new(INVERTED)
}

#[test]
fn static_inverter_starts_without_output() {
    assert!(static_inverter().output().is_unpowered());
}

#[test]
fn when_powered_with_direct_current_outputs_alternating_current() {
    let mut static_inv = static_inverter();
    static_inv.powered_by(vec![&full_battery()]);

    assert!(static_inv.output().is_powered());
    assert!(if let Current::Alternating(PowerSource::Battery(1), ..) = static_inv.output() {
        true
    } else {
        false
    });
}

#[test]
fn tagged_static_inverter_when_unpowered_has_no_output() {
    let mut static_inv = static_inverter();
    static_inv.powered_by(vec![&Powerless]);

    assert!(static_inv.output().is_unpowered());
}

#[test]
fn a_failed_bus_passes_nothing_on_until_normal() {
    let mut bus: ElectricalBus<Ac, Dc> = ElectricalBus::new();
    bus.powered_by(vec![&apu_generator()]);
    bus.fail();
    assert!(bus.output().is_unpowered());

    bus.normal();
    assert_eq!(bus.output().source(), PowerSource::ApuGenerator);
}
