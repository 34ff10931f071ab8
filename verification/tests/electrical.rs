//! Potentials, contactors and buses.

use airbus_systems::electrical::{
    Contactor, ElectricalBus, ElectricalBusType, OriginWithRawPotentialPair, Potential,
    PotentialOrigin, PotentialSource,
};
use airbus_systems::simulation::SimulatorWriter;

fn powerless() -> Potential<f64> {
    Potential::none()
}

fn stub_apu_generator() -> Potential<f64> {
    Potential::single(PotentialOrigin::ApuGenerator(1), 115.)
}

fn some_potential() -> Potential<f64> {
    Potential::single(PotentialOrigin::ApuGenerator(1), 115.)
}

fn none_potential() -> Potential<f64> {
    Potential::none()
}

#[test]
fn some_potential_is_powered() {
    assert_eq!(some_potential().is_powered(), true);
}

#[test]
fn some_potential_is_not_unpowered() {
    assert_eq!(some_potential().is_unpowered(), false);
}

#[test]
fn none_potential_is_not_powered() {
    assert_eq!(none_potential().is_powered(), false);
}

#[test]
fn none_potential_is_unpowered() {
    assert_eq!(none_potential().is_unpowered(), true);
}

#[test]
fn merge_combines_different_potentials() {
    let result = Potential::single(PotentialOrigin::ApuGenerator(1), 115.)
        .merge(&Potential::single(PotentialOrigin::EngineGenerator(1), 115.));

    assert!(result.is_pair(
        PotentialOrigin::ApuGenerator(1),
        PotentialOrigin::EngineGenerator(1)
    ));
}

#[test]
fn merge_combines_similar_potentials() {
    let result = Potential::single(PotentialOrigin::ApuGenerator(1), 115.)
        .merge(&Potential::single(PotentialOrigin::ApuGenerator(1), 115.));

    assert!(result.is_single(PotentialOrigin::ApuGenerator(1)));
}

#[test]
fn merge_ignores_none() {
    let result = Potential::single(PotentialOrigin::ApuGenerator(1), 115.).merge(&Potential::none());

    assert!(result.is_single(PotentialOrigin::ApuGenerator(1)));
}

#[test]
fn merge_keeps_the_left_side_raw_potential() {
    let result = Potential::single(PotentialOrigin::ApuGenerator(1), 115.)
        .merge(&Potential::single(PotentialOrigin::ApuGenerator(1), 10.));

    assert!(
        if let Some(pair) = result.origins_with_raw_potential().iter().filter_map(|&x| x).next() {
            pair.raw() == 115.
        } else {
            false
        }
    );
}

#[test]
#[should_panic]
fn merge_panics_when_merging_more_than_three_origins() {
    Potential::single(PotentialOrigin::ApuGenerator(1), 115.)
        .merge(&Potential::single(PotentialOrigin::EngineGenerator(1), 115.))
        .merge(&Potential::single(PotentialOrigin::EngineGenerator(2), 115.))
        .merge(&Potential::single(PotentialOrigin::EngineGenerator(3), 115.));
}

#[test]
fn is_single_returns_false_when_none() {
    assert!(!Potential::<f64>::none().is_single(PotentialOrigin::External));
}

#[test]
fn is_single_returns_false_when_single_of_different_origin() {
    assert!(!Potential::single(PotentialOrigin::EngineGenerator(1), 115.)
        .is_single(PotentialOrigin::External));
}

#[test]
fn is_single_returns_true_when_single_of_given_origin() {
    assert!(Potential::single(PotentialOrigin::External, 115.).is_single(PotentialOrigin::External));
}

#[test]
fn is_single_returns_false_when_pair() {
    assert!(!Potential::single(PotentialOrigin::External, 115.)
        .merge(&Potential::single(PotentialOrigin::EngineGenerator(1), 115.))
        .is_single(PotentialOrigin::External));
}

#[test]
fn is_single_engine_generator_returns_false_when_none() {
    assert!(!Potential::<f64>::none().is_single_engine_generator());
}

#[test]
fn is_single_engine_generator_returns_false_when_different_origin() {
    assert!(!Potential::single(PotentialOrigin::ApuGenerator(1), 115.).is_single_engine_generator());
}

#[test]
fn is_single_engine_generator_returns_true_when_engine_generator() {
    assert!(Potential::single(PotentialOrigin::EngineGenerator(2), 115.).is_single_engine_generator());
}

#[test]
fn is_single_engine_generator_returns_false_when_pair_of_engine_generators() {
    assert!(!Potential::single(PotentialOrigin::EngineGenerator(1), 115.)
        .merge(&Potential::single(PotentialOrigin::EngineGenerator(2), 115.))
        .is_single_engine_generator());
}

#[test]
fn is_pair_returns_false_when_none() {
    assert!(!Potential::<f64>::none().is_pair(
        PotentialOrigin::EngineGenerator(2),
        PotentialOrigin::EngineGenerator(1)
    ));
}

#[test]
fn is_pair_returns_false_when_single() {
    assert!(!Potential::single(PotentialOrigin::ApuGenerator(1), 115.).is_pair(
        PotentialOrigin::EngineGenerator(2),
        PotentialOrigin::EngineGenerator(1)
    ));
}

#[test]
fn is_pair_returns_false_when_pair_with_different_origins() {
    assert!(!Potential::single(PotentialOrigin::ApuGenerator(1), 115.)
        .merge(&Potential::single(PotentialOrigin::EngineGenerator(2), 115.))
        .is_pair(
            PotentialOrigin::EngineGenerator(2),
            PotentialOrigin::EngineGenerator(1)
        ));
}

#[test]
fn is_pair_returns_true_when_pair_of_given_origins_irregardless_of_order() {
    assert!(Potential::single(PotentialOrigin::EngineGenerator(1), 115.)
        .merge(&Potential::single(PotentialOrigin::EngineGenerator(2), 115.))
        .is_pair(
            PotentialOrigin::EngineGenerator(2),
            PotentialOrigin::EngineGenerator(1)
        ));
}

#[test]
fn equality_is_based_on_potential_origin_and_ignores_electric_potential() {
    assert!(
        OriginWithRawPotentialPair::new(PotentialOrigin::EngineGenerator(1), 50.)
            == OriginWithRawPotentialPair::new(PotentialOrigin::EngineGenerator(1), 115.)
    );
}

#[test]
fn not_equal_when_numbered_potential_origin_is_different() {
    assert!(
        OriginWithRawPotentialPair::new(PotentialOrigin::EngineGenerator(1), 115.)
            != OriginWithRawPotentialPair::new(PotentialOrigin::EngineGenerator(2), 115.)
    );
}

#[test]
fn get_name_returns_name() {
    assert_eq!(ElectricalBusType::AlternatingCurrent(2).name(), "AC_2");
    assert_eq!(ElectricalBusType::AlternatingCurrentEssential.name(), "AC_ESS");
    assert_eq!(ElectricalBusType::AlternatingCurrentEssentialShed.name(), "AC_ESS_SHED");
    assert_eq!(ElectricalBusType::AlternatingCurrentStaticInverter.name(), "AC_STAT_INV");
    assert_eq!(ElectricalBusType::DirectCurrent(2).name(), "DC_2");
    assert_eq!(ElectricalBusType::DirectCurrentEssential.name(), "DC_ESS");
    assert_eq!(ElectricalBusType::DirectCurrentEssentialShed.name(), "DC_ESS_SHED");
    assert_eq!(ElectricalBusType::DirectCurrentBattery.name(), "DC_BAT");
    assert_eq!(ElectricalBusType::DirectCurrentHot(2).name(), "DC_HOT_2");
}

#[test]
fn bus_type_names_hold_numbers_of_several_digits() {
    assert_eq!(ElectricalBusType::AlternatingCurrent(12).name(), "AC_12");
    assert_eq!(ElectricalBusType::DirectCurrentHot(205).name(), "DC_HOT_205");
    assert_eq!(ElectricalBusType::DirectCurrent(0).name(), "DC_0");
}

fn electrical_bus() -> ElectricalBus<f64> {
    ElectricalBus::new(ElectricalBusType::AlternatingCurrent(2))
}

#[test]
fn bus_writes_its_state() {
    let bus = electrical_bus();
    let mut writer = SimulatorWriter::new();
    bus.write(&mut writer);

    assert!(writer.contains_key("ELEC_AC_2_BUS_IS_POWERED"));
}

fn execute_or_powered_by_both_batteries(bus: &mut ElectricalBus<f64>, bat_1: Potential<f64>, bat_2: Potential<f64>) {
    let mut contactor_1 = Contactor::new("BAT1");
    contactor_1.powered_by(&bat_1);
    contactor_1.close_when(true);

    let mut contactor_2 = Contactor::new("BAT2");
    contactor_2.powered_by(&bat_2);
    contactor_2.close_when(true);

    bus.or_powered_by_both_batteries(&contactor_1, &contactor_2);
}

#[test]
fn or_powered_by_both_batteries_results_in_both() {
    let potential = 28.;
    let bat_1 = Potential::single(PotentialOrigin::Battery(10), potential);
    let bat_2 = Potential::single(PotentialOrigin::Battery(11), potential);

    let mut bus = electrical_bus();

    let mut contactor_1 = Contactor::new("BAT1");
    contactor_1.powered_by(&bat_1);
    contactor_1.close_when(true);

    let mut contactor_2 = Contactor::new("BAT2");
    contactor_2.powered_by(&bat_2);
    contactor_2.close_when(true);

    bus.or_powered_by_both_batteries(&contactor_1, &contactor_2);

    assert!(bus
        .input_potential()
        .is_pair(PotentialOrigin::Battery(10), PotentialOrigin::Battery(11)));
}

#[test]
fn or_powered_by_both_batteries_results_in_both_irregardless_of_voltage() {
    let bat_1 = Potential::single(PotentialOrigin::Battery(10), 28.);
    let bat_2 = Potential::single(PotentialOrigin::Battery(11), 25.);

    let mut bus = electrical_bus();
    execute_or_powered_by_both_batteries(&mut bus, bat_1, bat_2);

    assert!(bus
        .input_potential()
        .is_pair(PotentialOrigin::Battery(10), PotentialOrigin::Battery(11)));
}

#[test]
fn or_powered_by_battery_1_results_in_bat_1_output() {
    let bat_1 = Potential::single(PotentialOrigin::Battery(10), 28.);
    let bat_2 = Potential::none();

    let mut bus = electrical_bus();
    execute_or_powered_by_both_batteries(&mut bus, bat_1, bat_2);

    assert!(bus.input_potential().is_single(PotentialOrigin::Battery(10)));
}

#[test]
fn or_powered_by_battery_2_results_in_bat_2_output() {
    let bat_1 = Potential::none();
    let bat_2 = Potential::single(PotentialOrigin::Battery(11), 28.);

    let mut bus = electrical_bus();
    execute_or_powered_by_both_batteries(&mut bus, bat_1, bat_2);

    assert!(bus.input_potential().is_single(PotentialOrigin::Battery(11)));
}

#[test]
fn or_powered_by_none_results_in_unpowered_output() {
    let bat_1 = Potential::none();
    let bat_2 = Potential::none();

    let mut bus = electrical_bus();
    execute_or_powered_by_both_batteries(&mut bus, bat_1, bat_2);

    assert!(bus.input_potential().is_unpowered());
}

#[test]
fn or_powered_by_both_batteries_keeps_what_the_bus_had_first() {
    let mut bus = electrical_bus();
    bus.powered_by(&Potential::single(PotentialOrigin::TransformerRectifier(1), 28.));
    let bat_1 = Potential::single(PotentialOrigin::Battery(10), 28.);
    let bat_2 = Potential::none();

    execute_or_powered_by_both_batteries(&mut bus, bat_1, bat_2);

    assert!(bus.input_potential().is_pair(
        PotentialOrigin::TransformerRectifier(1),
        PotentialOrigin::Battery(10)
    ));
}

fn contactor() -> Contactor<f64> {
    Contactor::new("TEST")
}

fn open_contactor() -> Contactor<f64> {
    let mut contactor = contactor();
    contactor.close_when(false);

    contactor
}

fn closed_contactor() -> Contactor<f64> {
    let mut contactor = contactor();
    contactor.close_when(true);

    contactor
}

#[test]
fn contactor_starts_open() {
    assert!(contactor().is_open());
}

#[test]
fn open_contactor_when_toggled_open_stays_open() {
    let mut contactor = open_contactor();
    contactor.close_when(false);

    assert!(contactor.is_open());
}

#[test]
fn open_contactor_when_toggled_closed_closes() {
    let mut contactor = open_contactor();
    contactor.close_when(true);

    assert!(contactor.is_closed());
}

#[test]
fn closed_contactor_when_toggled_open_opens() {
    let mut contactor = closed_contactor();
    contactor.close_when(false);

    assert!(contactor.is_open());
}

#[test]
fn closed_contactor_when_toggled_closed_stays_closed() {
    let mut contactor = closed_contactor();
    contactor.close_when(true);

    assert!(contactor.is_closed());
}

fn contactor_has_no_output_when_powered_by_nothing(contactor: Contactor<f64>) {
    assert!(contactor.is_unpowered());
}

#[test]
fn open_contactor_has_no_output_when_powered_by_nothing() {
    contactor_has_no_output_when_powered_by_nothing(open_contactor());
}

#[test]
fn closed_contactor_has_no_output_when_powered_by_nothing() {
    contactor_has_no_output_when_powered_by_nothing(closed_contactor());
}

fn contactor_has_no_output_when_powered_by_nothing_which_is_powered(mut contactor: Contactor<f64>) {
    contactor.powered_by(&powerless());

    assert!(contactor.is_unpowered());
}

#[test]
fn open_contactor_has_no_output_when_powered_by_nothing_which_is_powered() {
    contactor_has_no_output_when_powered_by_nothing_which_is_powered(open_contactor());
}

#[test]
fn closed_contactor_has_no_output_when_powered_by_nothing_which_is_powered() {
    contactor_has_no_output_when_powered_by_nothing_which_is_powered(closed_contactor());
}

#[test]
fn open_contactor_has_no_output_when_powered_by_something() {
    let mut contactor = open_contactor();
    contactor.powered_by(&powerless());
    contactor.or_powered_by(&stub_apu_generator());

    assert!(contactor.is_unpowered());
}

#[test]
fn closed_contactor_has_output_when_powered_by_something_which_is_powered() {
    let mut contactor = closed_contactor();
    contactor.powered_by(&powerless());
    contactor.or_powered_by(&stub_apu_generator());

    assert!(contactor.is_powered());
}

#[test]
fn or_powered_by_keeps_the_potential_already_received() {
    let mut contactor = closed_contactor();
    contactor.powered_by(&Potential::single(PotentialOrigin::External, 115.));
    contactor.or_powered_by(&stub_apu_generator());

    assert!(contactor.output().is_single(PotentialOrigin::External));
}

#[test]
fn contactor_writes_its_state() {
    let contactor = contactor();
    let mut writer = SimulatorWriter::new();
    contactor.write(&mut writer);

    assert!(writer.contains_key("ELEC_CONTACTOR_TEST_IS_CLOSED"));
    assert_eq!(writer.last_value_of("ELEC_CONTACTOR_TEST_IS_CLOSED"), Some(false));
}

#[test]
fn merge_fills_the_places_in_order_with_the_empty_places_last() {
    let result = Potential::single(PotentialOrigin::Battery(10), 26.)
        .merge(&Potential::none())
        .merge(&Potential::single(PotentialOrigin::Battery(11), 25.))
        .merge(&Potential::single(PotentialOrigin::Battery(10), 1.));

    let places = result.origins_with_raw_potential();
    let first = places[0].expect("the first place holds battery 10");
    let second = places[1].expect("the second place holds battery 11");
    assert_eq!(first.origin(), PotentialOrigin::Battery(10));
    assert_eq!(first.raw(), 26.);
    assert_eq!(second.origin(), PotentialOrigin::Battery(11));
    assert_eq!(second.raw(), 25.);
    assert!(places[2].is_none());
}
