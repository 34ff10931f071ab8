//! The APU overhead panels, fuel pressure switch, start contactor and flight phases.

use airbus_systems::apu::{
    ApuStartContactor, AuxiliaryPowerUnitFireOverheadPanel, AuxiliaryPowerUnitOverheadPanel,
    FuelPressureSwitch,
};
use airbus_systems::electrical::consumption::PowerConsumerFlightPhase;
use airbus_systems::electrical::{PotentialOrigin, PotentialSource};
use airbus_systems::shared::FwcFlightPhase;
use airbus_systems::simulation::{SimulatorReader, SimulatorWriter};

#[test]
fn start_button_turns_off_once_apu_available() {
    let mut panel = AuxiliaryPowerUnitOverheadPanel::new();
    panel.master.push_on();
    panel.start.turn_on();

    panel.update_after_apu(true, false, true);

    assert!(!panel.start_is_on());
    assert!(panel.start.is_available());
}

#[test]
fn start_button_stays_on_while_starting() {
    let mut panel = AuxiliaryPowerUnitOverheadPanel::new();
    panel.master.push_on();
    panel.start.turn_on();

    panel.update_after_apu(false, false, true);

    assert!(panel.start_is_on());
}

#[test]
fn start_button_turns_off_when_master_off_and_not_starting() {
    let mut panel = AuxiliaryPowerUnitOverheadPanel::new();
    panel.start.turn_on();

    panel.update_after_apu(false, false, false);

    assert!(!panel.start_is_on());
}

#[test]
fn apu_fault_shows_on_master_and_turns_start_off() {
    let mut panel = AuxiliaryPowerUnitOverheadPanel::new();
    panel.master.push_on();
    panel.start.turn_on();

    panel.update_after_apu(false, true, true);

    assert!(panel.master.has_fault());
    assert!(!panel.start_is_on());
}

#[test]
fn apu_panel_writes_its_buttons() {
    let panel = AuxiliaryPowerUnitOverheadPanel::new();
    let mut writer = SimulatorWriter::new();
    panel.write(&mut writer);

    assert!(writer.contains_key("OVHD_APU_MASTER_SW_PB_IS_ON"));
    assert!(writer.contains_key("OVHD_APU_START_PB_IS_AVAILABLE"));
    assert_eq!(writer.len(), 4);
}

#[test]
fn apu_panel_reads_its_buttons() {
    let mut panel = AuxiliaryPowerUnitOverheadPanel::new();
    let mut reader = SimulatorReader::new(vec![
        (String::from("OVHD_APU_MASTER_SW_PB_IS_ON"), true),
        (String::from("OVHD_APU_START_PB_IS_ON"), true),
    ]);
    panel.read(&mut reader);

    assert!(panel.master_is_on());
    assert!(panel.start_is_on());
}

#[test]
fn fire_button_once_released_stays_released() {
    let mut panel = AuxiliaryPowerUnitFireOverheadPanel::new();
    assert!(!panel.fire_button_is_released());

    let mut released = SimulatorReader::new(vec![(String::from("FIRE_BUTTON_APU"), true)]);
    panel.read(&mut released);
    let mut pushed = SimulatorReader::new(vec![(String::from("FIRE_BUTTON_APU"), false)]);
    panel.read(&mut pushed);

    assert!(panel.fire_button_is_released());
}

#[test]
fn fuel_pressure_switch_follows_the_remaining_fuel() {
    let mut switch = FuelPressureSwitch::new();
    assert!(!switch.has_pressure());

    switch.update(true);
    assert!(switch.has_pressure());

    switch.update(false);
    assert!(!switch.has_pressure());
}

#[test]
fn flight_warning_phases_map_to_consumption_phases() {
    assert_eq!(PowerConsumerFlightPhase::from(FwcFlightPhase::ElecPwr), PowerConsumerFlightPhase::BeforeStart);
    assert_eq!(
        PowerConsumerFlightPhase::from(FwcFlightPhase::FirstEngineStarted),
        PowerConsumerFlightPhase::AfterStart
    );
    assert_eq!(
        PowerConsumerFlightPhase::from(FwcFlightPhase::AtOrAboveEightyKnots),
        PowerConsumerFlightPhase::Takeoff
    );
    assert_eq!(PowerConsumerFlightPhase::from(FwcFlightPhase::LiftOff), PowerConsumerFlightPhase::Takeoff);
    assert_eq!(
        PowerConsumerFlightPhase::from(FwcFlightPhase::AtOrAbove1500Feet),
        PowerConsumerFlightPhase::Flight
    );
    assert_eq!(PowerConsumerFlightPhase::from(FwcFlightPhase::TouchDown), PowerConsumerFlightPhase::Landing);
    assert_eq!(
        PowerConsumerFlightPhase::from(FwcFlightPhase::AtOrBelowEightyKnots),
        PowerConsumerFlightPhase::TaxiIn
    );
    assert_eq!(
        PowerConsumerFlightPhase::from(FwcFlightPhase::EnginesShutdown),
        PowerConsumerFlightPhase::BeforeStart
    );
}

#[test]
fn start_contactor_is_open_when_new() {
    let contactor = ApuStartContactor::new(28.);

    assert!(!contactor.is_powered());
    assert!(contactor.output().is_unpowered());
}

#[test]
fn closed_start_contactor_passes_the_battery_potential_on() {
    let mut contactor = ApuStartContactor::new(28.);

    contactor.update(true);

    assert!(contactor.is_powered());
    assert!(contactor.output().is_single(PotentialOrigin::Battery(10)));
}

#[test]
fn start_contactor_opens_again_when_it_should_no_longer_be_closed() {
    let mut contactor = ApuStartContactor::new(28.);

    contactor.update(true);
    contactor.update(false);

    assert!(!contactor.is_powered());
}
