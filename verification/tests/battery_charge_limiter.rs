//! When the battery charge limiter closes and opens the battery contactor.

use airbus_systems::electrical::battery_charge_limiter::{
    BatteryChargeLimiter, BatteryChargeLimiterArguments,
};
use airbus_systems::shared::{AirspeedBand, UpdateContext};
use airbus_systems::simulation::SimulatorWriter;
use std::time::Duration;

fn context(delta: Duration) -> UpdateContext {
    UpdateContext::new(delta.as_nanos() as u64)
}

/// A fully charged battery on the ground with AC power available.
fn arguments() -> BatteryChargeLimiterArguments {
    BatteryChargeLimiterArguments {
        both_ac_buses_unpowered: false,
        battery_potential_below_charging_threshold: false,
        battery_bus_potential_above_charging_threshold: true,
        battery_potential_below_discharge_protection_threshold: false,
        battery_current_below_4_ampere: true,
        battery_discharging_above_1_ampere: false,
        battery_charging_above_1_ampere: false,
        apu_master_sw_pb_on: false,
        apu_start_sw_pb_on: false,
        apu_available: false,
        battery_push_button_is_auto: true,
        landing_gear_is_up_and_locked: false,
        airspeed: AirspeedBand::Below50Knots,
        on_ground: true,
    }
}

fn needing_charge() -> BatteryChargeLimiterArguments {
    let mut args = arguments();
    args.battery_potential_below_charging_threshold = true;
    args
}

fn closed_limiter() -> BatteryChargeLimiter {
    let mut bcl = BatteryChargeLimiter::new("TEST");
    bcl.update(&context(Duration::from_secs(0)), &needing_charge());
    bcl.update(&context(Duration::from_millis(225)), &needing_charge());
    assert!(bcl.should_close_contactor());
    bcl
}

#[test]
fn contactor_is_open_initially() {
    assert!(!BatteryChargeLimiter::new("TEST").should_close_contactor());
}

#[test]
fn contactor_not_closed_when_battery_voltage_above_charge_threshold() {
    let mut bcl = BatteryChargeLimiter::new("TEST");
    bcl.update(&context(Duration::from_secs(0)), &arguments());
    bcl.update(&context(Duration::from_secs(10)), &arguments());

    assert!(!bcl.should_close_contactor());
}

#[test]
fn contactor_not_closed_when_battery_bus_voltage_below_threshold() {
    let mut args = needing_charge();
    args.battery_bus_potential_above_charging_threshold = false;
    let mut bcl = BatteryChargeLimiter::new("TEST");
    bcl.update(&context(Duration::from_secs(0)), &args);
    bcl.update(&context(Duration::from_secs(10)), &args);

    assert!(!bcl.should_close_contactor());
}

#[test]
fn contactor_closes_after_the_charging_delay() {
    let mut bcl = BatteryChargeLimiter::new("TEST");
    bcl.update(&context(Duration::from_secs(0)), &needing_charge());
    bcl.update(&context(Duration::from_millis(224)), &needing_charge());
    assert!(!bcl.should_close_contactor());

    bcl.update(&context(Duration::from_millis(1)), &needing_charge());
    assert!(bcl.should_close_contactor());
}

#[test]
fn contactor_closed_when_apu_master_sw_pb_is_turned_on() {
    let mut args = arguments();
    args.apu_master_sw_pb_on = true;
    let mut bcl = BatteryChargeLimiter::new("TEST");
    bcl.update(&context(Duration::from_secs(0)), &args);

    assert!(bcl.should_close_contactor());
}

#[test]
fn contactor_closed_on_ground_at_low_speed_without_ac_power() {
    let mut args = arguments();
    args.both_ac_buses_unpowered = true;
    let mut bcl = BatteryChargeLimiter::new("TEST");
    bcl.update(&context(Duration::from_secs(0)), &args);

    assert!(bcl.should_close_contactor());
}

#[test]
fn contactor_opens_once_charging_complete_on_the_ground() {
    let mut bcl = closed_limiter();
    bcl.update(&context(Duration::from_secs(9)), &arguments());
    assert!(bcl.should_close_contactor());

    bcl.update(&context(Duration::from_secs(1)), &arguments());
    assert!(!bcl.should_close_contactor());
}

#[test]
fn contactor_stays_closed_longer_after_an_apu_start() {
    let mut bcl = closed_limiter();
    let mut starting = arguments();
    starting.apu_start_sw_pb_on = true;
    bcl.update(&context(Duration::from_secs(0)), &starting);
    bcl.update(&context(Duration::from_secs(600)), &arguments());
    assert!(bcl.should_close_contactor());

    bcl.update(&context(Duration::from_secs(1200)), &arguments());
    assert!(!bcl.should_close_contactor());
}

#[test]
fn turning_off_the_battery_while_the_contactor_is_closed_opens_the_contactor() {
    let mut bcl = closed_limiter();
    let mut off = arguments();
    off.battery_push_button_is_auto = false;
    bcl.update(&context(Duration::from_secs(0)), &off);

    assert!(!bcl.should_close_contactor());
}

#[test]
fn contactor_doesnt_close_while_the_battery_is_off() {
    let mut args = needing_charge();
    args.battery_push_button_is_auto = false;
    args.apu_master_sw_pb_on = true;
    let mut bcl = BatteryChargeLimiter::new("TEST");
    bcl.update(&context(Duration::from_secs(0)), &args);
    bcl.update(&context(Duration::from_secs(10)), &args);

    assert!(!bcl.should_close_contactor());
}

fn discharging() -> BatteryChargeLimiterArguments {
    let mut args = arguments();
    args.both_ac_buses_unpowered = true;
    args.battery_bus_potential_above_charging_threshold = false;
    args.battery_potential_below_discharge_protection_threshold = true;
    args.battery_discharging_above_1_ampere = true;
    args
}

#[test]
fn complete_discharge_protection_ensures_the_battery_doesnt_fully_discharge_on_the_ground() {
    let mut bcl = closed_limiter();
    bcl.update(&context(Duration::from_secs(0)), &discharging());
    bcl.update(&context(Duration::from_secs(15)), &discharging());

    assert!(!bcl.should_close_contactor());

    bcl.update(&context(Duration::from_secs(1)), &discharging());
    assert!(!bcl.should_close_contactor());
}

#[test]
fn complete_discharge_protection_doesnt_trigger_too_early() {
    let mut bcl = closed_limiter();
    bcl.update(&context(Duration::from_secs(0)), &discharging());
    bcl.update(&context(Duration::from_millis(14_999)), &discharging());

    assert!(bcl.should_close_contactor());
}

#[test]
fn complete_discharge_protection_does_not_activate_in_flight() {
    let mut in_flight = discharging();
    in_flight.on_ground = false;
    let mut bcl = closed_limiter();
    bcl.update(&context(Duration::from_secs(0)), &in_flight);
    bcl.update(&context(Duration::from_secs(60)), &in_flight);

    assert!(bcl.should_close_contactor());
}

#[test]
fn complete_discharge_protection_is_reset_by_cycling_the_battery_push_button() {
    let mut bcl = closed_limiter();
    bcl.update(&context(Duration::from_secs(0)), &discharging());
    bcl.update(&context(Duration::from_secs(15)), &discharging());
    assert!(!bcl.should_close_contactor());

    let mut off = discharging();
    off.battery_push_button_is_auto = false;
    bcl.update(&context(Duration::from_secs(0)), &off);
    bcl.update(&context(Duration::from_secs(0)), &discharging());

    assert!(bcl.should_close_contactor());
}

#[test]
fn contactor_opens_when_gear_goes_down_in_emergency_configuration() {
    let mut bcl = closed_limiter();
    let mut emergency = arguments();
    emergency.both_ac_buses_unpowered = true;
    emergency.airspeed = AirspeedBand::Above100Knots;
    emergency.landing_gear_is_up_and_locked = false;
    emergency.on_ground = false;
    bcl.update(&context(Duration::from_secs(0)), &emergency);

    assert!(!bcl.should_close_contactor());
}

#[test]
fn arrow_shown_after_charging_above_1_ampere_for_15_seconds() {
    let mut charging = arguments();
    charging.battery_charging_above_1_ampere = true;
    let mut bcl = BatteryChargeLimiter::new("TEST");
    bcl.update(&context(Duration::from_secs(0)), &charging);
    bcl.update(&context(Duration::from_secs(15)), &charging);

    let mut writer = SimulatorWriter::new();
    bcl.write(&mut writer);

    assert_eq!(writer.last_value_of("ELEC_CONTACTOR_TEST_SHOW_ARROW_WHEN_CLOSED"), Some(true));
}

#[test]
fn arrow_not_shown_before_15_seconds() {
    let mut discharging_arguments = arguments();
    discharging_arguments.battery_discharging_above_1_ampere = true;
    let mut bcl = BatteryChargeLimiter::new("TEST");
    bcl.update(&context(Duration::from_secs(0)), &discharging_arguments);
    bcl.update(&context(Duration::from_secs(14)), &discharging_arguments);

    let mut writer = SimulatorWriter::new();
    bcl.write(&mut writer);

    assert_eq!(writer.last_value_of("ELEC_CONTACTOR_TEST_SHOW_ARROW_WHEN_CLOSED"), Some(false));
}
