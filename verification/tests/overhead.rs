//! Push buttons of the overhead panel.

use airbus_systems::overhead::{
    AutoOffFaultPushButton, AutoOffPushButton, FaultReleasePushButton, FirePushButton,
    NormalAltnFaultPushButton, NormalAltnPushButton, OnOffAvailablePushButton,
    OnOffFaultPushButton, OnOffPushButton,
};
use airbus_systems::simulation::{SimulatorReader, SimulatorWriter};

#[test]
fn new_on_push_button_is_on() {
    assert!(OnOffPushButton::new_on().is_on());
}

#[test]
fn new_off_push_button_is_off() {
    assert!(OnOffPushButton::new_off().is_off());
}

#[test]
fn new_normal_push_button_is_normal() {
    assert!(NormalAltnPushButton::new_normal().is_normal());
}

#[test]
fn new_altn_push_button_is_altn() {
    assert!(NormalAltnPushButton::new_altn().is_altn());
}

#[test]
fn new_auto_push_button_is_auto() {
    assert!(AutoOffPushButton::new_auto().is_auto());
}

#[test]
fn mod_new_off_push_button_is_off() {
    assert!(AutoOffPushButton::new_off().is_off());
}

#[test]
fn mod_new_on_push_button_is_on() {
    assert!(OnOffFaultPushButton::new_on("BUTTON").is_on());
}

#[test]
fn on_off_fault_new_off_push_button_is_off() {
    assert!(OnOffFaultPushButton::new_off("BUTTON").is_off());
}

#[test]
fn writes_its_state() {
    let button = OnOffFaultPushButton::new_on("ELEC_GEN_1");
    let mut writer = SimulatorWriter::new();

    button.write(&mut writer);

    assert!(writer.contains_key("OVHD_ELEC_GEN_1_PB_IS_ON"));
    assert!(writer.contains_key("OVHD_ELEC_GEN_1_PB_HAS_FAULT"));
}

#[test]
fn on_off_available_new_on_push_button_is_on() {
    assert!(OnOffAvailablePushButton::new_on("BUTTON").is_on());
}

#[test]
fn on_off_available_new_off_push_button_is_off() {
    assert!(OnOffAvailablePushButton::new_off("BUTTON").is_off());
}

#[test]
fn mod_writes_its_state() {
    let button = OnOffAvailablePushButton::new_on("ELEC_EXT_PWR");
    let mut writer = SimulatorWriter::new();

    button.write(&mut writer);

    assert!(writer.contains_key("OVHD_ELEC_EXT_PWR_PB_IS_ON"));
    assert!(writer.contains_key("OVHD_ELEC_EXT_PWR_PB_IS_AVAILABLE"));
}

#[test]
fn mod_new_normal_push_button_is_normal() {
    assert!(NormalAltnFaultPushButton::new_normal("TEST").is_normal());
}

#[test]
fn mod_new_altn_push_button_is_altn() {
    assert!(NormalAltnFaultPushButton::new_altn("TEST").is_altn());
}

#[test]
fn normal_altn_fault_writes_its_state() {
    let button = NormalAltnFaultPushButton::new_normal("ELEC_AC_ESS_FEED");
    let mut writer = SimulatorWriter::new();

    button.write(&mut writer);

    assert!(writer.contains_key("OVHD_ELEC_AC_ESS_FEED_PB_IS_NORMAL"));
    assert!(writer.contains_key("OVHD_ELEC_AC_ESS_FEED_PB_HAS_FAULT"));
}

#[test]
fn mod_new_auto_push_button_is_auto() {
    assert!(AutoOffFaultPushButton::new_auto("TEST").is_auto());
}

#[test]
fn auto_off_fault_new_off_push_button_is_off() {
    assert!(AutoOffFaultPushButton::new_off("TEST").is_off());
}

#[test]
fn auto_off_fault_writes_its_state() {
    let button = AutoOffFaultPushButton::new_auto("ELEC_BUS_TIE");
    let mut writer = SimulatorWriter::new();

    button.write(&mut writer);

    assert!(writer.contains_key("OVHD_ELEC_BUS_TIE_PB_IS_AUTO"));
    assert!(writer.contains_key("OVHD_ELEC_BUS_TIE_PB_HAS_FAULT"));
}

#[test]
fn new_in_is_not_released() {
    let pb = FaultReleasePushButton::new_in("TEST");

    assert_eq!(pb.is_released(), false);
}

#[test]
fn new_released_is_released() {
    let pb = FaultReleasePushButton::new_released("TEST");

    assert_eq!(pb.is_released(), true);
}

#[test]
fn when_set_as_released_is_released() {
    let mut pb = FaultReleasePushButton::new_in("TEST");
    pb.set_released(true);

    assert_eq!(pb.is_released(), true);
}

#[test]
fn once_released_stays_released() {
    let mut pb = FaultReleasePushButton::new_in("TEST");
    pb.set_released(true);
    pb.set_released(false);

    assert_eq!(pb.is_released(), true);
}

#[test]
fn fault_release_writes_its_state() {
    let button = FaultReleasePushButton::new_in("IDG_1");
    let mut writer = SimulatorWriter::new();

    button.write(&mut writer);

    assert!(writer.contains_key("OVHD_IDG_1_PB_IS_RELEASED"));
    assert!(writer.contains_key("OVHD_IDG_1_PB_HAS_FAULT"));
}

#[test]
fn new_fire_push_button_is_not_released() {
    let pb = FirePushButton::new("TEST");

    assert_eq!(pb.is_released(), false);
}

#[test]
fn mod_when_set_as_released_is_released() {
    let mut pb = FirePushButton::new("TEST");
    pb.set(true);

    assert_eq!(pb.is_released(), true);
}

#[test]
fn mod_once_released_stays_released() {
    let mut pb = FirePushButton::new("TEST");
    pb.set(true);
    pb.set(false);

    assert_eq!(pb.is_released(), true);
}

#[test]
fn fire_writes_its_state() {
    let button = FirePushButton::new("APU");
    let mut writer = SimulatorWriter::new();

    button.write(&mut writer);

    assert!(writer.contains_key("FIRE_BUTTON_APU"));
}

#[test]
fn written_values_are_the_button_states() {
    let mut button = OnOffFaultPushButton::new_off("ELEC_GEN_1");
    button.set_fault(true);
    let mut writer = SimulatorWriter::new();

    button.write(&mut writer);

    assert_eq!(writer.last_value_of("OVHD_ELEC_GEN_1_PB_IS_ON"), Some(false));
    assert_eq!(writer.last_value_of("OVHD_ELEC_GEN_1_PB_HAS_FAULT"), Some(true));
    assert_eq!(writer.len(), 2);
}

#[test]
fn reads_state_from_the_simulator() {
    let mut button = AutoOffFaultPushButton::new_auto("ELEC_BAT_10");
    let mut reader = SimulatorReader::new(vec![
        (String::from("OVHD_ELEC_BAT_10_PB_IS_AUTO"), false),
        (String::from("OVHD_ELEC_BAT_10_PB_HAS_FAULT"), true),
    ]);

    button.read(&mut reader);

    assert!(button.is_off());
    assert!(button.has_fault());
}

#[test]
fn a_fault_release_button_read_as_in_after_release_stays_released() {
    let mut button = FaultReleasePushButton::new_in("IDG_1");
    let mut released = SimulatorReader::new(vec![(String::from("OVHD_IDG_1_PB_IS_RELEASED"), true)]);
    let mut pushed_in = SimulatorReader::new(vec![(String::from("OVHD_IDG_1_PB_IS_RELEASED"), false)]);

    button.read(&mut released);
    button.read(&mut pushed_in);

    assert!(button.is_released());
}

#[test]
fn an_on_off_push_button_shows_available_once_set() {
    let mut button = OnOffPushButton::new_off();
    assert!(!button.shows_available());

    button.set_available(true);

    assert!(button.shows_available());
    assert!(button.is_off());
}
