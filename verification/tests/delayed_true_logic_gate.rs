//! The logic gate that delays a true expression.

use airbus_systems::shared::{DelayedTrueLogicGate, UpdateContext};
use std::time::Duration;

fn update_context(delta: Duration) -> UpdateContext {
    UpdateContext::new(delta.as_nanos() as u64)
}

fn delay_logic_gate(delay: Duration) -> DelayedTrueLogicGate {
    DelayedTrueLogicGate::new(delay.as_nanos() as u64)
}

#[test]
fn when_the_expression_is_false_returns_false() {
    let mut gate = delay_logic_gate(Duration::from_millis(100));
    gate.update(&update_context(Duration::from_millis(0)), false);
    gate.update(&update_context(Duration::from_millis(1_000)), false);

    assert_eq!(gate.output(), false);
}

#[test]
fn when_the_expression_is_true_and_delay_hasnt_passed_returns_false() {
    let mut gate = delay_logic_gate(Duration::from_millis(10_000));
    gate.update(&update_context(Duration::from_millis(0)), false);
    gate.update(&update_context(Duration::from_millis(1_000)), false);

    assert_eq!(gate.output(), false);
}

#[test]
fn when_the_expression_is_true_and_delay_has_passed_returns_true() {
    let mut gate = delay_logic_gate(Duration::from_millis(100));
    gate.update(&update_context(Duration::from_millis(0)), true);
    gate.update(&update_context(Duration::from_millis(1_000)), true);

    assert_eq!(gate.output(), true);
}

#[test]
fn when_the_expression_is_true_and_becomes_false_before_delay_has_passed_returns_false_once_delay_passed(
) {
    let mut gate = delay_logic_gate(Duration::from_millis(1_000));
    gate.update(&update_context(Duration::new(0, 0)), true);
    gate.update(&update_context(Duration::from_millis(800)), true);
    gate.update(&update_context(Duration::from_millis(100)), false);
    gate.update(&update_context(Duration::from_millis(200)), false);

    assert_eq!(gate.output(), false);
}

#[test]
fn does_not_include_delta_at_the_moment_of_expression_becoming_true() {
    let mut gate = delay_logic_gate(Duration::from_millis(1_000));
    gate.update(&update_context(Duration::from_millis(900)), true);
    gate.update(&update_context(Duration::from_millis(200)), true);

    assert_eq!(gate.output(), false);
}

#[test]
fn output_is_true_exactly_when_true_for_the_delay() {
    let mut gate = delay_logic_gate(Duration::from_millis(1_000));
    gate.update(&update_context(Duration::from_millis(0)), true);
    gate.update(&update_context(Duration::from_millis(999)), true);
    assert_eq!(gate.output(), false);

    gate.update(&update_context(Duration::from_millis(1)), true);
    assert_eq!(gate.output(), true);
}

#[test]
fn a_true_output_turns_false_immediately_when_the_expression_does() {
    let mut gate = delay_logic_gate(Duration::from_millis(100));
    gate.update(&update_context(Duration::from_millis(0)), true);
    gate.update(&update_context(Duration::from_millis(500)), true);
    assert_eq!(gate.output(), true);

    gate.update(&update_context(Duration::from_millis(0)), false);
    assert_eq!(gate.output(), false);
}

#[test]
fn a_gate_without_delay_follows_the_expression() {
    let mut gate = delay_logic_gate(Duration::from_millis(0));
    gate.update(&update_context(Duration::from_millis(10)), true);

    assert_eq!(gate.output(), true);
}
