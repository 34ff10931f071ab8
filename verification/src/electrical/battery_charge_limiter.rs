//! The battery charge limiter (BCL): decides when a battery contactor closes
//! (to charge the battery, to get ready for an APU start, or when on the
//! ground with only batteries) and when it opens again (charging complete,
//! discharge protection, battery push button off, emergency configuration
//! with the gear down).

use vstd::prelude::*;
use crate::electrical::numbered_identifier;
use crate::shared::{gate_after, saturating_sum, AirspeedBand, DelayedTrueLogicGate, UpdateContext};
use crate::simulation::{identifier, SimulatorWriter};

verus! {

/// The delay before the contactor closes to charge the battery.
pub const BATTERY_CHARGING_CLOSE_DELAY_IN_NANOSECONDS: u64 = 225_000_000;
/// How long charging stays below 4 A on the ground, without an APU start,
/// before the contactor opens.
pub const BATTERY_CHARGING_OPEN_DELAY_ON_GROUND_IN_NANOSECONDS: u64 = 10_000_000_000;
/// How long charging stays below 4 A at or above 100 knots or after an APU
/// start before the contactor opens.
pub const BATTERY_CHARGING_OPEN_DELAY_100_KNOTS_OR_AFTER_APU_START_IN_NANOSECONDS: u64 = 1_800_000_000_000;
/// How long the battery stays below 23 V on the ground before the
/// contactor opens to protect the battery from complete discharge.
pub const BATTERY_DISCHARGE_PROTECTION_DELAY_IN_NANOSECONDS: u64 = 15_000_000_000;
/// How long the battery has to charge or discharge above 1 A before the
/// arrow between battery and battery bus is shown.
pub const CHARGE_DISCHARGE_ARROW_DISPLAYED_AFTER_IN_NANOSECONDS: u64 = 15_000_000_000;

/// What the battery charge limiter observes in one tick. The electrical
/// measurements are given as their comparisons with the limiter's thresholds.
#[derive(Clone, Copy, Debug)]
pub struct BatteryChargeLimiterArguments {
    pub both_ac_buses_unpowered: bool,
    /// The battery potential is below 26.5 V.
    pub battery_potential_below_charging_threshold: bool,
    /// The battery bus potential is above 27 V.
    pub battery_bus_potential_above_charging_threshold: bool,
    /// The battery potential is below 23 V.
    pub battery_potential_below_discharge_protection_threshold: bool,
    /// The battery current is below 4 A.
    pub battery_current_below_4_ampere: bool,
    /// The battery current is below -1 A (discharging).
    pub battery_discharging_above_1_ampere: bool,
    /// The battery current is above 1 A (charging).
    pub battery_charging_above_1_ampere: bool,
    pub apu_master_sw_pb_on: bool,
    pub apu_start_sw_pb_on: bool,
    pub apu_available: bool,
    pub battery_push_button_is_auto: bool,
    pub landing_gear_is_up_and_locked: bool,
    pub airspeed: AirspeedBand,
    pub on_ground: bool,
}

/// Emergency electrical configuration: both AC buses unpowered above 100 knots.
pub open spec fn is_emergency_elec_config(args: BatteryChargeLimiterArguments) -> bool {
    args.both_ac_buses_unpowered && args.airspeed.above_100_knots()
}

pub open spec fn in_emergency_elec_config_with_gear_down(args: BatteryChargeLimiterArguments) -> bool {
    is_emergency_elec_config(args) && !args.landing_gear_is_up_and_locked
}

pub open spec fn on_ground_at_low_speed_with_unpowered_ac_buses(args: BatteryChargeLimiterArguments) -> bool {
    args.both_ac_buses_unpowered && args.on_ground && args.airspeed.below_100_knots()
}

pub open spec fn awaiting_apu_start(args: BatteryChargeLimiterArguments) -> bool {
    args.apu_master_sw_pb_on && !args.apu_available
}

/// Whether the battery needs charging and the battery bus can charge it.
pub open spec fn charging_possible(args: BatteryChargeLimiterArguments) -> bool {
    args.battery_potential_below_charging_threshold && args.battery_bus_potential_above_charging_threshold
}

/// The duration after a tick: it grows while the condition holds and is
/// reset otherwise.
pub open spec fn accumulated(duration: u64, condition: bool, delta: u64) -> u64 {
    if condition {
        saturating_sum(duration, delta)
    } else {
        0
    }
}

/// What the limiter knows while the contactor is open or closed.
#[derive(Clone, Copy, Debug)]
pub enum BatteryContactorObserver {
    Open {
        begin_charging_cycle_delay: DelayedTrueLogicGate,
        open_due_to_discharge_protection: bool,
    },
    Closed {
        below_4_ampere_charging_duration: u64,
        below_23_volt_duration: u64,
        had_apu_start: bool,
    },
}

/// Whether a gate is a fresh charging delay gate.
pub open spec fn fresh_charging_delay(gate: DelayedTrueLogicGate) -> bool {
    &&& gate.delay_nanos() == BATTERY_CHARGING_CLOSE_DELAY_IN_NANOSECONDS
    &&& !gate.expression()
    &&& gate.true_for() == 0
}

/// The output of `gate` after a tick of `delta` with the given expression.
pub open spec fn gate_output_after(gate: DelayedTrueLogicGate, delta: u64, expression: bool) -> bool {
    expression && gate.delay_nanos() <= if gate.expression() && expression {
        saturating_sum(gate.true_for(), delta)
    } else {
        0
    }
}

/// The observer after a tick, as the limiter defines it: an open contactor
/// closes when the push button is in auto, the aircraft is not in the
/// emergency configuration with the gear down, discharge protection did not
/// open it, and either an APU start is awaited, the aircraft is on the
/// ground at low speed with unpowered AC buses, or the battery has needed
/// charging for the charging delay. A closed contactor opens to protect a
/// battery below 23 V for 15 s on the ground, or when the push button is
/// off, in the emergency configuration with the gear down, or when charging
/// has been complete long enough.
pub open spec fn observer_after(
    observer: BatteryContactorObserver,
    next: BatteryContactorObserver,
    delta: u64,
    args: BatteryChargeLimiterArguments,
) -> bool {
    match observer {
        BatteryContactorObserver::Open { begin_charging_cycle_delay: gate, open_due_to_discharge_protection: protected } => {
            let still_protected = protected && args.battery_push_button_is_auto;
            let closes = args.battery_push_button_is_auto && !in_emergency_elec_config_with_gear_down(args)
                && !still_protected && (awaiting_apu_start(args) || on_ground_at_low_speed_with_unpowered_ac_buses(args)
                || gate_output_after(gate, delta, charging_possible(args)));
            match next {
                BatteryContactorObserver::Open { begin_charging_cycle_delay: next_gate, open_due_to_discharge_protection: next_protected } => {
                    &&& !closes
                    &&& gate_after(gate, next_gate, delta, charging_possible(args))
                    &&& next_protected == still_protected
                },
                BatteryContactorObserver::Closed { below_4_ampere_charging_duration: b4, below_23_volt_duration: b23, had_apu_start: apu } => {
                    &&& closes
                    &&& b4 == 0 && b23 == 0 && !apu
                },
            }
        },
        BatteryContactorObserver::Closed { below_4_ampere_charging_duration: b4, below_23_volt_duration: b23, had_apu_start: apu } => {
            let apu_2 = apu || args.apu_start_sw_pb_on;
            let b4_2 = accumulated(b4, args.battery_current_below_4_ampere, delta);
            let b23_2 = accumulated(b23, args.battery_potential_below_discharge_protection_threshold, delta);
            let discharge_protection = args.on_ground && b23_2 >= BATTERY_DISCHARGE_PROTECTION_DELAY_IN_NANOSECONDS;
            let beyond_on_ground = !apu_2 && args.on_ground
                && b4_2 >= BATTERY_CHARGING_OPEN_DELAY_ON_GROUND_IN_NANOSECONDS;
            let beyond_in_flight = (!args.airspeed.below_100_knots() || apu_2)
                && b4_2 >= BATTERY_CHARGING_OPEN_DELAY_100_KNOTS_OR_AFTER_APU_START_IN_NANOSECONDS;
            let should_open = !args.battery_push_button_is_auto || in_emergency_elec_config_with_gear_down(args)
                || (!awaiting_apu_start(args) && !on_ground_at_low_speed_with_unpowered_ac_buses(args)
                && (beyond_on_ground || beyond_in_flight));
            match next {
                BatteryContactorObserver::Open { begin_charging_cycle_delay: next_gate, open_due_to_discharge_protection: protected } => {
                    &&& fresh_charging_delay(next_gate)
                    &&& (discharge_protection || should_open)
                    &&& protected == discharge_protection
                },
                BatteryContactorObserver::Closed { below_4_ampere_charging_duration: next_b4, below_23_volt_duration: next_b23, had_apu_start: next_apu } => {
                    &&& !discharge_protection && !should_open
                    &&& next_b4 == b4_2
                    &&& next_b23 == b23_2
                    &&& next_apu == apu_2
                },
            }
        },
    }
}

/// Decides whether a battery contactor should be closed. Whether the arrow
/// between battery and battery bus is shown while the contactor is closed
/// is written under `ELEC_CONTACTOR_<id>_SHOW_ARROW_WHEN_CLOSED`.
pub struct BatteryChargeLimiter {
    should_show_arrow_when_contactor_closed_id: String,
    discharging_above_1_ampere_beyond_time: DelayedTrueLogicGate,
    charging_above_1_ampere_beyond_time: DelayedTrueLogicGate,
    observer: BatteryContactorObserver,
}

impl BatteryChargeLimiter {
    pub closed spec fn state(&self) -> BatteryContactorObserver {
        self.observer
    }

    pub closed spec fn discharging_arrow_delay(&self) -> DelayedTrueLogicGate {
        self.discharging_above_1_ampere_beyond_time
    }

    pub closed spec fn charging_arrow_delay(&self) -> DelayedTrueLogicGate {
        self.charging_above_1_ampere_beyond_time
    }

    pub closed spec fn arrow_id(&self) -> Seq<char> {
        self.should_show_arrow_when_contactor_closed_id@
    }

    pub open spec fn closes_contactor(&self) -> bool {
        self.state() is Closed
    }

    pub open spec fn shows_arrow(&self) -> bool {
        self.discharging_arrow_delay().spec_output() || self.charging_arrow_delay().spec_output()
    }

    /// A new limiter keeps its contactor open.
    pub fn new(contactor_id: &str) -> (limiter: BatteryChargeLimiter)
        ensures
            limiter.state() matches BatteryContactorObserver::Open { begin_charging_cycle_delay: gate, open_due_to_discharge_protection: protected }
                && fresh_charging_delay(gate) && !protected,
            !limiter.discharging_arrow_delay().expression(),
            !limiter.charging_arrow_delay().expression(),
            limiter.discharging_arrow_delay().delay_nanos() == CHARGE_DISCHARGE_ARROW_DISPLAYED_AFTER_IN_NANOSECONDS,
            limiter.charging_arrow_delay().delay_nanos() == CHARGE_DISCHARGE_ARROW_DISPLAYED_AFTER_IN_NANOSECONDS,
            limiter.arrow_id() == "ELEC_CONTACTOR_"@ + contactor_id@ + "_SHOW_ARROW_WHEN_CLOSED"@,
    {
        BatteryChargeLimiter {
            should_show_arrow_when_contactor_closed_id: identifier(
                "ELEC_CONTACTOR_",
                contactor_id,
                "_SHOW_ARROW_WHEN_CLOSED",
            ),
            discharging_above_1_ampere_beyond_time: DelayedTrueLogicGate::new(
                CHARGE_DISCHARGE_ARROW_DISPLAYED_AFTER_IN_NANOSECONDS,
            ),
            charging_above_1_ampere_beyond_time: DelayedTrueLogicGate::new(
                CHARGE_DISCHARGE_ARROW_DISPLAYED_AFTER_IN_NANOSECONDS,
            ),
            observer: BatteryContactorObserver::Open {
                begin_charging_cycle_delay: DelayedTrueLogicGate::new(BATTERY_CHARGING_CLOSE_DELAY_IN_NANOSECONDS),
                open_due_to_discharge_protection: false,
            },
        }
    }

    pub fn update(&mut self, context: &UpdateContext, arguments: &BatteryChargeLimiterArguments)
        ensures
            observer_after(old(self).state(), final(self).state(), context.delta_nanos(), *arguments),
            gate_after(
                old(self).discharging_arrow_delay(),
                final(self).discharging_arrow_delay(),
                context.delta_nanos(),
                arguments.battery_discharging_above_1_ampere,
            ),
            gate_after(
                old(self).charging_arrow_delay(),
                final(self).charging_arrow_delay(),
                context.delta_nanos(),
                arguments.battery_charging_above_1_ampere,
            ),
            final(self).arrow_id() == old(self).arrow_id(),
            // Laws: with the push button off, or in the emergency configuration
            // with the gear down, the contactor is open after the tick.
            !arguments.battery_push_button_is_auto ==> !final(self).closes_contactor(),
            in_emergency_elec_config_with_gear_down(*arguments) ==> !final(self).closes_contactor(),
            // Once opened by discharge protection the contactor stays open until
            // the push button is switched off.
            (old(self).state() matches BatteryContactorObserver::Open { open_due_to_discharge_protection: true, .. })
                && arguments.battery_push_button_is_auto ==> (final(self).state() matches BatteryContactorObserver::Open {
                open_due_to_discharge_protection: true,
                ..
            }),
            // Discharge protection only acts on the ground.
            !arguments.on_ground && old(self).closes_contactor() ==> !(final(self).state() matches BatteryContactorObserver::Open {
                open_due_to_discharge_protection: true,
                ..
            }),
    {
        self.discharging_above_1_ampere_beyond_time.update(context, arguments.battery_discharging_above_1_ampere);
        self.charging_above_1_ampere_beyond_time.update(context, arguments.battery_charging_above_1_ampere);

        self.observer = Self::next_observer(self.observer, context, arguments);
    }

    fn next_observer(
        observer: BatteryContactorObserver,
        context: &UpdateContext,
        arguments: &BatteryChargeLimiterArguments,
    ) -> (next: BatteryContactorObserver)
        ensures
            observer_after(observer, next, context.delta_nanos(), *arguments),
    {
        let emergency_with_gear_down = arguments.both_ac_buses_unpowered
            && arguments.airspeed == AirspeedBand::Above100Knots && !arguments.landing_gear_is_up_and_locked;
        let below_100_knots = arguments.airspeed == AirspeedBand::Below50Knots
            || arguments.airspeed == AirspeedBand::From50To100Knots;
        let on_ground_at_low_speed = arguments.both_ac_buses_unpowered && arguments.on_ground && below_100_knots;
        let awaiting_apu = arguments.apu_master_sw_pb_on && !arguments.apu_available;
        match observer {
            BatteryContactorObserver::Open { begin_charging_cycle_delay, open_due_to_discharge_protection } => {
                let mut gate = begin_charging_cycle_delay;
                gate.update(
                    context,
                    arguments.battery_potential_below_charging_threshold
                        && arguments.battery_bus_potential_above_charging_threshold,
                );
                let protected = open_due_to_discharge_protection && arguments.battery_push_button_is_auto;
                let should_close = arguments.battery_push_button_is_auto && !emergency_with_gear_down && !protected
                    && (awaiting_apu || on_ground_at_low_speed || gate.output());
                if should_close {
                    BatteryContactorObserver::Closed {
                        below_4_ampere_charging_duration: 0,
                        below_23_volt_duration: 0,
                        had_apu_start: false,
                    }
                } else {
                    BatteryContactorObserver::Open { begin_charging_cycle_delay: gate, open_due_to_discharge_protection: protected }
                }
            },
            BatteryContactorObserver::Closed { below_4_ampere_charging_duration, below_23_volt_duration, had_apu_start } => {
                let had_apu_start = had_apu_start || arguments.apu_start_sw_pb_on;
                let below_4_ampere_charging_duration = if arguments.battery_current_below_4_ampere {
                    below_4_ampere_charging_duration.saturating_add(context.delta())
                } else {
                    0
                };
                let below_23_volt_duration = if arguments.battery_potential_below_discharge_protection_threshold {
                    below_23_volt_duration.saturating_add(context.delta())
                } else {
                    0
                };
                let discharge_protection = arguments.on_ground
                    && below_23_volt_duration >= BATTERY_DISCHARGE_PROTECTION_DELAY_IN_NANOSECONDS;
                let beyond_on_ground = !had_apu_start && arguments.on_ground
                    && below_4_ampere_charging_duration >= BATTERY_CHARGING_OPEN_DELAY_ON_GROUND_IN_NANOSECONDS;
                let beyond_in_flight = (!below_100_knots || had_apu_start)
                    && below_4_ampere_charging_duration
                    >= BATTERY_CHARGING_OPEN_DELAY_100_KNOTS_OR_AFTER_APU_START_IN_NANOSECONDS;
                let should_open = !arguments.battery_push_button_is_auto || emergency_with_gear_down || (!awaiting_apu
                    && !on_ground_at_low_speed && (beyond_on_ground || beyond_in_flight));
                if discharge_protection {
                    BatteryContactorObserver::Open {
                        begin_charging_cycle_delay: DelayedTrueLogicGate::new(BATTERY_CHARGING_CLOSE_DELAY_IN_NANOSECONDS),
                        open_due_to_discharge_protection: true,
                    }
                } else if should_open {
                    BatteryContactorObserver::Open {
                        begin_charging_cycle_delay: DelayedTrueLogicGate::new(BATTERY_CHARGING_CLOSE_DELAY_IN_NANOSECONDS),
                        open_due_to_discharge_protection: false,
                    }
                } else {
                    BatteryContactorObserver::Closed { below_4_ampere_charging_duration, below_23_volt_duration, had_apu_start }
                }
            },
        }
    }

    pub fn should_close_contactor(&self) -> (closed: bool)
        ensures
            closed == self.closes_contactor(),
    {
        match self.observer {
            BatteryContactorObserver::Open { .. } => false,
            BatteryContactorObserver::Closed { .. } => true,
        }
    }

    /// Writes whether the arrow between battery and battery bus is shown
    /// while the contactor is closed.
    pub fn write(&self, writer: &mut SimulatorWriter)
        ensures
            final(writer)@ == old(writer)@.push((self.arrow_id(), self.shows_arrow())),
    {
        let show = self.discharging_above_1_ampere_beyond_time.output()
            || self.charging_above_1_ampere_beyond_time.output();
        writer.write_bool(self.should_show_arrow_when_contactor_closed_id.as_str(), show);
    }
}

/// At or above 100 knots a closed contactor opens once charging has stayed
/// below 4 A for 30 minutes, whether or not an APU start happened, unless the
/// push button, the emergency configuration, an awaited APU start or the
/// battery-only ground case keeps it as it is.
pub proof fn law_charging_ends_after_30_minutes_at_or_above_100_knots(
    observer: BatteryContactorObserver,
    next: BatteryContactorObserver,
    delta: u64,
    args: BatteryChargeLimiterArguments,
)
    requires
        observer_after(observer, next, delta, args),
        args.battery_push_button_is_auto,
        !in_emergency_elec_config_with_gear_down(args),
        !awaiting_apu_start(args),
        !on_ground_at_low_speed_with_unpowered_ac_buses(args),
        !args.airspeed.below_100_knots(),
        args.battery_current_below_4_ampere,
        observer matches BatteryContactorObserver::Closed { below_4_ampere_charging_duration: b4, .. }
            && b4 + delta >= 1_800_000_000_000,
    ensures
        next is Open,
{
}

/// On the ground without an APU start a closed contactor opens once charging
/// has stayed below 4 A for 10 seconds, under the same conditions.
pub proof fn law_charging_ends_after_10_seconds_on_the_ground(
    observer: BatteryContactorObserver,
    next: BatteryContactorObserver,
    delta: u64,
    args: BatteryChargeLimiterArguments,
)
    requires
        observer_after(observer, next, delta, args),
        args.battery_push_button_is_auto,
        !in_emergency_elec_config_with_gear_down(args),
        !awaiting_apu_start(args),
        !on_ground_at_low_speed_with_unpowered_ac_buses(args),
        args.on_ground,
        !args.apu_start_sw_pb_on,
        args.battery_current_below_4_ampere,
        observer matches BatteryContactorObserver::Closed { below_4_ampere_charging_duration: b4, had_apu_start: apu, .. }
            && !apu && b4 + delta >= 10_000_000_000,
    ensures
        next is Open,
{
}

/// Below 100 knots, off the ground, without an APU start, charging below 4 A
/// never ends the cycle by time, however long it lasts.
pub proof fn law_charging_cycle_has_no_time_limit_in_slow_flight_without_apu_start(
    observer: BatteryContactorObserver,
    next: BatteryContactorObserver,
    delta: u64,
    args: BatteryChargeLimiterArguments,
)
    requires
        observer_after(observer, next, delta, args),
        args.battery_push_button_is_auto,
        !in_emergency_elec_config_with_gear_down(args),
        !args.on_ground,
        args.airspeed.below_100_knots(),
        !args.apu_start_sw_pb_on,
        observer matches BatteryContactorObserver::Closed { had_apu_start: apu, .. } && !apu,
    ensures
        next is Closed,
{
}

} // verus!
