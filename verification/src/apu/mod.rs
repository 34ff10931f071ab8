//! The auxiliary power unit's overhead panels and the switches around it
//! that decide from what the APU reports.

use vstd::prelude::*;
use crate::overhead::{FirePushButton, OnOffAvailablePushButton, OnOffFaultPushButton};
use crate::electrical::{OriginWithRawPotentialPair, Potential, PotentialOrigin, PotentialSource};
use crate::simulation::{SimulatorReader, SimulatorWriter};

pub mod air_intake_flap;

verus! {

/// The APU MASTER SW and START push buttons.
pub struct AuxiliaryPowerUnitOverheadPanel {
    pub master: OnOffFaultPushButton,
    pub start: OnOffAvailablePushButton,
}

impl AuxiliaryPowerUnitOverheadPanel {
    /// Both buttons off.
    pub fn new() -> (panel: AuxiliaryPowerUnitOverheadPanel)
        ensures
            !panel.master.on(),
            !panel.master.fault(),
            !panel.start.on(),
            !panel.start.available(),
            panel.master.on_id() == "OVHD_"@ + "APU_MASTER_SW"@ + "_PB_IS_ON"@,
            panel.master.fault_id() == "OVHD_"@ + "APU_MASTER_SW"@ + "_PB_HAS_FAULT"@,
            panel.start.on_id() == "OVHD_"@ + "APU_START"@ + "_PB_IS_ON"@,
            panel.start.available_id() == "OVHD_"@ + "APU_START"@ + "_PB_IS_AVAILABLE"@,
    {
        AuxiliaryPowerUnitOverheadPanel {
            master: OnOffFaultPushButton::new_off("APU_MASTER_SW"),
            start: OnOffAvailablePushButton::new_off("APU_START"),
        }
    }

    /// Shows the APU's availability on the START button, which pops out once
    /// the APU is available, has a fault, or was not started with the master
    /// switch off; shows a fault on the MASTER SW button.
    pub fn update_after_apu(&mut self, apu_is_available: bool, apu_has_fault: bool, apu_is_starting: bool)
        ensures
            final(self).start.available() == apu_is_available,
            final(self).start.on() == (old(self).start.on() && !(apu_is_available || apu_has_fault
                || (!old(self).master.on() && !apu_is_starting))),
            final(self).master.fault() == apu_has_fault,
            final(self).master.on() == old(self).master.on(),
            final(self).master.on_id() == old(self).master.on_id(),
            final(self).master.fault_id() == old(self).master.fault_id(),
            final(self).start.on_id() == old(self).start.on_id(),
            final(self).start.available_id() == old(self).start.available_id(),
    {
        self.start.set_available(apu_is_available);
        if self.start_is_on() && (apu_is_available || apu_has_fault || (!self.master_is_on() && !apu_is_starting)) {
            self.start.turn_off();
        }
        self.master.set_fault(apu_has_fault);
    }

    pub fn master_is_on(&self) -> (on: bool)
        ensures
            on == self.master.on(),
    {
        self.master.is_on()
    }

    pub fn start_is_on(&self) -> (on: bool)
        ensures
            on == self.start.on(),
    {
        self.start.is_on()
    }

    /// Writes both buttons.
    pub fn write(&self, writer: &mut SimulatorWriter)
        ensures
            final(writer)@ == old(writer)@.push((self.master.on_id(), self.master.on())).push(
                (self.master.fault_id(), self.master.fault()),
            ).push((self.start.on_id(), self.start.on())).push(
                (self.start.available_id(), self.start.available()),
            ),
    {
        self.master.write(writer);
        self.start.write(writer);
    }

    /// Reads both buttons.
    pub fn read(&mut self, reader: &mut SimulatorReader)
        ensures
            final(self).master.on() == crate::simulation::value_of(old(reader)@, old(self).master.on_id()),
            final(self).master.fault() == crate::simulation::value_of(old(reader)@, old(self).master.fault_id()),
            final(self).start.on() == crate::simulation::value_of(old(reader)@, old(self).start.on_id()),
            final(self).start.available() == crate::simulation::value_of(old(reader)@, old(self).start.available_id()),
            final(self).master.on_id() == old(self).master.on_id(),
            final(self).master.fault_id() == old(self).master.fault_id(),
            final(self).start.on_id() == old(self).start.on_id(),
            final(self).start.available_id() == old(self).start.available_id(),
            final(reader)@ == old(reader)@,
    {
        self.master.read(reader);
        self.start.read(reader);
    }
}

/// The APU FIRE push button.
pub struct AuxiliaryPowerUnitFireOverheadPanel {
    apu_fire_button: FirePushButton,
}

impl AuxiliaryPowerUnitFireOverheadPanel {
    pub closed spec fn released(&self) -> bool {
        self.apu_fire_button.released()
    }

    pub closed spec fn released_id(&self) -> Seq<char> {
        self.apu_fire_button.released_id()
    }

    pub fn new() -> (panel: AuxiliaryPowerUnitFireOverheadPanel)
        ensures
            !panel.released(),
            panel.released_id() == "FIRE_BUTTON_"@ + "APU"@,
    {
        AuxiliaryPowerUnitFireOverheadPanel { apu_fire_button: FirePushButton::new("APU") }
    }

    pub fn fire_button_is_released(&self) -> (released: bool)
        ensures
            released == self.released(),
    {
        self.apu_fire_button.is_released()
    }

    pub fn write(&self, writer: &mut SimulatorWriter)
        ensures
            final(writer)@ == old(writer)@.push((self.released_id(), self.released())),
    {
        self.apu_fire_button.write(writer);
    }

    /// Reads the button; once released it stays released.
    pub fn read(&mut self, reader: &mut SimulatorReader)
        ensures
            final(self).released() == (old(self).released() || crate::simulation::value_of(
                old(reader)@,
                old(self).released_id(),
            )),
            final(self).released_id() == old(self).released_id(),
            final(reader)@ == old(reader)@,
    {
        self.apu_fire_button.read(reader);
    }
}

/// The pressure switch between the fuel valve and the APU. Without a fuel
/// system model it reports pressure while fuel remains.
pub struct FuelPressureSwitch {
    has_fuel_remaining: bool,
}

impl FuelPressureSwitch {
    pub closed spec fn pressurised(&self) -> bool {
        self.has_fuel_remaining
    }

    pub fn new() -> (switch: FuelPressureSwitch)
        ensures
            !switch.pressurised(),
    {
        FuelPressureSwitch { has_fuel_remaining: false }
    }

    pub fn update(&mut self, has_fuel_remaining: bool)
        ensures
            final(self).pressurised() == has_fuel_remaining,
    {
        self.has_fuel_remaining = has_fuel_remaining;
    }

    pub fn has_pressure(&self) -> (pressure: bool)
        ensures
            pressure == self.pressurised(),
    {
        self.has_fuel_remaining
    }
}

/// The APU start contactor, closed while the APU's control box wants the
/// starter motor powered. Closed, it passes the battery potential on, with
/// battery 10 as its origin.
pub struct ApuStartContactor<R> {
    closed: bool,
    battery_potential: R,
}

impl<R> ApuStartContactor<R> {
    pub closed spec fn contact_closed(&self) -> bool {
        self.closed
    }

    /// The raw potential passed on while closed.
    pub closed spec fn raw_potential(&self) -> R {
        self.battery_potential
    }
}

impl<R: Copy> ApuStartContactor<R> {
    /// An open contactor passing on `battery_potential` once closed.
    pub fn new(battery_potential: R) -> (contactor: ApuStartContactor<R>)
        ensures
            !contactor.contact_closed(),
            contactor.raw_potential() == battery_potential,
    {
        ApuStartContactor { closed: false, battery_potential }
    }

    /// Closes the contactor when the control box says it should close, and
    /// opens it otherwise.
    pub fn update(&mut self, should_close_start_contactor: bool)
        ensures
            final(self).contact_closed() == should_close_start_contactor,
            final(self).raw_potential() == old(self).raw_potential(),
    {
        self.closed = should_close_start_contactor;
    }
}

impl<R: Copy> PotentialSource<R> for ApuStartContactor<R> {
    open spec fn output_pairs(&self) -> Seq<OriginWithRawPotentialPair<R>> {
        if self.contact_closed() {
            seq![OriginWithRawPotentialPair::pair_of(PotentialOrigin::Battery(10), self.raw_potential())]
        } else {
            Seq::empty()
        }
    }

    fn output(&self) -> (potential: Potential<R>) {
        if self.closed {
            Potential::single(PotentialOrigin::Battery(10), self.battery_potential)
        } else {
            Potential::none()
        }
    }
}

} // verus!
