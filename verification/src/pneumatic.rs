//! The parts of the pneumatic system that the APU depends on.

use vstd::prelude::*;
use crate::overhead::{OnOffFaultPushButton, OnOffPushButton, OnOffPushButtonState};
use crate::simulation::{value_of, SimulatorReader, SimulatorWriter};

verus! {

/// The pneumatic part of the overhead panel: the APU BLEED push button.
pub struct PneumaticOverheadPanel {
    apu_bleed: OnOffPushButton,
}

impl PneumaticOverheadPanel {
    pub closed spec fn apu_bleed_on(&self) -> bool {
        self.apu_bleed.state_of() == OnOffPushButtonState::On
    }

    /// The APU BLEED push button starts in the on position.
    pub fn new() -> (panel: PneumaticOverheadPanel)
        ensures
            panel.apu_bleed_on(),
    {
        PneumaticOverheadPanel { apu_bleed: OnOffPushButton::new_on() }
    }

    pub fn apu_bleed_is_on(&self) -> (on: bool)
        ensures
            on == self.apu_bleed_on(),
    {
        self.apu_bleed.is_on()
    }

    pub fn turn_apu_bleed_on(&mut self)
        ensures
            final(self).apu_bleed_on(),
    {
        self.apu_bleed.turn_on();
    }

    pub fn turn_apu_bleed_off(&mut self)
        ensures
            !final(self).apu_bleed_on(),
    {
        self.apu_bleed.turn_off();
    }
}

/// A bleed air valve, open or closed as its controller demands.
pub struct BleedAirValve {
    open: bool,
}

impl BleedAirValve {
    pub closed spec fn opened(&self) -> bool {
        self.open
    }

    /// A new valve is closed.
    pub fn new() -> (valve: BleedAirValve)
        ensures
            !valve.opened(),
    {
        BleedAirValve { open: false }
    }

    /// Opens the valve when the condition holds and closes it otherwise.
    pub fn open_when(&mut self, condition: bool)
        ensures
            final(self).opened() == condition,
    {
        self.open = condition;
    }

    pub fn is_open(&self) -> (open: bool)
        ensures
            open == self.opened(),
    {
        self.open
    }
}

/// The pneumatic part of the A320 overhead panel. Its APU BLEED push button is
/// exchanged with the simulator under `OVHD_PNEU_APU_BLEED_PB_IS_ON` and
/// `OVHD_PNEU_APU_BLEED_PB_HAS_FAULT`.
pub struct A320PneumaticOverheadPanel {
    apu_bleed: OnOffFaultPushButton,
}

impl A320PneumaticOverheadPanel {
    pub closed spec fn apu_bleed_on(&self) -> bool {
        self.apu_bleed.on()
    }

    pub closed spec fn apu_bleed_button(&self) -> OnOffFaultPushButton {
        self.apu_bleed
    }

    /// The APU BLEED push button starts in the on position.
    pub fn new() -> (panel: A320PneumaticOverheadPanel)
        ensures
            panel.apu_bleed_on(),
            !panel.apu_bleed_button().fault(),
            panel.apu_bleed_button().on_id() == "OVHD_"@ + "PNEU_APU_BLEED"@ + "_PB_IS_ON"@,
            panel.apu_bleed_button().fault_id() == "OVHD_"@ + "PNEU_APU_BLEED"@
                + "_PB_HAS_FAULT"@,
    {
        A320PneumaticOverheadPanel { apu_bleed: OnOffFaultPushButton::new_on("PNEU_APU_BLEED") }
    }

    pub fn apu_bleed_is_on(&self) -> (on: bool)
        ensures
            on == self.apu_bleed_on(),
    {
        self.apu_bleed.is_on()
    }

    pub fn turn_apu_bleed_on(&mut self)
        ensures
            final(self).apu_bleed_on(),
            final(self).apu_bleed_button().fault() == old(self).apu_bleed_button().fault(),
            final(self).apu_bleed_button().on_id() == old(self).apu_bleed_button().on_id(),
            final(self).apu_bleed_button().fault_id() == old(self).apu_bleed_button().fault_id(),
    {
        self.apu_bleed.push_on();
    }

    pub fn turn_apu_bleed_off(&mut self)
        ensures
            !final(self).apu_bleed_on(),
            final(self).apu_bleed_button().fault() == old(self).apu_bleed_button().fault(),
            final(self).apu_bleed_button().on_id() == old(self).apu_bleed_button().on_id(),
            final(self).apu_bleed_button().fault_id() == old(self).apu_bleed_button().fault_id(),
    {
        self.apu_bleed.push_off();
    }

    /// Writes the state of the APU BLEED push button.
    pub fn write(&self, writer: &mut SimulatorWriter)
        ensures
            final(writer)@ == old(writer)@.push(
                (self.apu_bleed_button().on_id(), self.apu_bleed_button().on()),
            ).push((self.apu_bleed_button().fault_id(), self.apu_bleed_button().fault())),
    {
        self.apu_bleed.write(writer);
    }

    /// Reads the state of the APU BLEED push button.
    pub fn read(&mut self, reader: &mut SimulatorReader)
        ensures
            final(self).apu_bleed_on() == value_of(old(reader)@, old(self).apu_bleed_button().on_id()),
            final(self).apu_bleed_button().fault() == value_of(old(reader)@, old(self).apu_bleed_button().fault_id()),
            final(self).apu_bleed_button().on_id() == old(self).apu_bleed_button().on_id(),
            final(self).apu_bleed_button().fault_id() == old(self).apu_bleed_button().fault_id(),
            final(reader)@ == old(reader)@,
    {
        self.apu_bleed.read(reader);
    }
}

} // verus!
