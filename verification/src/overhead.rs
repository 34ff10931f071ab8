//! Push buttons of the overhead panel.

use vstd::prelude::*;
use crate::simulation::{identifier, value_of, SimulatorReader, SimulatorWriter};

verus! {

/// Position of a push button that is either on or off.
#[derive(PartialEq, Eq, Structural, Clone, Copy, Debug)]
pub enum OnOffPushButtonState {
    On,
    Off,
}

/// A push button that is on or off and can show that its system is available.
pub struct OnOffPushButton {
    state: OnOffPushButtonState,
    fault: bool,
    available: bool,
}

impl OnOffPushButton {
    pub closed spec fn state_of(&self) -> OnOffPushButtonState {
        self.state
    }

    pub closed spec fn available_of(&self) -> bool {
        self.available
    }

    pub fn new_on() -> (button: OnOffPushButton)
        ensures
            button.state_of() == OnOffPushButtonState::On,
            !button.available_of(),
    {
        OnOffPushButton { state: OnOffPushButtonState::On, fault: false, available: false }
    }

    pub fn new_off() -> (button: OnOffPushButton)
        ensures
            button.state_of() == OnOffPushButtonState::Off,
            !button.available_of(),
    {
        OnOffPushButton { state: OnOffPushButtonState::Off, fault: false, available: false }
    }

    pub fn turn_on(&mut self)
        ensures
            final(self).state_of() == OnOffPushButtonState::On,
            final(self).available_of() == old(self).available_of(),
    {
        self.state = OnOffPushButtonState::On;
    }

    pub fn turn_off(&mut self)
        ensures
            final(self).state_of() == OnOffPushButtonState::Off,
            final(self).available_of() == old(self).available_of(),
    {
        self.state = OnOffPushButtonState::Off;
    }

    pub fn set_available(&mut self, available: bool)
        ensures
            final(self).available_of() == available,
            final(self).state_of() == old(self).state_of(),
    {
        self.available = available;
    }

    pub fn shows_available(&self) -> (available: bool)
        ensures
            available == self.available_of(),
    {
        self.available
    }

    pub fn is_on(&self) -> (on: bool)
        ensures
            on == (self.state_of() == OnOffPushButtonState::On),
    {
        match self.state {
            OnOffPushButtonState::On => true,
            OnOffPushButtonState::Off => false,
        }
    }

    pub fn is_off(&self) -> (off: bool)
        ensures
            off == (self.state_of() == OnOffPushButtonState::Off),
    {
        match self.state {
            OnOffPushButtonState::On => false,
            OnOffPushButtonState::Off => true,
        }
    }
}

/// Position of a push button that selects the normal or the alternate mode.
#[derive(PartialEq, Eq, Structural, Clone, Copy, Debug)]
pub enum NormalAltnPushButtonState {
    Normal,
    Altn,
}

/// A push button that selects the normal or the alternate mode of a system.
pub struct NormalAltnPushButton {
    state: NormalAltnPushButtonState,
    fault: bool,
}

impl NormalAltnPushButton {
    pub closed spec fn state_of(&self) -> NormalAltnPushButtonState {
        self.state
    }

    pub fn new_normal() -> (button: NormalAltnPushButton)
        ensures
            button.state_of() == NormalAltnPushButtonState::Normal,
    {
        NormalAltnPushButton { state: NormalAltnPushButtonState::Normal, fault: false }
    }

    pub fn new_altn() -> (button: NormalAltnPushButton)
        ensures
            button.state_of() == NormalAltnPushButtonState::Altn,
    {
        NormalAltnPushButton { state: NormalAltnPushButtonState::Altn, fault: false }
    }

    pub fn push_altn(&mut self)
        ensures
            final(self).state_of() == NormalAltnPushButtonState::Altn,
    {
        self.state = NormalAltnPushButtonState::Altn;
    }

    pub fn is_normal(&self) -> (normal: bool)
        ensures
            normal == (self.state_of() == NormalAltnPushButtonState::Normal),
    {
        match self.state {
            NormalAltnPushButtonState::Normal => true,
            NormalAltnPushButtonState::Altn => false,
        }
    }

    pub fn is_altn(&self) -> (altn: bool)
        ensures
            altn == (self.state_of() == NormalAltnPushButtonState::Altn),
    {
        match self.state {
            NormalAltnPushButtonState::Normal => false,
            NormalAltnPushButtonState::Altn => true,
        }
    }
}

/// Position of a push button that leaves a system in automatic mode or turns it off.
#[derive(PartialEq, Eq, Structural, Clone, Copy, Debug)]
pub enum AutoOffPushButtonState {
    Auto,
    Off,
}

/// A push button that leaves a system in automatic mode or turns it off.
pub struct AutoOffPushButton {
    state: AutoOffPushButtonState,
    fault: bool,
}

impl AutoOffPushButton {
    pub closed spec fn state_of(&self) -> AutoOffPushButtonState {
        self.state
    }

    pub fn new_auto() -> (button: AutoOffPushButton)
        ensures
            button.state_of() == AutoOffPushButtonState::Auto,
    {
        AutoOffPushButton { state: AutoOffPushButtonState::Auto, fault: false }
    }

    pub fn new_off() -> (button: AutoOffPushButton)
        ensures
            button.state_of() == AutoOffPushButtonState::Off,
    {
        AutoOffPushButton { state: AutoOffPushButtonState::Off, fault: false }
    }

    pub fn push_off(&mut self)
        ensures
            final(self).state_of() == AutoOffPushButtonState::Off,
    {
        self.state = AutoOffPushButtonState::Off;
    }

    pub fn is_auto(&self) -> (auto: bool)
        ensures
            auto == (self.state_of() == AutoOffPushButtonState::Auto),
    {
        match self.state {
            AutoOffPushButtonState::Auto => true,
            AutoOffPushButtonState::Off => false,
        }
    }

    pub fn is_off(&self) -> (off: bool)
        ensures
            off == (self.state_of() == AutoOffPushButtonState::Off),
    {
        match self.state {
            AutoOffPushButtonState::Auto => false,
            AutoOffPushButtonState::Off => true,
        }
    }
}

/// A push button that is on or off and shows a fault light. Its state is
/// exchanged with the simulator under `OVHD_<name>_PB_IS_ON` and
/// `OVHD_<name>_PB_HAS_FAULT`.
pub struct OnOffFaultPushButton {
    is_on_id: String,
    has_fault_id: String,
    is_on: bool,
    has_fault: bool,
}

impl OnOffFaultPushButton {
    pub closed spec fn on(&self) -> bool {
        self.is_on
    }

    pub closed spec fn fault(&self) -> bool {
        self.has_fault
    }

    pub closed spec fn on_id(&self) -> Seq<char> {
        self.is_on_id@
    }

    pub closed spec fn fault_id(&self) -> Seq<char> {
        self.has_fault_id@
    }

    pub fn new_on(name: &str) -> (button: OnOffFaultPushButton)
        ensures
            button.on(),
            !button.fault(),
            button.on_id() == "OVHD_"@ + name@ + "_PB_IS_ON"@,
            button.fault_id() == "OVHD_"@ + name@ + "_PB_HAS_FAULT"@,
    {
        Self::new(name, true)
    }

    pub fn new_off(name: &str) -> (button: OnOffFaultPushButton)
        ensures
            !button.on(),
            !button.fault(),
            button.on_id() == "OVHD_"@ + name@ + "_PB_IS_ON"@,
            button.fault_id() == "OVHD_"@ + name@ + "_PB_HAS_FAULT"@,
    {
        Self::new(name, false)
    }

    fn new(name: &str, is_on: bool) -> (button: OnOffFaultPushButton)
        ensures
            button.on() == is_on,
            !button.fault(),
            button.on_id() == "OVHD_"@ + name@ + "_PB_IS_ON"@,
            button.fault_id() == "OVHD_"@ + name@ + "_PB_HAS_FAULT"@,
    {
        OnOffFaultPushButton {
            is_on_id: identifier("OVHD_", name, "_PB_IS_ON"),
            has_fault_id: identifier("OVHD_", name, "_PB_HAS_FAULT"),
            is_on,
            has_fault: false,
        }
    }

    pub fn set_on(&mut self, value: bool)
        ensures
            final(self).on() == value,
            final(self).fault() == old(self).fault(),
            final(self).on_id() == old(self).on_id(),
            final(self).fault_id() == old(self).fault_id(),
    {
        self.is_on = value;
    }

    pub fn set_fault(&mut self, has_fault: bool)
        ensures
            final(self).fault() == has_fault,
            final(self).on() == old(self).on(),
            final(self).on_id() == old(self).on_id(),
            final(self).fault_id() == old(self).fault_id(),
    {
        self.has_fault = has_fault;
    }

    pub fn push_on(&mut self)
        ensures
            final(self).on(),
            final(self).fault() == old(self).fault(),
            final(self).on_id() == old(self).on_id(),
            final(self).fault_id() == old(self).fault_id(),
    {
        self.is_on = true;
    }

    pub fn push_off(&mut self)
        ensures
            !final(self).on(),
            final(self).fault() == old(self).fault(),
            final(self).on_id() == old(self).on_id(),
            final(self).fault_id() == old(self).fault_id(),
    {
        self.is_on = false;
    }

    pub fn has_fault(&self) -> (fault: bool)
        ensures
            fault == self.fault(),
    {
        self.has_fault
    }

    pub fn is_on(&self) -> (on: bool)
        ensures
            on == self.on(),
    {
        self.is_on
    }

    pub fn is_off(&self) -> (off: bool)
        ensures
            off == !self.on(),
    {
        !self.is_on
    }

    /// Writes the button's position and fault light.
    pub fn write(&self, writer: &mut SimulatorWriter)
        ensures
            final(writer)@ == old(writer)@.push((self.on_id(), self.on())).push(
                (self.fault_id(), self.fault()),
            ),
    {
        writer.write_bool(self.is_on_id.as_str(), self.is_on());
        writer.write_bool(self.has_fault_id.as_str(), self.has_fault());
    }

    /// Reads the button's position and fault light.
    pub fn read(&mut self, reader: &mut SimulatorReader)
        ensures
            final(self).on() == value_of(old(reader)@, old(self).on_id()),
            final(self).fault() == value_of(old(reader)@, old(self).fault_id()),
            final(self).on_id() == old(self).on_id(),
            final(self).fault_id() == old(self).fault_id(),
            final(reader)@ == old(reader)@,
    {
        let on = reader.read_bool(self.is_on_id.as_str());
        self.set_on(on);
        let fault = reader.read_bool(self.has_fault_id.as_str());
        self.set_fault(fault);
    }
}


/// A push button that is on or off and shows whether its system is available.
/// Its state is exchanged with the simulator under `OVHD_<name>_PB_IS_ON`
/// and `OVHD_<name>_PB_IS_AVAILABLE`.
pub struct OnOffAvailablePushButton {
    is_on_id: String,
    is_available_id: String,
    is_on: bool,
    is_available: bool,
}

impl OnOffAvailablePushButton {
    pub closed spec fn on(&self) -> bool {
        self.is_on
    }

    pub closed spec fn available(&self) -> bool {
        self.is_available
    }

    pub closed spec fn on_id(&self) -> Seq<char> {
        self.is_on_id@
    }

    pub closed spec fn available_id(&self) -> Seq<char> {
        self.is_available_id@
    }

    pub fn new_on(name: &str) -> (button: OnOffAvailablePushButton)
        ensures
            button.on(),
            !button.available(),
            button.on_id() == "OVHD_"@ + name@ + "_PB_IS_ON"@,
            button.available_id() == "OVHD_"@ + name@ + "_PB_IS_AVAILABLE"@,
    {
        Self::new(name, true)
    }

    pub fn new_off(name: &str) -> (button: OnOffAvailablePushButton)
        ensures
            !button.on(),
            !button.available(),
            button.on_id() == "OVHD_"@ + name@ + "_PB_IS_ON"@,
            button.available_id() == "OVHD_"@ + name@ + "_PB_IS_AVAILABLE"@,
    {
        Self::new(name, false)
    }

    fn new(name: &str, is_on: bool) -> (button: OnOffAvailablePushButton)
        ensures
            button.on() == is_on,
            !button.available(),
            button.on_id() == "OVHD_"@ + name@ + "_PB_IS_ON"@,
            button.available_id() == "OVHD_"@ + name@ + "_PB_IS_AVAILABLE"@,
    {
        OnOffAvailablePushButton {
            is_on_id: identifier("OVHD_", name, "_PB_IS_ON"),
            is_available_id: identifier("OVHD_", name, "_PB_IS_AVAILABLE"),
            is_on,
            is_available: false,
        }
    }

    pub fn set_on(&mut self, value: bool)
        ensures
            final(self).on() == value,
            final(self).available() == old(self).available(),
            final(self).on_id() == old(self).on_id(),
            final(self).available_id() == old(self).available_id(),
    {
        self.is_on = value;
    }

    pub fn set_available(&mut self, is_available: bool)
        ensures
            final(self).available() == is_available,
            final(self).on() == old(self).on(),
            final(self).on_id() == old(self).on_id(),
            final(self).available_id() == old(self).available_id(),
    {
        self.is_available = is_available;
    }

    pub fn turn_on(&mut self)
        ensures
            final(self).on(),
            final(self).available() == old(self).available(),
            final(self).on_id() == old(self).on_id(),
            final(self).available_id() == old(self).available_id(),
    {
        self.is_on = true;
    }

    pub fn turn_off(&mut self)
        ensures
            !final(self).on(),
            final(self).available() == old(self).available(),
            final(self).on_id() == old(self).on_id(),
            final(self).available_id() == old(self).available_id(),
    {
        self.is_on = false;
    }

    pub fn is_available(&self) -> (value: bool)
        ensures
            value == self.available(),
    {
        self.is_available
    }

    pub fn is_on(&self) -> (value: bool)
        ensures
            value == self.on(),
    {
        self.is_on
    }

    pub fn is_off(&self) -> (value: bool)
        ensures
            value == !self.on(),
    {
        !self.is_on
    }

    /// Reads the button's state.
    pub fn read(&mut self, reader: &mut SimulatorReader)
        ensures
            final(self).on() == value_of(old(reader)@, old(self).on_id()),
            final(self).available() == value_of(old(reader)@, old(self).available_id()),
            final(self).on_id() == old(self).on_id(),
            final(self).available_id() == old(self).available_id(),
            final(reader)@ == old(reader)@,
    {
        let first = reader.read_bool(self.is_on_id.as_str());
        self.set_on(first);
        let second = reader.read_bool(self.is_available_id.as_str());
        self.set_available(second);
    }

    /// Writes the button's state.
    pub fn write(&self, writer: &mut SimulatorWriter)
        ensures
            final(writer)@ == old(writer)@.push((self.on_id(), self.on())).push(
                (self.available_id(), self.available()),
            ),
    {
        writer.write_bool(self.is_on_id.as_str(), self.is_on);
        writer.write_bool(self.is_available_id.as_str(), self.is_available);
    }
}

/// A push button that selects the normal or the alternate mode and shows a
/// fault light. Its state is exchanged with the simulator under
/// `OVHD_<name>_PB_IS_NORMAL` and `OVHD_<name>_PB_HAS_FAULT`.
pub struct NormalAltnFaultPushButton {
    is_normal_id: String,
    has_fault_id: String,
    is_normal: bool,
    has_fault: bool,
}

impl NormalAltnFaultPushButton {
    pub closed spec fn normal(&self) -> bool {
        self.is_normal
    }

    pub closed spec fn fault(&self) -> bool {
        self.has_fault
    }

    pub closed spec fn normal_id(&self) -> Seq<char> {
        self.is_normal_id@
    }

    pub closed spec fn fault_id(&self) -> Seq<char> {
        self.has_fault_id@
    }

    pub fn new_normal(name: &str) -> (button: NormalAltnFaultPushButton)
        ensures
            button.normal(),
            !button.fault(),
            button.normal_id() == "OVHD_"@ + name@ + "_PB_IS_NORMAL"@,
            button.fault_id() == "OVHD_"@ + name@ + "_PB_HAS_FAULT"@,
    {
        Self::new(name, true)
    }

    pub fn new_altn(name: &str) -> (button: NormalAltnFaultPushButton)
        ensures
            !button.normal(),
            !button.fault(),
            button.normal_id() == "OVHD_"@ + name@ + "_PB_IS_NORMAL"@,
            button.fault_id() == "OVHD_"@ + name@ + "_PB_HAS_FAULT"@,
    {
        Self::new(name, false)
    }

    fn new(name: &str, is_normal: bool) -> (button: NormalAltnFaultPushButton)
        ensures
            button.normal() == is_normal,
            !button.fault(),
            button.normal_id() == "OVHD_"@ + name@ + "_PB_IS_NORMAL"@,
            button.fault_id() == "OVHD_"@ + name@ + "_PB_HAS_FAULT"@,
    {
        NormalAltnFaultPushButton {
            is_normal_id: identifier("OVHD_", name, "_PB_IS_NORMAL"),
            has_fault_id: identifier("OVHD_", name, "_PB_HAS_FAULT"),
            is_normal,
            has_fault: false,
        }
    }

    pub fn push_altn(&mut self)
        ensures
            !final(self).normal(),
            final(self).fault() == old(self).fault(),
            final(self).normal_id() == old(self).normal_id(),
            final(self).fault_id() == old(self).fault_id(),
    {
        self.is_normal = false;
    }

    pub fn is_normal(&self) -> (value: bool)
        ensures
            value == self.normal(),
    {
        self.is_normal
    }

    pub fn is_altn(&self) -> (value: bool)
        ensures
            value == !self.normal(),
    {
        !self.is_normal
    }

    pub fn set_normal(&mut self, value: bool)
        ensures
            final(self).normal() == value,
            final(self).fault() == old(self).fault(),
            final(self).normal_id() == old(self).normal_id(),
            final(self).fault_id() == old(self).fault_id(),
    {
        self.is_normal = value;
    }

    pub fn has_fault(&self) -> (value: bool)
        ensures
            value == self.fault(),
    {
        self.has_fault
    }

    pub fn set_fault(&mut self, value: bool)
        ensures
            final(self).fault() == value,
            final(self).normal() == old(self).normal(),
            final(self).normal_id() == old(self).normal_id(),
            final(self).fault_id() == old(self).fault_id(),
    {
        self.has_fault = value;
    }

    /// Reads the button's state.
    pub fn read(&mut self, reader: &mut SimulatorReader)
        ensures
            final(self).normal() == value_of(old(reader)@, old(self).normal_id()),
            final(self).fault() == value_of(old(reader)@, old(self).fault_id()),
            final(self).normal_id() == old(self).normal_id(),
            final(self).fault_id() == old(self).fault_id(),
            final(reader)@ == old(reader)@,
    {
        let first = reader.read_bool(self.is_normal_id.as_str());
        self.set_normal(first);
        let second = reader.read_bool(self.has_fault_id.as_str());
        self.set_fault(second);
    }

    /// Writes the button's state.
    pub fn write(&self, writer: &mut SimulatorWriter)
        ensures
            final(writer)@ == old(writer)@.push((self.normal_id(), self.normal())).push(
                (self.fault_id(), self.fault()),
            ),
    {
        writer.write_bool(self.is_normal_id.as_str(), self.is_normal);
        writer.write_bool(self.has_fault_id.as_str(), self.has_fault);
    }
}

/// A push button that leaves a system in automatic mode or turns it off, and
/// shows a fault light. Its state is exchanged with the simulator under
/// `OVHD_<name>_PB_IS_AUTO` and `OVHD_<name>_PB_HAS_FAULT`.
pub struct AutoOffFaultPushButton {
    is_auto_id: String,
    has_fault_id: String,
    is_auto: bool,
    has_fault: bool,
}

impl AutoOffFaultPushButton {
    pub closed spec fn auto(&self) -> bool {
        self.is_auto
    }

    pub closed spec fn fault(&self) -> bool {
        self.has_fault
    }

    pub closed spec fn auto_id(&self) -> Seq<char> {
        self.is_auto_id@
    }

    pub closed spec fn fault_id(&self) -> Seq<char> {
        self.has_fault_id@
    }

    pub fn new_auto(name: &str) -> (button: AutoOffFaultPushButton)
        ensures
            button.auto(),
            !button.fault(),
            button.auto_id() == "OVHD_"@ + name@ + "_PB_IS_AUTO"@,
            button.fault_id() == "OVHD_"@ + name@ + "_PB_HAS_FAULT"@,
    {
        Self::new(name, true)
    }

    pub fn new_off(name: &str) -> (button: AutoOffFaultPushButton)
        ensures
            !button.auto(),
            !button.fault(),
            button.auto_id() == "OVHD_"@ + name@ + "_PB_IS_AUTO"@,
            button.fault_id() == "OVHD_"@ + name@ + "_PB_HAS_FAULT"@,
    {
        Self::new(name, false)
    }

    fn new(name: &str, is_auto: bool) -> (button: AutoOffFaultPushButton)
        ensures
            button.auto() == is_auto,
            !button.fault(),
            button.auto_id() == "OVHD_"@ + name@ + "_PB_IS_AUTO"@,
            button.fault_id() == "OVHD_"@ + name@ + "_PB_HAS_FAULT"@,
    {
        AutoOffFaultPushButton {
            is_auto_id: identifier("OVHD_", name, "_PB_IS_AUTO"),
            has_fault_id: identifier("OVHD_", name, "_PB_HAS_FAULT"),
            is_auto,
            has_fault: false,
        }
    }

    pub fn push_off(&mut self)
        ensures
            !final(self).auto(),
            final(self).fault() == old(self).fault(),
            final(self).auto_id() == old(self).auto_id(),
            final(self).fault_id() == old(self).fault_id(),
    {
        self.is_auto = false;
    }

    pub fn push_auto(&mut self)
        ensures
            final(self).auto(),
            final(self).fault() == old(self).fault(),
            final(self).auto_id() == old(self).auto_id(),
            final(self).fault_id() == old(self).fault_id(),
    {
        self.is_auto = true;
    }

    pub fn is_auto(&self) -> (value: bool)
        ensures
            value == self.auto(),
    {
        self.is_auto
    }

    pub fn is_off(&self) -> (value: bool)
        ensures
            value == !self.auto(),
    {
        !self.is_auto
    }

    pub fn set_auto(&mut self, value: bool)
        ensures
            final(self).auto() == value,
            final(self).fault() == old(self).fault(),
            final(self).auto_id() == old(self).auto_id(),
            final(self).fault_id() == old(self).fault_id(),
    {
        self.is_auto = value;
    }

    pub fn has_fault(&self) -> (value: bool)
        ensures
            value == self.fault(),
    {
        self.has_fault
    }

    fn set_fault(&mut self, value: bool)
        ensures
            final(self).fault() == value,
            final(self).auto() == old(self).auto(),
            final(self).auto_id() == old(self).auto_id(),
            final(self).fault_id() == old(self).fault_id(),
    {
        self.has_fault = value;
    }

    /// Reads the button's state.
    pub fn read(&mut self, reader: &mut SimulatorReader)
        ensures
            final(self).auto() == value_of(old(reader)@, old(self).auto_id()),
            final(self).fault() == value_of(old(reader)@, old(self).fault_id()),
            final(self).auto_id() == old(self).auto_id(),
            final(self).fault_id() == old(self).fault_id(),
            final(reader)@ == old(reader)@,
    {
        let first = reader.read_bool(self.is_auto_id.as_str());
        self.set_auto(first);
        let second = reader.read_bool(self.has_fault_id.as_str());
        self.set_fault(second);
    }

    /// Writes the button's state.
    pub fn write(&self, writer: &mut SimulatorWriter)
        ensures
            final(writer)@ == old(writer)@.push((self.auto_id(), self.auto())).push(
                (self.fault_id(), self.fault()),
            ),
    {
        writer.write_bool(self.is_auto_id.as_str(), self.is_auto);
        writer.write_bool(self.has_fault_id.as_str(), self.has_fault);
    }
}


/// A push button that releases (disconnects) a system and shows a fault
/// light. Once released it stays released. Its state is exchanged with the
/// simulator under `OVHD_<name>_PB_IS_RELEASED` and `OVHD_<name>_PB_HAS_FAULT`.
pub struct FaultReleasePushButton {
    is_released_id: String,
    has_fault_id: String,
    is_released: bool,
    has_fault: bool,
}

impl FaultReleasePushButton {
    pub closed spec fn released(&self) -> bool {
        self.is_released
    }

    pub closed spec fn fault(&self) -> bool {
        self.has_fault
    }

    pub closed spec fn released_id(&self) -> Seq<char> {
        self.is_released_id@
    }

    pub closed spec fn fault_id(&self) -> Seq<char> {
        self.has_fault_id@
    }

    pub fn new_released(name: &str) -> (button: FaultReleasePushButton)
        ensures
            button.released(),
            !button.fault(),
            button.released_id() == "OVHD_"@ + name@ + "_PB_IS_RELEASED"@,
            button.fault_id() == "OVHD_"@ + name@ + "_PB_HAS_FAULT"@,
    {
        Self::new(name, true)
    }

    pub fn new_in(name: &str) -> (button: FaultReleasePushButton)
        ensures
            !button.released(),
            !button.fault(),
            button.released_id() == "OVHD_"@ + name@ + "_PB_IS_RELEASED"@,
            button.fault_id() == "OVHD_"@ + name@ + "_PB_HAS_FAULT"@,
    {
        Self::new(name, false)
    }

    fn new(name: &str, is_released: bool) -> (button: FaultReleasePushButton)
        ensures
            button.released() == is_released,
            !button.fault(),
            button.released_id() == "OVHD_"@ + name@ + "_PB_IS_RELEASED"@,
            button.fault_id() == "OVHD_"@ + name@ + "_PB_HAS_FAULT"@,
    {
        FaultReleasePushButton {
            is_released_id: identifier("OVHD_", name, "_PB_IS_RELEASED"),
            has_fault_id: identifier("OVHD_", name, "_PB_HAS_FAULT"),
            is_released,
            has_fault: false,
        }
    }

    /// Releases the button when `released` holds; a released button cannot
    /// be pushed back in.
    pub fn set_released(&mut self, released: bool)
        ensures
            final(self).released() == (old(self).released() || released),
            final(self).fault() == old(self).fault(),
            final(self).released_id() == old(self).released_id(),
            final(self).fault_id() == old(self).fault_id(),
    {
        self.is_released = self.is_released || released;
    }

    pub fn is_released(&self) -> (released: bool)
        ensures
            released == self.released(),
    {
        self.is_released
    }

    pub fn set_fault(&mut self, fault: bool)
        ensures
            final(self).fault() == fault,
            final(self).released() == old(self).released(),
            final(self).released_id() == old(self).released_id(),
            final(self).fault_id() == old(self).fault_id(),
    {
        self.has_fault = fault;
    }

    pub fn has_fault(&self) -> (fault: bool)
        ensures
            fault == self.fault(),
    {
        self.has_fault
    }

    /// Writes the button's state.
    pub fn write(&self, writer: &mut SimulatorWriter)
        ensures
            final(writer)@ == old(writer)@.push((self.released_id(), self.released())).push(
                (self.fault_id(), self.fault()),
            ),
    {
        writer.write_bool(self.is_released_id.as_str(), self.is_released);
        writer.write_bool(self.has_fault_id.as_str(), self.has_fault);
    }

    /// Reads the button's state. A released button stays released whatever
    /// the simulator provides.
    pub fn read(&mut self, reader: &mut SimulatorReader)
        ensures
            final(self).released() == (old(self).released() || value_of(
                old(reader)@,
                old(self).released_id(),
            )),
            final(self).fault() == value_of(old(reader)@, old(self).fault_id()),
            final(self).released_id() == old(self).released_id(),
            final(self).fault_id() == old(self).fault_id(),
            final(reader)@ == old(reader)@,
    {
        let released = reader.read_bool(self.is_released_id.as_str());
        self.set_released(released);
        let fault = reader.read_bool(self.has_fault_id.as_str());
        self.set_fault(fault);
    }
}

/// The fire push button of an engine or the APU. Once released it stays
/// released. Its state is exchanged with the simulator under `FIRE_BUTTON_<name>`.
pub struct FirePushButton {
    is_released_id: String,
    is_released: bool,
}

impl FirePushButton {
    pub closed spec fn released(&self) -> bool {
        self.is_released
    }

    pub closed spec fn released_id(&self) -> Seq<char> {
        self.is_released_id@
    }

    pub fn new(name: &str) -> (button: FirePushButton)
        ensures
            !button.released(),
            button.released_id() == "FIRE_BUTTON_"@ + name@,
    {
        let mut id = String::from_str("FIRE_BUTTON_");
        id.append(name);
        FirePushButton { is_released_id: id, is_released: false }
    }

    /// Releases the button when `released` holds; a released button cannot
    /// be pushed back in.
    pub fn set(&mut self, released: bool)
        ensures
            final(self).released() == (old(self).released() || released),
            final(self).released_id() == old(self).released_id(),
    {
        self.is_released = self.is_released || released;
    }

    pub fn is_released(&self) -> (released: bool)
        ensures
            released == self.released(),
    {
        self.is_released
    }

    /// Writes the button's state.
    pub fn write(&self, writer: &mut SimulatorWriter)
        ensures
            final(writer)@ == old(writer)@.push((self.released_id(), self.released())),
    {
        writer.write_bool(self.is_released_id.as_str(), self.is_released);
    }

    /// Reads the button's state. A released button stays released whatever
    /// the simulator provides.
    pub fn read(&mut self, reader: &mut SimulatorReader)
        ensures
            final(self).released() == (old(self).released() || value_of(
                old(reader)@,
                old(self).released_id(),
            )),
            final(self).released_id() == old(self).released_id(),
            final(reader)@ == old(reader)@,
    {
        let released = reader.read_bool(self.is_released_id.as_str());
        self.set(released);
    }
}

} // verus!
