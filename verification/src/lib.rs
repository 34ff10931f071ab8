//! Aircraft systems of an Airbus A320: overhead panel push buttons, pneumatic
//! valves, the electrical power network and the logic that decides how
//! electrical power flows through it.

pub mod simulation;
pub mod overhead;
pub mod pneumatic;
pub mod landing_gear;
pub mod shared;
pub mod electrical;
pub mod a320;
pub mod apu;
