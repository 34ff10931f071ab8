//! Systems specific to the A320.

pub mod electrical;
