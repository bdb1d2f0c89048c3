//! Symbolic naming of MIDI Control Change controller numbers.
//!
//! The crate pairs a constrained 7-bit value (`byte::U7`) with the closed
//! set of 128 named control functions (`cc::ControlFunction`) and proves
//! that the conversion between the two is a total bijection.

pub mod byte;
pub mod cc;
