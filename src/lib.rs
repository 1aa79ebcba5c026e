//! Probe selection, target selection and flash orchestration for STM32
//! microcontrollers behind a USB debug probe, as verified decision logic.
//!
//! The hardware itself is driven by the caller: the library decides which
//! hardware step comes next and what the user is told about it.

pub mod catalog;
pub mod error;
pub mod format;
pub mod mcu;
pub mod probe;
pub mod session;
pub mod gate;
