//! Verified core of the STM32F3 analog to digital converter driver.
//!
//! The library decides every register access of the driver; the code that
//! touches the memory-mapped registers only carries out the [`BusOp`]s it is
//! handed and feeds back what it read.

pub mod config;
pub mod regs;
pub mod control;
pub mod laws;
pub mod adc;
pub mod procedures;

pub use config::{Align, ClockMode, Clocks, OperationMode, SampleTime};
pub use regs::{AdcPair, BitField, Field, Register, Update};
pub use adc::Adc;
pub use control::{BusOp, Outcome};
