//! A hardware-in-the-loop cosimulation bridge for a synchronous-serial
//! (SPI-style) multi-slope ADC design, together with the driver-side
//! register access that both the simulated and the real device share.
//!
//! The bridge translates between software bytes and the nine-valued logic
//! of a simulated serial bus, exchanges one byte per simulated sample event
//! over a pair of single-producer channels, and drives the simulation
//! kernel's step loop as an explicit state machine.

pub mod adc;
pub mod bits;
pub mod channel;
pub mod kernel;
pub mod logic;
pub mod peripheral;
pub mod spi;
pub mod vector;
