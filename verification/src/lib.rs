//! Driver logic for the radio of the EFR32MG22, on top of Silicon Labs' RAIL
//! library.
//!
//! RAIL is a C library: calling it means touching hardware. This crate holds
//! everything around those calls. Each thing the radio can be asked to do is an
//! [`operation::Operation`]: a value that names the next RAIL call to make, takes
//! RAIL's reply, and goes on from there until it has a result.

pub mod board;
pub mod clocks;
pub mod decimal;
pub mod demo;
pub mod error;
pub mod events;
pub mod operation;
pub mod radio;
pub mod rail;
pub mod receive;
pub mod requests;
pub mod startup;
pub mod transmit;
