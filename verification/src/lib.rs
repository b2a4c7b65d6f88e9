//! Driver for a sub-GHz radio transceiver spoken to over a byte-oriented
//! command/response protocol on a synchronous serial bus, with shutdown and
//! interrupt sideband lines, together with the clock-tree configuration
//! helpers of the host microcontroller.
//!
//! The hardware collaborators (bus master, select/shutdown pins, interrupt
//! line, delay source) are reached through the [`bus::RadioBus`] trait; every
//! contract of the driver is stated over the ghost log of bus events that the
//! trait maintains.

use vstd::prelude::*;

pub mod bus;
pub mod config;
pub mod defs;
pub mod radio;
pub mod rcc;
pub mod sim;

verus! {

} // verus!
