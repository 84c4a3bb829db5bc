//! Command protocol of the OSSM Bluetooth interface: parsing of the text
//! commands written to the command characteristic, the decisions each command
//! makes about the motor configuration, and the JSON texts the device serves.
use vstd::prelude::*;

pub mod text;
pub mod commands;
pub mod characteristics;
pub mod state;
pub mod laws;

verus! {

} // verus!
