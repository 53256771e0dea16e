//! Field agent core: the sensor registry, the command dispatcher and the
//! polling scheduler that sit between a register-addressed controller and a
//! remote control plane.

pub mod config;
pub mod helper;
pub mod state;
pub mod plc_io;
pub mod agent;
pub mod monitoring;
