//! Verified core of the Pulse CPU monitor.

pub mod cpu;
pub mod cpuinfo;
pub mod system;
pub mod text;
pub mod badge;
pub mod helper;
