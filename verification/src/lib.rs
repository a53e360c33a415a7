//! GPU and host telemetry.
//!
//! The library detects the compute devices of a host through a chain of
//! hardware backends, reads their performance counters, keeps a bounded
//! rolling history per device, shows a synthetic waveform where there is no
//! vendor backend to ask, and decides the steps of the polling loop that a
//! host program runs around it.
//!
//! Calls into the hardware libraries and the clock stand in small trusted
//! items, each documented with what is and is not claimed of it. Everything
//! else is proved: what is made of the answers holds for every answer.
//!
//! - [`gpu`]: devices, readings, histories, backends and the polling loop.
//! - [`system`]: the host's description, load and model processes.
//! - [`units`]: the fixed-point units shared by every reading.

pub mod gpu;
pub mod system;
pub mod units;
