//! Flashing firmware onto AVR development boards: board profiles, serial-port
//! resolution, programmer invocation rules and the run's decision logic.
//!
//! Everything here works on plain values. Listing devices, spawning the
//! programmer and relaying console bytes are left to the caller.

pub mod avrdude;
pub mod board;
pub mod console;
pub mod error;
pub mod version;
pub mod workflow;
