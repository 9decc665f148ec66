//! Discovery of a T10 device on the system's serial ports, and a few small
//! arithmetic helpers.

pub mod exchange;
pub mod math;
pub mod ports;
pub mod probe;
pub mod protocol;
pub mod search;
pub mod text;
