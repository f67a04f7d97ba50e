//! Decision logic of an interactive serial-port monitor: menu selections,
//! port framing, and the read loop as a state machine driven by outside events.

pub mod decimal;
pub mod line;
pub mod baud;
pub mod port;
pub mod monitor;
