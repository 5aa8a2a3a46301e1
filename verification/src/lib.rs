//! Wire rules of a serial DMX proxy, free of I/O.
//!
//! A host talks to the device over a serial line in two short exchanges: a
//! handshake that asks the device to identify itself, and a one-way command
//! that sets one channel to one value. This crate holds what those exchanges
//! put on the line and how they react to what the line answers. Opening,
//! writing and reading are left to the caller, who performs each [`Action`]
//! and reports the [`Event`] that ended it.
//!
//! [`Action`]: exchange::Action
//! [`Event`]: exchange::Event

pub mod wire;
pub mod exchange;
pub mod check_port;
pub mod send_dmx;
pub mod ports;
