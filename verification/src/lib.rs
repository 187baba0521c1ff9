//! # Rusty Z-Wave
//!
//! Host-side driver for a Z-Wave controller attached over a serial link.
//!
//! The crate is layered, leaves first:
//!
//! * [`defs`] holds the serial frame and the byte tables of the protocol.
//! * [`cmds`] holds the Command Class codecs: pure functions that build the
//!   payload of a command and read a report back into a value.
//! * [`driver`] holds the transport and the transaction engine. They decide;
//!   the byte stream is driven from outside, one byte or one write at a time.
//! * [`basic`] holds the controller and the nodes, on top of any [`driver::Driver`].
//!
//! Everything here is verified with Verus, and no function of the crate panics.
//! One thing is taken on trust: the power of ten that the `num` crate computes
//! for the meter codec.

pub mod basic;
pub mod cmds;
pub mod defs;
pub mod driver;
pub mod error;
pub mod hex;
