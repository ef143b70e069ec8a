//! Debug Access Port transaction layer for SWD/JTAG debug probes.
//!
//! The library turns register requests into bit-exact wire sequences,
//! decodes the target's answers, recovers from the protocol's transient
//! failure states, and plans the attach protocol of a debug session.
//! Everything that touches hardware is done by the caller, which feeds the
//! sampled bits back into the state machines defined here.

pub mod codec;
pub mod engine;
pub mod error;
pub mod jtag;
pub mod probe;
pub mod session;
pub mod target;
