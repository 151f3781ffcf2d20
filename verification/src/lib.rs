//! Runtime core of a small embedded agent: a broadcast event channel, the
//! response handling of a byte transport, the record types of a remote
//! structured store, a cooperative worker schedule, and the decision logic of
//! the workers that bridge a network link and an input pin to that store.
//!
//! Everything here is a function of plain values. Radio, pin, clock and
//! network are driven by the program around this library, which hands in what
//! it observed and carries out what is returned.

pub mod application;
pub mod database;
pub mod events;
pub mod ipv4;
pub mod numeral;
pub mod pipe;
pub mod schema;
pub mod workers;
