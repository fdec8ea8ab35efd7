//! Sensor polling, change-detection, and transition-recording engine for a
//! fleet of discrete dock-door sensors exposed by PLCs.
//!
//! The library holds the verified core: the per-sensor state machine
//! ([`sensor`]), sample classification ([`sample`]), the per-cycle engine
//! that drives a whole roster and aggregates a report ([`cycle`]), the codec
//! between transitions and the persistence sink's record shape ([`writer`]),
//! and roster validation ([`roster`]). The surrounding process — field-bus
//! reads, the database sink, scheduling — hands this core plain values and
//! takes plain values back.

pub mod cycle;
pub mod roster;
pub mod sample;
pub mod sensor;
pub mod writer;
