//! Codec between a `Transition` and the record shape the persistence sink
//! takes.
//!
//! The sink stores, per transition: the sensor name, the new value with its
//! observation time, and the previous value with its observation time (both
//! nullable). The kind is not a column of its own — it is recovered from the
//! previous pair, which an initialization never has and a change always has.

use vstd::prelude::*;

use crate::sensor::{Timestamp, Transition, TransitionKind};

verus! {

/// The flat record the persistence sink takes: exactly its required fields,
/// in plain values.
#[derive(Debug)]
pub struct PersistRecord {
    pub sensor_name: String,
    pub new_value: u8,
    pub observed_at: Timestamp,
    pub previous_value: Option<u8>,
    pub previous_observed_at: Option<Timestamp>,
}

/// The record a transition is stored as.
pub open spec fn spec_encode(t: Transition) -> PersistRecord {
    PersistRecord {
        sensor_name: t.sensor_name,
        new_value: t.new_value,
        observed_at: t.observed_at,
        previous_value: t.previous_value,
        previous_observed_at: t.previous_observed_at,
    }
}

/// The transition a stored record stands for: the kind is read off the
/// previous value, which only a change carries.
pub open spec fn spec_decode(r: PersistRecord) -> Transition {
    Transition {
        sensor_name: r.sensor_name,
        kind: if r.previous_value is None {
            TransitionKind::Initialization
        } else {
            TransitionKind::Change
        },
        new_value: r.new_value,
        observed_at: r.observed_at,
        previous_value: r.previous_value,
        previous_observed_at: r.previous_observed_at,
    }
}

/// Serializes a transition into the sink's record shape.
pub fn encode_transition(t: &Transition) -> (r: PersistRecord)
    ensures
        r == spec_encode(*t),
{
    PersistRecord {
        sensor_name: t.sensor_name.clone(),
        new_value: t.new_value,
        observed_at: t.observed_at,
        previous_value: t.previous_value,
        previous_observed_at: t.previous_observed_at,
    }
}

/// Reads a stored record back as the transition it stands for.
pub fn decode_record(r: &PersistRecord) -> (t: Transition)
    ensures
        t == spec_decode(*r),
{
    let kind = if r.previous_value.is_none() {
        TransitionKind::Initialization
    } else {
        TransitionKind::Change
    };
    Transition {
        sensor_name: r.sensor_name.clone(),
        kind,
        new_value: r.new_value,
        observed_at: r.observed_at,
        previous_value: r.previous_value,
        previous_observed_at: r.previous_observed_at,
    }
}

/// Round trip: storing a transition and reading it back reproduces it whole —
/// name, values, timestamps, and kind.
pub proof fn lemma_record_round_trip(t: Transition)
    requires
        t.wf(),
    ensures
        spec_decode(spec_encode(t)) == t,
{
}

} // verus!
