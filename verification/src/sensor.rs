//! Per-sensor data model and transition detection.
//!
//! A `SensorState` tracks the last value read from one dock-door tag and
//! detects value changes. Feeding it a sample either initializes it (first
//! accepted sample), records a change (sample differs from the current
//! value), or leaves it untouched (sample equals the current value).

use vstd::prelude::*;

verus! {

/// Wall-clock instant, in milliseconds since the Unix epoch.
pub type Timestamp = i64;

/// Immutable description of one sensor to poll: a display name, the network
/// endpoint of the PLC that exposes it, and the tag address on that PLC.
/// The identity key of a sensor within a roster is `(name, tag_address)`.
#[derive(Debug)]
pub struct SensorConfig {
    pub name: String,
    pub endpoint: String,
    pub tag_address: String,
}

impl SensorConfig {
    pub fn new(name: String, endpoint: String, tag_address: String) -> (c: SensorConfig)
        ensures
            c == (SensorConfig { name, endpoint, tag_address }),
    {
        SensorConfig { name, endpoint, tag_address }
    }
}

/// Whether a transition is the first accepted sample of a sensor or a later
/// change of its value.
#[derive(PartialEq, Eq, Structural, Clone, Copy, Debug)]
pub enum TransitionKind {
    Initialization,
    Change,
}

/// An emitted record of a sensor's initialization or detected value change.
/// Produced once per accepted state change and handed to the persistence
/// sink; never retained by the state machine itself.
#[derive(Debug)]
pub struct Transition {
    pub sensor_name: String,
    pub kind: TransitionKind,
    pub new_value: u8,
    pub observed_at: Timestamp,
    pub previous_value: Option<u8>,
    pub previous_observed_at: Option<Timestamp>,
}

impl Transition {
    /// The kind agrees with the previous-value fields: an initialization has
    /// no previous pair, a change always has both halves of it.
    pub open spec fn wf(self) -> bool {
        &&& self.kind == TransitionKind::Initialization <==> self.previous_value is None
        &&& self.previous_value is Some <==> self.previous_observed_at is Some
    }
}

/// What one call of `apply` did: the transition to persist, if the sample
/// was accepted as new, and whether the supplied timestamp ran backwards
/// relative to the sensor's current observation (a clock anomaly, logged
/// distinctly by the caller but never a reason to drop the new value).
#[derive(Debug)]
pub struct ApplyEffect {
    pub transition: Option<Transition>,
    pub clock_anomaly: bool,
}

/// Mutable per-sensor state: unset until the first successful sample, then
/// the current `(value, observed_at)` pair, plus the immediately prior pair
/// once a change has been seen.
#[derive(Debug)]
pub struct SensorState {
    pub config: SensorConfig,
    pub initialized: bool,
    pub current_value: Option<u8>,
    pub current_observed_at: Option<Timestamp>,
    pub previous_value: Option<u8>,
    pub previous_observed_at: Option<Timestamp>,
}

/// The state a sensor is in from roster load until its first accepted sample.
pub open spec fn fresh_state(config: SensorConfig) -> SensorState {
    SensorState {
        config: config,
        initialized: false,
        current_value: None,
        current_observed_at: None,
        previous_value: None,
        previous_observed_at: None,
    }
}

/// The state after one sample is accepted or ignored: initialization sets the
/// current pair, a differing sample shifts the current pair into the previous
/// pair, and an equal sample mutates nothing.
pub open spec fn spec_apply_state(pre: SensorState, sample: u8, t: Timestamp) -> SensorState {
    if !pre.initialized {
        SensorState {
            config: pre.config,
            initialized: true,
            current_value: Some(sample),
            current_observed_at: Some(t),
            previous_value: None,
            previous_observed_at: None,
        }
    } else if pre.current_value != Some(sample) {
        SensorState {
            config: pre.config,
            initialized: true,
            current_value: Some(sample),
            current_observed_at: Some(t),
            previous_value: pre.current_value,
            previous_observed_at: pre.current_observed_at,
        }
    } else {
        pre
    }
}

/// The transition one sample gives rise to: `Initialization` for the first
/// accepted sample, `Change` for a differing one, none for an equal one.
pub open spec fn spec_apply_transition(pre: SensorState, sample: u8, t: Timestamp) -> Option<
    Transition,
> {
    if !pre.initialized {
        Some(
            Transition {
                sensor_name: pre.config.name,
                kind: TransitionKind::Initialization,
                new_value: sample,
                observed_at: t,
                previous_value: None,
                previous_observed_at: None,
            },
        )
    } else if pre.current_value != Some(sample) {
        Some(
            Transition {
                sensor_name: pre.config.name,
                kind: TransitionKind::Change,
                new_value: sample,
                observed_at: t,
                previous_value: pre.current_value,
                previous_observed_at: pre.current_observed_at,
            },
        )
    } else {
        None
    }
}

/// A change whose timestamp is older than the sensor's current observation:
/// the value is still accepted, but the regression is flagged.
pub open spec fn spec_clock_anomaly(pre: SensorState, sample: u8, t: Timestamp) -> bool {
    &&& pre.initialized
    &&& pre.current_value != Some(sample)
    &&& pre.current_observed_at is Some
    &&& t < pre.current_observed_at->0
}

/// Relies on chrono::Local::now and DateTime::timestamp_millis: the current
/// wall-clock instant as milliseconds since the Unix epoch. The clock is the
/// machine's and promises nothing — not even monotonicity — so no ensures is
/// stated; callers say what holds of every instant it may return.
#[verifier::external_body]
fn now_timestamp() -> Timestamp {
    chrono::Local::now().timestamp_millis()
}

impl SensorState {
    /// Structural invariant: the current pair is set exactly while the sensor
    /// is initialized, the previous pair is set only as a whole and only once
    /// initialized.
    pub open spec fn wf(self) -> bool {
        &&& self.initialized ==> self.current_value is Some && self.current_observed_at is Some
        &&& !self.initialized ==> self.current_value is None && self.current_observed_at is None
            && self.previous_value is None && self.previous_observed_at is None
        &&& self.previous_value is Some <==> self.previous_observed_at is Some
        &&& self.previous_value is Some ==> self.initialized
    }

    /// A fresh, uninitialized state for one roster entry.
    pub fn new(config: &SensorConfig) -> (s: SensorState)
        ensures
            s == fresh_state(*config),
            s.wf(),
    {
        SensorState {
            config: SensorConfig {
                name: config.name.clone(),
                endpoint: config.endpoint.clone(),
                tag_address: config.tag_address.clone(),
            },
            initialized: false,
            current_value: None,
            current_observed_at: None,
            previous_value: None,
            previous_observed_at: None,
        }
    }

    /// Accepts the first sample of an uninitialized sensor and returns the
    /// `Initialization` transition.
    pub fn initialize(&mut self, value: u8, observed_at: Timestamp) -> (t: Transition)
        requires
            old(self).wf(),
            !old(self).initialized,
        ensures
            *final(self) == spec_apply_state(*old(self), value, observed_at),
            Some(t) == spec_apply_transition(*old(self), value, observed_at),
            final(self).wf(),
            t.wf(),
    {
        self.current_value = Some(value);
        self.current_observed_at = Some(observed_at);
        self.initialized = true;
        Transition {
            sensor_name: self.config.name.clone(),
            kind: TransitionKind::Initialization,
            new_value: value,
            observed_at: observed_at,
            previous_value: None,
            previous_observed_at: None,
        }
    }

    /// Accepts a sample that differs from the current value: shifts the
    /// current pair into the previous pair and returns the `Change`
    /// transition.
    pub fn update_value(&mut self, new_value: u8, observed_at: Timestamp) -> (t: Transition)
        requires
            old(self).wf(),
            old(self).initialized,
            old(self).current_value != Some(new_value),
        ensures
            *final(self) == spec_apply_state(*old(self), new_value, observed_at),
            Some(t) == spec_apply_transition(*old(self), new_value, observed_at),
            final(self).wf(),
            t.wf(),
    {
        let name = self.config.name.clone();
        self.previous_value = self.current_value;
        self.previous_observed_at = self.current_observed_at;
        self.current_value = Some(new_value);
        self.current_observed_at = Some(observed_at);
        Transition {
            sensor_name: name,
            kind: TransitionKind::Change,
            new_value: new_value,
            observed_at: observed_at,
            previous_value: self.previous_value,
            previous_observed_at: self.previous_observed_at,
        }
    }

    /// Feeds one sample stamped with the wall clock now. The effect and the
    /// new state are exactly those of `apply` for whatever instant the clock
    /// returned; nothing more is assumed of the clock.
    pub fn apply_now(&mut self, sample: u8) -> (eff: ApplyEffect)
        requires
            old(self).wf(),
        ensures
            final(self).wf(),
            exists|t: Timestamp|
                {
                    &&& *final(self) == #[trigger] spec_apply_state(*old(self), sample, t)
                    &&& eff.transition == spec_apply_transition(*old(self), sample, t)
                    &&& eff.clock_anomaly == spec_clock_anomaly(*old(self), sample, t)
                },
            eff.transition is Some ==> eff.transition->0.wf(),
    {
        let t = now_timestamp();
        self.apply(sample, t)
    }

    /// Feeds one sample with its observation time to the sensor. Exactly one
    /// of three things happens: the first accepted sample initializes the
    /// state, a differing sample records a change, an equal sample mutates
    /// nothing. The effect carries the transition to persist, if any, and the
    /// clock-anomaly flag.
    pub fn apply(&mut self, sample: u8, observed_at: Timestamp) -> (eff: ApplyEffect)
        requires
            old(self).wf(),
        ensures
            final(self).wf(),
            *final(self) == spec_apply_state(*old(self), sample, observed_at),
            eff.transition == spec_apply_transition(*old(self), sample, observed_at),
            eff.clock_anomaly == spec_clock_anomaly(*old(self), sample, observed_at),
            eff.transition is Some ==> eff.transition->0.wf(),
    {
        if !self.initialized {
            let t = self.initialize(sample, observed_at);
            ApplyEffect { transition: Some(t), clock_anomaly: false }
        } else {
            let cur = self.current_value.unwrap();
            if cur != sample {
                let cur_t = self.current_observed_at.unwrap();
                let anomaly = observed_at < cur_t;
                let t = self.update_value(sample, observed_at);
                ApplyEffect { transition: Some(t), clock_anomaly: anomaly }
            } else {
                ApplyEffect { transition: None, clock_anomaly: false }
            }
        }
    }
}

impl Default for SensorState {
    /// The state of a sensor nobody configured: empty name, endpoint, and
    /// tag address, uninitialized.
    fn default() -> (s: SensorState)
        ensures
            s == fresh_state(s.config),
            s.wf(),
            s.config.name@ == Seq::<char>::empty(),
            s.config.endpoint@ == Seq::<char>::empty(),
            s.config.tag_address@ == Seq::<char>::empty(),
    {
        SensorState {
            config: SensorConfig {
                name: String::new(),
                endpoint: String::new(),
                tag_address: String::new(),
            },
            initialized: false,
            current_value: None,
            current_observed_at: None,
            previous_value: None,
            previous_observed_at: None,
        }
    }
}

/// A sample equal to the current value is a no-op: no transition is emitted,
/// no field mutates, and nothing is flagged.
pub proof fn lemma_equal_sample_is_noop(pre: SensorState, sample: u8, t: Timestamp)
    requires
        pre.initialized,
        pre.current_value == Some(sample),
    ensures
        spec_apply_state(pre, sample, t) == pre,
        spec_apply_transition(pre, sample, t) is None,
        !spec_clock_anomaly(pre, sample, t),
{
}

/// Once a sample is applied, applying an equal sample again — at any later
/// tick, the identical `(sample, observed_at)` pair included — emits no
/// second transition and mutates nothing: the repeated sample equals the
/// now-current value.
pub proof fn lemma_repeated_sample_emits_once(
    pre: SensorState,
    sample: u8,
    t1: Timestamp,
    t2: Timestamp,
)
    ensures
        ({
            let mid = spec_apply_state(pre, sample, t1);
            &&& spec_apply_state(mid, sample, t2) == mid
            &&& spec_apply_transition(mid, sample, t2) is None
            &&& !spec_clock_anomaly(mid, sample, t2)
        }),
{
}

/// With samples supplied in non-decreasing timestamp order, the current
/// observation time never decreases across `apply`.
pub proof fn lemma_observed_at_monotonic(pre: SensorState, sample: u8, t: Timestamp)
    requires
        pre.wf(),
        pre.initialized ==> t >= pre.current_observed_at->0,
    ensures
        ({
            let post = spec_apply_state(pre, sample, t);
            &&& post.current_observed_at is Some
            &&& pre.current_observed_at is Some ==> post.current_observed_at->0
                >= pre.current_observed_at->0
        }),
        !spec_clock_anomaly(pre, sample, t),
{
}

/// A change whose timestamp runs backwards is flagged as a clock anomaly, yet
/// the new value and its timestamp are still accepted — a legitimate tag
/// change is never dropped over the clock.
pub proof fn lemma_clock_regression_flagged(pre: SensorState, sample: u8, t: Timestamp)
    requires
        pre.wf(),
        pre.initialized,
        pre.current_value != Some(sample),
        t < pre.current_observed_at->0,
    ensures
        spec_clock_anomaly(pre, sample, t),
        spec_apply_state(pre, sample, t).current_value == Some(sample),
        spec_apply_state(pre, sample, t).current_observed_at == Some(t),
        spec_apply_transition(pre, sample, t) is Some,
{
}

} // verus!
