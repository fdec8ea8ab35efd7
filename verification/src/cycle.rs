//! One polling pass over a whole roster.
//!
//! A cycle has two verified phases around the sink I/O that the caller
//! performs. First `apply_cycle` feeds every sensor its sample outcome and
//! observation time, collects the transitions to persist, and counts the
//! per-sensor results. The caller then submits each collected transition to
//! the persistence sink and reports per-sensor success back to
//! `finish_report`, which folds the persist failures into the final
//! `CycleReport`. One sensor's failure never touches another sensor's
//! processing: each step reads only that sensor's own state, outcome, and
//! time.

use vstd::prelude::*;

use crate::sample::SampleOutcome;
use crate::sensor::{
    spec_apply_state, spec_apply_transition, spec_clock_anomaly, SensorState, Timestamp,
    Transition, TransitionKind,
};

verus! {

/// A sensor's state after one cycle step: an accepted value goes through the
/// state machine, any failed sample leaves the state untouched.
pub open spec fn step_state(pre: SensorState, out: SampleOutcome, t: Timestamp) -> SensorState {
    match out {
        SampleOutcome::Value(v) => spec_apply_state(pre, v, t),
        _ => pre,
    }
}

/// The transition one cycle step emits, if any: only an accepted value can
/// emit one.
pub open spec fn step_transition(pre: SensorState, out: SampleOutcome, t: Timestamp) -> Option<
    Transition,
> {
    match out {
        SampleOutcome::Value(v) => spec_apply_transition(pre, v, t),
        _ => None,
    }
}

/// Whether one cycle step flags a clock anomaly.
pub open spec fn step_anomaly(pre: SensorState, out: SampleOutcome, t: Timestamp) -> bool {
    match out {
        SampleOutcome::Value(v) => spec_clock_anomaly(pre, v, t),
        _ => false,
    }
}

/// The step initialized the sensor.
pub open spec fn is_initialization_step(pre: SensorState, out: SampleOutcome) -> bool {
    out is Value && !pre.initialized
}

/// The step recorded a value change.
pub open spec fn is_change_step(pre: SensorState, out: SampleOutcome) -> bool {
    match out {
        SampleOutcome::Value(v) => pre.initialized && pre.current_value != Some(v),
        _ => false,
    }
}

/// The step accepted a value equal to the current one.
pub open spec fn is_unchanged_step(pre: SensorState, out: SampleOutcome) -> bool {
    match out {
        SampleOutcome::Value(v) => pre.initialized && pre.current_value == Some(v),
        _ => false,
    }
}

/// The step's sample failed.
pub open spec fn is_failed_step(out: SampleOutcome) -> bool {
    !(out is Value)
}

/// How many of the first `n` steps initialized their sensor.
pub open spec fn count_initialized(
    pre: Seq<SensorState>,
    outs: Seq<SampleOutcome>,
    n: int,
) -> int
    decreases n,
{
    if n <= 0 {
        0
    } else {
        count_initialized(pre, outs, n - 1) + if is_initialization_step(pre[n - 1], outs[n - 1]) {
            1int
        } else {
            0int
        }
    }
}

/// How many of the first `n` steps recorded a change.
pub open spec fn count_changed(pre: Seq<SensorState>, outs: Seq<SampleOutcome>, n: int) -> int
    decreases n,
{
    if n <= 0 {
        0
    } else {
        count_changed(pre, outs, n - 1) + if is_change_step(pre[n - 1], outs[n - 1]) {
            1int
        } else {
            0int
        }
    }
}

/// How many of the first `n` steps saw an unchanged value.
pub open spec fn count_unchanged(pre: Seq<SensorState>, outs: Seq<SampleOutcome>, n: int) -> int
    decreases n,
{
    if n <= 0 {
        0
    } else {
        count_unchanged(pre, outs, n - 1) + if is_unchanged_step(pre[n - 1], outs[n - 1]) {
            1int
        } else {
            0int
        }
    }
}

/// How many of the first `n` steps failed to sample.
pub open spec fn count_sample_failed(pre: Seq<SensorState>, outs: Seq<SampleOutcome>, n: int) -> int
    decreases n,
{
    if n <= 0 {
        0
    } else {
        count_sample_failed(pre, outs, n - 1) + if is_failed_step(outs[n - 1]) {
            1int
        } else {
            0int
        }
    }
}

/// How many of the first `n` steps flagged a clock anomaly.
pub open spec fn count_anomalies(
    pre: Seq<SensorState>,
    outs: Seq<SampleOutcome>,
    ts: Seq<Timestamp>,
    n: int,
) -> int
    decreases n,
{
    if n <= 0 {
        0
    } else {
        count_anomalies(pre, outs, ts, n - 1) + if step_anomaly(pre[n - 1], outs[n - 1], ts[n - 1]) {
            1int
        } else {
            0int
        }
    }
}

/// What the apply phase of one cycle produced: per-sensor transitions to
/// persist (aligned with the roster; `None` where nothing is owed to the
/// sink) and the counts of every class of step.
#[derive(Debug)]
pub struct CyclePlan {
    pub transitions: Vec<Option<Transition>>,
    pub initialized: usize,
    pub changed: usize,
    pub unchanged: usize,
    pub sample_failed: usize,
    pub clock_anomalies: usize,
}

/// The aggregated observability record of one full cycle.
#[derive(PartialEq, Eq, Structural, Clone, Copy, Debug)]
pub struct CycleReport {
    pub initialized: usize,
    pub changed: usize,
    pub unchanged: usize,
    pub sample_failed: usize,
    pub persist_failed: usize,
    pub clock_anomalies: usize,
}

/// Feeds every sensor of the roster its sample outcome and observation time.
/// Sensor `i`'s new state, emitted transition, and classification depend only
/// on its own prior state, `outcomes[i]`, and `times[i]` — a failure at one
/// index can neither abort nor change the processing of any other index.
pub fn apply_cycle(
    states: &mut Vec<SensorState>,
    outcomes: &Vec<SampleOutcome>,
    times: &Vec<Timestamp>,
) -> (plan: CyclePlan)
    requires
        outcomes@.len() == old(states)@.len(),
        times@.len() == old(states)@.len(),
        forall|i: int| 0 <= i < old(states)@.len() ==> (#[trigger] old(states)@[i]).wf(),
    ensures
        final(states)@.len() == old(states)@.len(),
        forall|i: int|
            0 <= i < old(states)@.len() ==> #[trigger] final(states)@[i] == step_state(
                old(states)@[i],
                outcomes@[i],
                times@[i],
            ),
        forall|i: int| 0 <= i < old(states)@.len() ==> (#[trigger] final(states)@[i]).wf(),
        plan.transitions@.len() == old(states)@.len(),
        forall|i: int|
            0 <= i < old(states)@.len() ==> #[trigger] plan.transitions@[i] == step_transition(
                old(states)@[i],
                outcomes@[i],
                times@[i],
            ),
        forall|i: int|
            0 <= i < old(states)@.len() && plan.transitions@[i] is Some ==> (
            #[trigger] plan.transitions@[i])->0.wf(),
        plan.initialized == count_initialized(old(states)@, outcomes@, old(states)@.len() as int),
        plan.changed == count_changed(old(states)@, outcomes@, old(states)@.len() as int),
        plan.unchanged == count_unchanged(old(states)@, outcomes@, old(states)@.len() as int),
        plan.sample_failed == count_sample_failed(
            old(states)@,
            outcomes@,
            old(states)@.len() as int,
        ),
        plan.clock_anomalies == count_anomalies(
            old(states)@,
            outcomes@,
            times@,
            old(states)@.len() as int,
        ),
        plan.initialized + plan.changed + plan.unchanged + plan.sample_failed == old(
            states,
        )@.len(),
{
    let ghost pre = states@;
    let n = states.len();
    let mut transitions: Vec<Option<Transition>> = Vec::new();
    let mut initialized: usize = 0;
    let mut changed: usize = 0;
    let mut unchanged: usize = 0;
    let mut sample_failed: usize = 0;
    let mut clock_anomalies: usize = 0;
    let mut i: usize = 0;
    while i < n
        invariant
            n == pre.len(),
            states@.len() == n,
            outcomes@.len() == n,
            times@.len() == n,
            i <= n,
            forall|j: int| 0 <= j < n ==> (#[trigger] pre[j]).wf(),
            forall|j: int| i <= j < n ==> #[trigger] states@[j] == pre[j],
            forall|j: int|
                0 <= j < i ==> #[trigger] states@[j] == step_state(pre[j], outcomes@[j], times@[j]),
            forall|j: int| 0 <= j < i ==> (#[trigger] states@[j]).wf(),
            transitions@.len() == i,
            forall|j: int|
                0 <= j < i ==> #[trigger] transitions@[j] == step_transition(
                    pre[j],
                    outcomes@[j],
                    times@[j],
                ),
            forall|j: int|
                0 <= j < i && transitions@[j] is Some ==> (#[trigger] transitions@[j])->0.wf(),
            initialized == count_initialized(pre, outcomes@, i as int),
            changed == count_changed(pre, outcomes@, i as int),
            unchanged == count_unchanged(pre, outcomes@, i as int),
            sample_failed == count_sample_failed(pre, outcomes@, i as int),
            clock_anomalies == count_anomalies(pre, outcomes@, times@, i as int),
            initialized + changed + unchanged + sample_failed == i,
            clock_anomalies <= i,
        decreases n - i,
    {
        let out = outcomes[i];
        match out {
            SampleOutcome::Value(v) => {
                let t = times[i];
                let was_initialized = states[i].initialized;
                let s = &mut states[i];
                let eff = s.apply(v, t);
                if eff.clock_anomaly {
                    clock_anomalies = clock_anomalies + 1;
                }
                match eff.transition {
                    Some(tr) => {
                        if was_initialized {
                            changed = changed + 1;
                        } else {
                            initialized = initialized + 1;
                        }
                        transitions.push(Some(tr));
                    },
                    None => {
                        unchanged = unchanged + 1;
                        transitions.push(None);
                    },
                }
            },
            _ => {
                sample_failed = sample_failed + 1;
                transitions.push(None);
            },
        }
        i = i + 1;
    }
    CyclePlan {
        transitions,
        initialized,
        changed,
        unchanged,
        sample_failed,
        clock_anomalies,
    }
}

/// How many of the first `n` planned transitions the sink then failed to
/// take.
pub open spec fn count_persist_failed(
    trans: Seq<Option<Transition>>,
    ok: Seq<bool>,
    n: int,
) -> int
    decreases n,
{
    if n <= 0 {
        0
    } else {
        count_persist_failed(trans, ok, n - 1) + if trans[n - 1] is Some && !ok[n - 1] {
            1int
        } else {
            0int
        }
    }
}

/// Folds the sink's per-sensor persistence results into the final cycle
/// report. `persist_ok[i]` says whether the sink took sensor `i`'s
/// transition; it is read only where the plan holds one.
pub fn finish_report(plan: &CyclePlan, persist_ok: &Vec<bool>) -> (report: CycleReport)
    requires
        persist_ok@.len() == plan.transitions@.len(),
    ensures
        report.initialized == plan.initialized,
        report.changed == plan.changed,
        report.unchanged == plan.unchanged,
        report.sample_failed == plan.sample_failed,
        report.clock_anomalies == plan.clock_anomalies,
        report.persist_failed == count_persist_failed(
            plan.transitions@,
            persist_ok@,
            plan.transitions@.len() as int,
        ),
        report.persist_failed <= plan.transitions@.len(),
{
    let n = plan.transitions.len();
    let mut persist_failed: usize = 0;
    let mut i: usize = 0;
    while i < n
        invariant
            n == plan.transitions@.len(),
            persist_ok@.len() == n,
            i <= n,
            persist_failed == count_persist_failed(plan.transitions@, persist_ok@, i as int),
            persist_failed <= i,
        decreases n - i,
    {
        let owed = plan.transitions[i].is_some();
        if owed && !persist_ok[i] {
            persist_failed = persist_failed + 1;
        }
        i = i + 1;
    }
    CycleReport {
        initialized: plan.initialized,
        changed: plan.changed,
        unchanged: plan.unchanged,
        sample_failed: plan.sample_failed,
        persist_failed,
        clock_anomalies: plan.clock_anomalies,
    }
}

/// Isolation: a cycle step reads nothing of any other sensor. If two cycles
/// differ only in sensor `k`'s outcome — say `k`'s sampling always fails in
/// one of them — every other sensor's new state and emitted transition are
/// identical in both.
pub proof fn lemma_cycle_isolation(
    pre: Seq<SensorState>,
    outs_a: Seq<SampleOutcome>,
    outs_b: Seq<SampleOutcome>,
    ts: Seq<Timestamp>,
    k: int,
)
    requires
        outs_a.len() == outs_b.len(),
        forall|j: int| 0 <= j < outs_a.len() && j != k ==> outs_a[j] == outs_b[j],
    ensures
        forall|j: int|
            0 <= j < outs_a.len() && j != k ==> #[trigger] step_state(pre[j], outs_a[j], ts[j])
                == step_state(pre[j], outs_b[j], ts[j]),
        forall|j: int|
            0 <= j < outs_a.len() && j != k ==> #[trigger] step_transition(pre[j], outs_a[j], ts[j])
                == step_transition(pre[j], outs_b[j], ts[j]),
{
}

/// In a cycle where sampling fails for sensor `k` alone, the report charges
/// exactly one step to `sample_failed` — with the count partition of
/// `apply_cycle`, every one of the other sensors lands in a success class.
pub proof fn lemma_lone_failure_counts_once(
    pre: Seq<SensorState>,
    outs: Seq<SampleOutcome>,
    k: int,
    n: int,
)
    requires
        0 <= k < outs.len(),
        is_failed_step(outs[k]),
        forall|j: int| 0 <= j < outs.len() && j != k ==> (#[trigger] outs[j]) is Value,
        0 <= n <= outs.len(),
    ensures
        count_sample_failed(pre, outs, n) == if k < n {
            1int
        } else {
            0int
        },
    decreases n,
{
    if n > 0 {
        lemma_lone_failure_counts_once(pre, outs, k, n - 1);
    }
}

/// The state of one sensor after the first `n` steps of a sequence of
/// outcomes, each with its observation time.
pub open spec fn run_sensor(
    pre: SensorState,
    outs: Seq<SampleOutcome>,
    ts: Seq<Timestamp>,
    n: int,
) -> SensorState
    decreases n,
{
    if n <= 0 {
        pre
    } else {
        step_state(run_sensor(pre, outs, ts, n - 1), outs[n - 1], ts[n - 1])
    }
}

/// Failed samples leave a sensor untouched: after a prefix in which no sample
/// was accepted, the state is still exactly what it was.
pub proof fn lemma_failed_prefix_keeps_state(
    pre: SensorState,
    outs: Seq<SampleOutcome>,
    ts: Seq<Timestamp>,
    n: int,
)
    requires
        0 <= n,
        forall|j: int| 0 <= j < n ==> !((#[trigger] outs[j]) is Value),
    ensures
        run_sensor(pre, outs, ts, n) == pre,
    decreases n,
{
    if n > 0 {
        lemma_failed_prefix_keeps_state(pre, outs, ts, n - 1);
    }
}

/// For every sequence of outcomes fed to a fresh sensor, the first accepted
/// sample — wherever it falls — produces an `Initialization` transition and
/// leaves the previous pair unset.
pub proof fn lemma_first_accepted_sample_initializes(
    pre: SensorState,
    outs: Seq<SampleOutcome>,
    ts: Seq<Timestamp>,
    k: int,
)
    requires
        pre.wf(),
        !pre.initialized,
        0 <= k < outs.len(),
        forall|j: int| 0 <= j < k ==> !((#[trigger] outs[j]) is Value),
        outs[k] is Value,
    ensures
        ({
            let before = run_sensor(pre, outs, ts, k);
            let tr = step_transition(before, outs[k], ts[k]);
            &&& tr is Some
            &&& tr->0.kind == TransitionKind::Initialization
            &&& tr->0.previous_value is None
            &&& tr->0.previous_observed_at is None
            &&& step_state(before, outs[k], ts[k]).previous_value is None
            &&& step_state(before, outs[k], ts[k]).previous_observed_at is None
        }),
{
    lemma_failed_prefix_keeps_state(pre, outs, ts, k);
}

} // verus!
