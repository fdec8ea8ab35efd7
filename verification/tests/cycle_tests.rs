use dock_door_service::cycle::{apply_cycle, finish_report};
use dock_door_service::roster::build_states;
use dock_door_service::sample::{classify_read, SampleOutcome, TagReadError};
use dock_door_service::sensor::{SensorConfig, SensorState, TransitionKind};

fn roster_of(names: &[&str]) -> Vec<SensorConfig> {
    names
        .iter()
        .enumerate()
        .map(|(i, n)| {
            SensorConfig::new(n.to_string(), "10.0.0.5".to_string(), format!("N7:{}", i))
        })
        .collect()
}

fn states_of(names: &[&str]) -> Vec<SensorState> {
    build_states(&roster_of(names)).expect("unique roster must build")
}

#[test]
fn classify_keeps_value_and_reasons_apart() {
    assert_eq!(classify_read(Ok(1)), SampleOutcome::Value(1));
    assert_eq!(classify_read(Err(TagReadError::Timeout)), SampleOutcome::Timeout);
    assert_eq!(
        classify_read(Err(TagReadError::NotReachable)),
        SampleOutcome::ReadFailed(TagReadError::NotReachable)
    );
    assert_eq!(
        classify_read(Err(TagReadError::ProtocolError(7))),
        SampleOutcome::ReadFailed(TagReadError::ProtocolError(7))
    );
}

#[test]
fn one_failing_sensor_does_not_touch_the_others() {
    let mut states = states_of(&["D1", "D2", "D3"]);
    let outcomes = vec![
        SampleOutcome::Value(1),
        SampleOutcome::ReadFailed(TagReadError::NotReachable),
        SampleOutcome::Value(0),
    ];
    let times = vec![100, 100, 100];

    let plan = apply_cycle(&mut states, &outcomes, &times);
    assert_eq!(plan.initialized, 2);
    assert_eq!(plan.changed, 0);
    assert_eq!(plan.unchanged, 0);
    assert_eq!(plan.sample_failed, 1);
    assert!(plan.transitions[0].is_some());
    assert!(plan.transitions[1].is_none());
    assert!(plan.transitions[2].is_some());
    assert!(states[0].initialized);
    assert!(!states[1].initialized);
    assert!(states[2].initialized);
}

#[test]
fn scenario_first_sample_initializes() {
    let mut states = states_of(&["D1"]);
    let plan = apply_cycle(&mut states, &vec![SampleOutcome::Value(1)], &vec![1_000]);
    assert_eq!(plan.initialized, 1);
    assert_eq!(plan.changed, 0);
    assert_eq!(plan.unchanged, 0);
    assert_eq!(plan.sample_failed, 0);
    let tr = plan.transitions[0].as_ref().expect("one initialization transition");
    assert!(matches!(tr.kind, TransitionKind::Initialization));
    assert_eq!(tr.sensor_name, "D1");
    assert_eq!(states[0].current_value, Some(1));
}

#[test]
fn scenario_equal_second_sample_changes_nothing() {
    let mut states = states_of(&["D1"]);
    apply_cycle(&mut states, &vec![SampleOutcome::Value(1)], &vec![1_000]);

    let plan = apply_cycle(&mut states, &vec![SampleOutcome::Value(1)], &vec![2_000]);
    assert_eq!(plan.initialized, 0);
    assert_eq!(plan.changed, 0);
    assert_eq!(plan.unchanged, 1);
    assert!(plan.transitions[0].is_none());
    assert_eq!(states[0].current_value, Some(1));
    assert_eq!(states[0].current_observed_at, Some(1_000));
    assert_eq!(states[0].previous_value, None);
    assert_eq!(states[0].previous_observed_at, None);
}

#[test]
fn scenario_third_sample_records_the_change() {
    let t0 = 1_000;
    let t1 = 2_000;
    let t2 = 3_000;
    let mut states = states_of(&["D1"]);
    apply_cycle(&mut states, &vec![SampleOutcome::Value(1)], &vec![t0]);
    apply_cycle(&mut states, &vec![SampleOutcome::Value(1)], &vec![t1]);

    let plan = apply_cycle(&mut states, &vec![SampleOutcome::Value(0)], &vec![t2]);
    assert_eq!(plan.changed, 1);
    let tr = plan.transitions[0].as_ref().expect("one change transition");
    assert!(matches!(tr.kind, TransitionKind::Change));
    assert_eq!(tr.previous_value, Some(1));
    assert_eq!(tr.previous_observed_at, Some(t0));
    assert_eq!(tr.new_value, 0);
    assert_eq!(tr.observed_at, t2);
}

#[test]
fn scenario_timeout_counts_and_leaves_state_untouched() {
    let mut states = states_of(&["D1"]);
    apply_cycle(&mut states, &vec![SampleOutcome::Value(1)], &vec![1_000]);

    let plan = apply_cycle(&mut states, &vec![SampleOutcome::Timeout], &vec![2_000]);
    assert_eq!(plan.sample_failed, 1);
    assert_eq!(plan.initialized, 0);
    assert_eq!(plan.changed, 0);
    assert_eq!(plan.unchanged, 0);
    assert!(plan.transitions[0].is_none(), "nothing is owed to the sink");
    assert!(states[0].initialized);
    assert_eq!(states[0].current_value, Some(1));
    assert_eq!(states[0].current_observed_at, Some(1_000));
    assert_eq!(states[0].previous_value, None);
    assert_eq!(states[0].previous_observed_at, None);

    let report = finish_report(&plan, &vec![true]);
    assert_eq!(report.sample_failed, 1);
    assert_eq!(report.persist_failed, 0);
}

#[test]
fn persist_failures_are_counted_only_where_owed() {
    let mut states = states_of(&["D1", "D2", "D3"]);
    let outcomes = vec![
        SampleOutcome::Value(1),
        SampleOutcome::Timeout,
        SampleOutcome::Value(0),
    ];
    let plan = apply_cycle(&mut states, &outcomes, &vec![100, 100, 100]);

    // Sink refuses everything: only the two owed transitions count as failed.
    let report = finish_report(&plan, &vec![false, false, false]);
    assert_eq!(report.persist_failed, 2);
    assert_eq!(report.sample_failed, 1);
    assert_eq!(report.initialized, 2);

    // Sink takes everything.
    let report_ok = finish_report(&plan, &vec![true, true, true]);
    assert_eq!(report_ok.persist_failed, 0);
}

#[test]
fn cycle_flags_clock_regression() {
    let mut states = states_of(&["D1"]);
    apply_cycle(&mut states, &vec![SampleOutcome::Value(1)], &vec![5_000]);

    let plan = apply_cycle(&mut states, &vec![SampleOutcome::Value(0)], &vec![4_000]);
    assert_eq!(plan.clock_anomalies, 1);
    assert_eq!(plan.changed, 1);
    assert_eq!(states[0].current_value, Some(0));
}
