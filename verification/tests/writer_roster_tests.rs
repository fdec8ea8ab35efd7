use dock_door_service::roster::{build_states, ConfigError};
use dock_door_service::sensor::{SensorConfig, SensorState, TransitionKind};
use dock_door_service::writer::{decode_record, encode_transition};

fn config(name: &str, endpoint: &str, tag: &str) -> SensorConfig {
    SensorConfig::new(name.to_string(), endpoint.to_string(), tag.to_string())
}

#[test]
fn change_transition_round_trips_through_the_record() {
    let mut s = SensorState::new(&config("D1", "10.0.0.5", "N7:0"));
    s.apply(1, 1_000);
    let tr = s.apply(0, 3_000).transition.unwrap();

    let record = encode_transition(&tr);
    assert_eq!(record.sensor_name, "D1");
    assert_eq!(record.new_value, 0);
    assert_eq!(record.observed_at, 3_000);
    assert_eq!(record.previous_value, Some(1));
    assert_eq!(record.previous_observed_at, Some(1_000));

    let back = decode_record(&record);
    assert_eq!(back.sensor_name, tr.sensor_name);
    assert!(matches!(back.kind, TransitionKind::Change));
    assert_eq!(back.new_value, tr.new_value);
    assert_eq!(back.observed_at, tr.observed_at);
    assert_eq!(back.previous_value, tr.previous_value);
    assert_eq!(back.previous_observed_at, tr.previous_observed_at);
}

#[test]
fn initialization_transition_round_trips_through_the_record() {
    let mut s = SensorState::new(&config("D2", "10.0.0.6", "N7:1"));
    let tr = s.apply(1, 500).transition.unwrap();

    let record = encode_transition(&tr);
    assert_eq!(record.previous_value, None);
    assert_eq!(record.previous_observed_at, None);

    let back = decode_record(&record);
    assert!(matches!(back.kind, TransitionKind::Initialization));
    assert_eq!(back.sensor_name, "D2");
    assert_eq!(back.new_value, 1);
    assert_eq!(back.observed_at, 500);
    assert_eq!(back.previous_value, None);
    assert_eq!(back.previous_observed_at, None);
}

#[test]
fn unique_roster_builds_one_fresh_state_per_entry() {
    let roster = vec![
        config("D1", "10.0.0.5", "N7:0"),
        config("D2", "10.0.0.5", "N7:1"),
        config("D1", "10.0.0.6", "N7:1"),
    ];
    let states = build_states(&roster).expect("distinct identity keys must build");
    assert_eq!(states.len(), 3);
    for (st, cfg) in states.iter().zip(roster.iter()) {
        assert!(!st.initialized);
        assert_eq!(st.config.name, cfg.name);
        assert_eq!(st.config.endpoint, cfg.endpoint);
        assert_eq!(st.config.tag_address, cfg.tag_address);
        assert_eq!(st.current_value, None);
    }
}

#[test]
fn duplicate_identity_is_a_config_error() {
    let roster = vec![
        config("D1", "10.0.0.5", "N7:0"),
        config("D2", "10.0.0.5", "N7:1"),
        config("D1", "10.0.0.9", "N7:0"),
    ];
    let err = build_states(&roster).expect_err("same (name, tag_address) twice must fail");
    let ConfigError::DuplicateIdentity { first, second } = err;
    assert_eq!(first, 0);
    assert_eq!(second, 2);
}

#[test]
fn empty_roster_builds_no_states() {
    let states = build_states(&Vec::new()).expect("an empty roster is trivially unique");
    assert!(states.is_empty());
}
