use plc_agent::config::SensorConfig;
use plc_agent::state::SharedState;

fn sensor(id: &str, label: &str, start: u16, end: u16) -> SensorConfig {
    SensorConfig {
        id: id.to_string(),
        label: label.to_string(),
        s_type: "sensor".to_string(),
        r_type: "REG".to_string(),
        start_register: start,
        register: "R".to_string(),
        end_register: end,
    }
}

fn ids(state: &SharedState) -> Vec<String> {
    state.registered_sensors.iter().map(|s| s.id.clone()).collect()
}

#[test]
fn new_registry_is_empty_and_running() {
    let state = SharedState::new();
    assert!(state.registered_sensors.is_empty());
    assert!(!state.paused_agent);
}

#[test]
fn add_appends_in_order() {
    let mut state = SharedState::new();
    state.add_sensor(sensor("a", "A", 1, 1));
    state.add_sensor(sensor("b", "B", 2, 1));
    assert_eq!(ids(&state), vec!["a", "b"]);
}

#[test]
fn add_with_existing_id_replaces_and_moves_last() {
    let mut state = SharedState::new();
    state.add_sensor(sensor("a", "A", 1, 1));
    state.add_sensor(sensor("b", "B", 2, 1));
    state.add_sensor(sensor("a", "A2", 9, 2));
    assert_eq!(ids(&state), vec!["b", "a"]);
    assert_eq!(state.registered_sensors[1].label, "A2");
    assert_eq!(state.registered_sensors[1].start_register, 9);
}

#[test]
fn remove_takes_out_the_id() {
    let mut state = SharedState::new();
    state.add_sensor(sensor("a", "A", 1, 1));
    state.add_sensor(sensor("b", "B", 2, 1));
    state.add_sensor(sensor("c", "C", 3, 1));
    state.remove_sensor("b");
    assert_eq!(ids(&state), vec!["a", "c"]);
}

#[test]
fn remove_absent_id_changes_nothing() {
    let mut state = SharedState::new();
    state.add_sensor(sensor("a", "A", 1, 1));
    state.remove_sensor("zzz");
    assert_eq!(ids(&state), vec!["a"]);
    assert_eq!(state.registered_sensors[0].label, "A");
    assert!(!state.paused_agent);
}

#[test]
fn remove_on_empty_registry() {
    let mut state = SharedState::new();
    state.remove_sensor("a");
    assert!(state.registered_sensors.is_empty());
}

#[test]
fn edit_in_place_keeps_position() {
    let mut state = SharedState::new();
    state.add_sensor(sensor("a", "A", 1, 1));
    state.add_sensor(sensor("b", "B", 2, 1));
    state.edit_sensor("a", "renamed".to_string(), 40, 3);
    assert_eq!(ids(&state), vec!["a", "b"]);
    let a = &state.registered_sensors[0];
    assert_eq!(a.label, "renamed");
    assert_eq!(a.start_register, 40);
    assert_eq!(a.end_register, 3);
    assert_eq!(a.register, "R");
    assert_eq!(state.registered_sensors[1].label, "B");
}

#[test]
fn edit_absent_id_changes_nothing() {
    let mut state = SharedState::new();
    state.add_sensor(sensor("a", "A", 1, 1));
    state.edit_sensor("x", "X".to_string(), 5, 5);
    assert_eq!(ids(&state), vec!["a"]);
    assert_eq!(state.registered_sensors[0].label, "A");
}

#[test]
fn cleanup_empties_and_keeps_pause() {
    let mut state = SharedState::new();
    state.add_sensor(sensor("a", "A", 1, 1));
    state.toggle_pause();
    state.cleanup_sensors();
    assert!(state.registered_sensors.is_empty());
    assert!(state.paused_agent);
}

#[test]
fn toggle_pause_flips_and_reports() {
    let mut state = SharedState::new();
    assert!(state.toggle_pause());
    assert!(state.paused_agent);
    assert!(!state.toggle_pause());
    assert!(!state.paused_agent);
}

#[test]
fn snapshot_copies_in_order() {
    let mut state = SharedState::new();
    state.add_sensor(sensor("a", "A", 1, 1));
    state.add_sensor(sensor("b", "B", 2, 1));
    let snap = state.snapshot();
    assert_eq!(snap.len(), 2);
    assert_eq!(snap[0].id, "a");
    assert_eq!(snap[1].id, "b");
    assert_eq!(snap[1].start_register, 2);
    state.cleanup_sensors();
    assert_eq!(snap.len(), 2);
}

#[test]
fn sensor_clone_keeps_fields() {
    let s = sensor("a", "A", 7, 2);
    let c = s.clone();
    assert_eq!(c.id, "a");
    assert_eq!(c.label, "A");
    assert_eq!(c.start_register, 7);
    assert_eq!(c.end_register, 2);
    assert_eq!(c.r_type, "REG");
}
