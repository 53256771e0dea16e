use std::collections::HashMap;

use plc_agent::agent::{dispatch, Action, Notice};
use plc_agent::config::{ChEvent, SensorConfig};
use plc_agent::plc_io::{DeviceRequest, STOP_REGISTER, STOP_VALUE};
use plc_agent::state::SharedState;

fn add(id: &str, label: &str, start: u16, end: u16) -> ChEvent {
    ChEvent::AddSensor {
        id: id.to_string(),
        label: label.to_string(),
        start_register: start,
        register: "R".to_string(),
        end_register: end,
        s_type: "sensor".to_string(),
        r_type: "REG".to_string(),
    }
}

fn edit(id: &str, label: &str, start: u16, end: u16) -> ChEvent {
    ChEvent::EditSensor {
        id: id.to_string(),
        label: label.to_string(),
        start_register: start,
        register: "R".to_string(),
        end_register: end,
        s_type: "general".to_string(),
        r_type: "COIL".to_string(),
    }
}

fn remove(id: &str) -> ChEvent {
    ChEvent::RemoveSensor { id: id.to_string() }
}

fn write(reg: u16, val: u16) -> ChEvent {
    ChEvent::Write { reg, val, r_type: "REG".to_string() }
}

fn ids(state: &SharedState) -> Vec<String> {
    state.registered_sensors.iter().map(|s| s.id.clone()).collect()
}

fn is_notice(a: &Action, n: Notice) -> bool {
    matches!(a, Action::Notify(m) if *m == n)
}

#[test]
fn pause_blocks_write_until_resumed() {
    let mut state = SharedState::new();
    let a = dispatch(&mut state, ChEvent::PauseAgent);
    assert!(is_notice(&a, Notice::Paused));
    let w = dispatch(&mut state, write(10, 1));
    assert!(is_notice(&w, Notice::Locked));
    if let Action::Notify(n) = w {
        assert_eq!(n.topic(), "agent_locked");
        assert_eq!(n.message(), "Agent is locked");
    }
    let r = dispatch(&mut state, ChEvent::PauseAgent);
    assert!(is_notice(&r, Notice::Resumed));
    let w2 = dispatch(&mut state, write(10, 1));
    match w2 {
        Action::Device(req) => {
            assert_eq!(req, DeviceRequest::WriteSingleRegister { address: 10, value: 1 })
        }
        other => panic!("expected a device write, got {:?}", other),
    }
}

#[test]
fn notice_texts() {
    assert_eq!(Notice::Paused.topic(), "agent_status");
    assert_eq!(Notice::Paused.message(), "Agent paused");
    assert_eq!(Notice::Resumed.topic(), "agent_status");
    assert_eq!(Notice::Resumed.message(), "Agent resumed");
    assert_eq!(Notice::Locked.topic(), "agent_locked");
}

#[test]
fn paused_agent_rejects_every_gated_command() {
    let mut state = SharedState::new();
    dispatch(&mut state, add("s1", "one", 1, 1));
    dispatch(&mut state, ChEvent::PauseAgent);
    let gated = vec![
        ChEvent::Stop,
        write(3, 4),
        add("s2", "two", 2, 1),
        remove("s1"),
        edit("s1", "changed", 9, 9),
        ChEvent::CleanUp,
    ];
    for ev in gated {
        let a = dispatch(&mut state, ev);
        assert!(is_notice(&a, Notice::Locked));
        assert_eq!(ids(&state), vec!["s1"]);
        assert_eq!(state.registered_sensors[0].label, "one");
        assert!(state.paused_agent);
    }
}

#[test]
fn health_check_answers_while_paused() {
    let mut state = SharedState::new();
    dispatch(&mut state, add("s1", "one", 1, 1));
    dispatch(&mut state, ChEvent::PauseAgent);
    match dispatch(&mut state, ChEvent::HealthCheck) {
        Action::ReportHealth(v) => {
            assert_eq!(v.len(), 1);
            assert_eq!(v[0].id, "s1");
        }
        other => panic!("expected a health report, got {:?}", other),
    }
}

#[test]
fn wait_does_nothing_paused_or_not() {
    let mut state = SharedState::new();
    assert!(matches!(dispatch(&mut state, ChEvent::Wait), Action::Nothing));
    dispatch(&mut state, ChEvent::PauseAgent);
    assert!(matches!(dispatch(&mut state, ChEvent::Wait), Action::Nothing));
}

#[test]
fn stop_writes_the_stop_pattern() {
    let mut state = SharedState::new();
    match dispatch(&mut state, ChEvent::Stop) {
        Action::Device(req) => {
            assert_eq!(req, DeviceRequest::WriteSingleRegister { address: 0, value: 8 });
            assert_eq!(STOP_REGISTER, 0);
            assert_eq!(STOP_VALUE, 0b00001000);
        }
        other => panic!("expected a device write, got {:?}", other),
    }
}

#[test]
fn write_to_coil_coerces_value() {
    let mut state = SharedState::new();
    let coil = |val: u16| ChEvent::Write { reg: 5, val, r_type: "COIL".to_string() };
    match dispatch(&mut state, coil(0)) {
        Action::Device(req) => assert_eq!(req, DeviceRequest::WriteSingleCoil { address: 5, on: false }),
        other => panic!("unexpected {:?}", other),
    }
    match dispatch(&mut state, coil(7)) {
        Action::Device(req) => assert_eq!(req, DeviceRequest::WriteSingleCoil { address: 5, on: true }),
        other => panic!("unexpected {:?}", other),
    }
}

#[test]
fn edit_command_moves_entry_last() {
    let mut state = SharedState::new();
    dispatch(&mut state, add("a", "A", 1, 1));
    dispatch(&mut state, add("b", "B", 2, 1));
    let a = dispatch(&mut state, edit("a", "A2", 30, 4));
    assert!(matches!(a, Action::Nothing));
    assert_eq!(ids(&state), vec!["b", "a"]);
    let e = &state.registered_sensors[1];
    assert_eq!(e.label, "A2");
    assert_eq!(e.start_register, 30);
    assert_eq!(e.end_register, 4);
    assert_eq!(e.s_type, "general");
    assert_eq!(e.r_type, "COIL");
}

#[test]
fn edit_command_on_absent_id_adds_it() {
    let mut state = SharedState::new();
    dispatch(&mut state, edit("n", "N", 1, 1));
    assert_eq!(ids(&state), vec!["n"]);
}

#[test]
fn remove_absent_id_is_a_quiet_noop() {
    let mut state = SharedState::new();
    dispatch(&mut state, add("a", "A", 1, 1));
    let a = dispatch(&mut state, remove("ghost"));
    assert!(matches!(a, Action::Nothing));
    assert_eq!(ids(&state), vec!["a"]);
}

#[test]
fn clean_up_empties_registry() {
    let mut state = SharedState::new();
    dispatch(&mut state, add("a", "A", 1, 1));
    dispatch(&mut state, add("b", "B", 1, 1));
    assert!(matches!(dispatch(&mut state, ChEvent::CleanUp), Action::Nothing));
    assert!(state.registered_sensors.is_empty());
}

#[test]
fn registry_commands_match_keyed_model() {
    let mut state = SharedState::new();
    let mut model: HashMap<String, (String, u16, u16)> = HashMap::new();
    let script = vec![
        ("add", "a", "A", 1u16, 1u16),
        ("add", "b", "B", 2, 1),
        ("add", "a", "A-again", 3, 2),
        ("edit", "b", "B2", 4, 1),
        ("remove", "c", "", 0, 0),
        ("add", "c", "C", 5, 1),
        ("remove", "a", "", 0, 0),
        ("edit", "d", "D", 6, 1),
        ("remove", "a", "", 0, 0),
    ];
    for (op, id, label, start, end) in script {
        let ev = match op {
            "add" => add(id, label, start, end),
            "edit" => edit(id, label, start, end),
            _ => remove(id),
        };
        match op {
            "remove" => {
                model.remove(id);
            }
            _ => {
                model.insert(id.to_string(), (label.to_string(), start, end));
            }
        }
        dispatch(&mut state, ev);
        let mut got: HashMap<String, (String, u16, u16)> = HashMap::new();
        for s in &state.registered_sensors {
            let prev = got.insert(s.id.clone(), (s.label.clone(), s.start_register, s.end_register));
            assert!(prev.is_none(), "duplicate id {}", s.id);
        }
        assert_eq!(got, model);
    }
}

#[test]
fn health_check_reports_snapshot() {
    let mut state = SharedState::new();
    dispatch(&mut state, add("x", "X", 1, 1));
    match dispatch(&mut state, ChEvent::HealthCheck) {
        Action::ReportHealth(v) => {
            let ids: Vec<&str> = v.iter().map(|s: &SensorConfig| s.id.as_str()).collect();
            assert_eq!(ids, vec!["x"]);
        }
        other => panic!("unexpected {:?}", other),
    }
}
