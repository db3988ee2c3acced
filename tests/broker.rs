use std::collections::HashSet;

use task_broker::schema::{FieldType, PayloadField, TaskPayloadSchema};
use task_broker::store::{BrokerState, DEFAULT_TASK_TYPE, MISSING_OUTCOME_MESSAGE};
use task_broker::task::{SubmitResultRequest, Task, TaskError, TaskStatus};

fn json(text: &str) -> serde_json::Value {
    serde_json::from_str(text).unwrap()
}

fn report(output: Option<serde_json::Value>, error: Option<&str>) -> SubmitResultRequest {
    SubmitResultRequest { output, error: error.map(|e| e.to_string()) }
}

#[test]
fn create_new() {
    let new_task = Task::new("change image", json(r#"{"data" : "Hello from value"}"#));
    assert_eq!(new_task.task_type, "change image");
}

#[test]
fn created_task_starts_pending_and_unstamped() {
    let mut state = BrokerState::new();
    let t = state.create_task("echo", json(r#"{"x":1}"#)).unwrap();
    assert_eq!(t.status, TaskStatus::Pending);
    assert!(t.started_at.is_none());
    assert!(t.completed_at.is_none());
    assert!(t.result.is_none());
    assert_eq!(t.payload, json(r#"{"x":1}"#));
    let stored = state.get_task(t.id).unwrap();
    assert_eq!(stored.status, TaskStatus::Pending);
    assert_eq!(stored.task_type, "echo");
}

#[test]
fn claim_moves_task_to_running_once() {
    let mut state = BrokerState::new();
    let t = state.create_task("echo", json("1")).unwrap();
    let claimed = state.get_next_task().unwrap();
    assert_eq!(claimed.id, t.id);
    assert_eq!(claimed.status, TaskStatus::Running);
    assert!(claimed.started_at.is_some());
    assert!(claimed.completed_at.is_none());
    assert_eq!(state.get_task(t.id).unwrap().status, TaskStatus::Running);
    assert!(state.get_next_task().is_none());
}

#[test]
fn two_claims_give_two_tasks() {
    let mut state = BrokerState::new();
    state.create_task("a", json("1")).unwrap();
    state.create_task("b", json("2")).unwrap();
    let first = state.get_next_task().unwrap();
    let second = state.get_next_task().unwrap();
    assert_ne!(first.id, second.id);
}

#[test]
fn completion_is_recorded_once() {
    let mut state = BrokerState::new();
    let t = state.create_task("echo", json("1")).unwrap();
    state.get_next_task().unwrap();
    let done = state.complete_task(t.id, report(Some(json(r#"{"ok":true}"#)), None)).unwrap();
    assert_eq!(done.status, TaskStatus::Completed);
    assert!(done.completed_at.is_some());
    let result = done.result.clone().unwrap();
    assert_eq!(result.output, Some(json(r#"{"ok":true}"#)));
    assert!(result.error.is_none());
    let again = state.complete_task(t.id, report(None, Some("late")));
    assert_eq!(again.unwrap_err(), TaskError::NotRunning);
    let stored = state.get_task(t.id).unwrap();
    assert_eq!(stored.status, TaskStatus::Completed);
    assert_eq!(stored.result.clone().unwrap().output, Some(json(r#"{"ok":true}"#)));
}

#[test]
fn failure_records_error_only() {
    let mut state = BrokerState::new();
    let t = state.create_task("echo", json("1")).unwrap();
    state.get_next_task().unwrap();
    let failed = state.complete_task(t.id, report(None, Some("boom"))).unwrap();
    assert_eq!(failed.status, TaskStatus::Failed);
    assert!(failed.completed_at.is_some());
    let result = failed.result.unwrap();
    assert!(result.output.is_none());
    assert_eq!(result.error.as_deref(), Some("boom"));
}

#[test]
fn error_takes_precedence_over_output() {
    let mut state = BrokerState::new();
    let t = state.create_task("echo", json("1")).unwrap();
    state.get_next_task().unwrap();
    let resp = state.submit_result(t.id, report(Some(json("5")), Some("bad"))).unwrap();
    assert_eq!(resp.status, TaskStatus::Failed);
    let result = state.get_task(t.id).unwrap().result.clone().unwrap();
    assert!(result.output.is_none());
    assert_eq!(result.error.as_deref(), Some("bad"));
}

#[test]
fn empty_report_fails_task() {
    let mut state = BrokerState::new();
    let t = state.create_task("echo", json("1")).unwrap();
    state.get_next_task().unwrap();
    let resp = state.submit_result(t.id, report(None, None)).unwrap();
    assert_eq!(resp.status, TaskStatus::Failed);
    let result = state.get_task(t.id).unwrap().result.clone().unwrap();
    assert_eq!(result.error.as_deref(), Some(MISSING_OUTCOME_MESSAGE));
    assert_eq!(MISSING_OUTCOME_MESSAGE, "Failed to process task");
}

#[test]
fn report_on_pending_task_is_refused() {
    let mut state = BrokerState::new();
    let t = state.create_task("echo", json("1")).unwrap();
    let r = state.complete_task(t.id, report(Some(json("1")), None));
    assert_eq!(r.unwrap_err(), TaskError::NotRunning);
    assert_eq!(state.get_task(t.id).unwrap().status, TaskStatus::Pending);
    assert_eq!(state.get_next_task().unwrap().id, t.id);
}

#[test]
fn claims_come_last_in_first_out() {
    let mut state = BrokerState::new();
    let t1 = state.create_task("t", json("1")).unwrap();
    let t2 = state.create_task("t", json("2")).unwrap();
    let t3 = state.create_task("t", json("3")).unwrap();
    assert_eq!(state.get_next_task().unwrap().id, t3.id);
    assert_eq!(state.get_next_task().unwrap().id, t2.id);
    assert_eq!(state.get_next_task().unwrap().id, t1.id);
    assert!(state.get_next_task().is_none());
}

#[test]
fn unknown_id_is_not_found() {
    let mut state = BrokerState::new();
    let r = state.submit_result(42, report(Some(json("1")), None));
    assert_eq!(r.unwrap_err(), TaskError::NotFound);
    assert_eq!(state.get_task(42).unwrap_err(), TaskError::NotFound);
    assert!(state.get_next_task().is_none());
}

#[test]
fn hundred_tasks_each_claimed_once() {
    let mut state = BrokerState::new();
    let mut created = HashSet::new();
    let mut claimed = HashSet::new();
    for i in 0..100 {
        let t = state.create_task("echo", json(&i.to_string())).unwrap();
        assert!(created.insert(t.id));
        if i % 3 == 0 {
            let c = state.get_next_task().unwrap();
            assert!(claimed.insert(c.id));
        }
    }
    while let Some(c) = state.get_next_task() {
        assert!(claimed.insert(c.id));
    }
    assert_eq!(claimed, created);
    for id in &created {
        assert_eq!(state.get_task(*id).unwrap().status, TaskStatus::Running);
    }
}

#[test]
fn duplicate_id_is_refused() {
    let mut state = BrokerState::new();
    let a = Task::with_id(7, "t", json("1"), 100);
    let b = Task::with_id(7, "u", json("2"), 200);
    assert_eq!(state.insert_task(a).unwrap().id, 7);
    assert_eq!(state.insert_task(b).unwrap_err(), TaskError::DuplicateId);
    assert_eq!(state.get_task(7).unwrap().task_type, "t");
    assert_eq!(state.get_task(7).unwrap().created_at, 100);
}

#[test]
fn request_body_names_type_and_payload() {
    let mut state = BrokerState::new();
    let t = state
        .create_task_from_request(&json(r#"{"task_type":"echo","payload":{"x":1}}"#))
        .unwrap();
    assert_eq!(t.task_type, "echo");
    assert_eq!(t.payload, json(r#"{"x":1}"#));
    assert_eq!(t.status, TaskStatus::Pending);
    assert_eq!(state.get_next_task().unwrap().id, t.id);
}

#[test]
fn request_body_defaults_fill_in() {
    let mut state = BrokerState::new();
    let t = state.create_task_from_request(&json("{}")).unwrap();
    assert_eq!(t.task_type, "default_task");
    assert_eq!(DEFAULT_TASK_TYPE, "default_task");
    assert_eq!(t.payload, serde_json::Value::Null);
    let t = state.create_task_from_request(&json(r#"{"task_type":7,"payload":[1]}"#)).unwrap();
    assert_eq!(t.task_type, "default_task");
    assert_eq!(t.payload, json("[1]"));
}

#[test]
fn schema_field_names_must_differ() {
    assert!(schema("echo", "d").has_distinct_fields());
    let mut twice = schema("echo", "d");
    let again = twice.fields[0].clone();
    twice.fields.push(again);
    assert!(!twice.has_distinct_fields());
    let mut two = schema("echo", "d");
    let mut other = two.fields[0].clone();
    other.0 = "size".to_string();
    two.fields.push(other);
    assert!(two.has_distinct_fields());
}

fn schema(task_type: &str, description: &str) -> TaskPayloadSchema {
    TaskPayloadSchema {
        task_type: task_type.to_string(),
        description: description.to_string(),
        fields: vec![(
            "image".to_string(),
            PayloadField {
                field_type: FieldType::String,
                required: true,
                description: Some("Base 64 Encoded image".to_string()),
                example: None,
            },
        )],
    }
}

#[test]
fn schema_registry_upserts_by_type() {
    let mut state = BrokerState::new();
    assert!(state.list_task_types().is_empty());
    assert_eq!(state.get_payload_schema("echo").unwrap_err(), TaskError::NotFound);
    let stored = state.set_payload_schema(schema("echo", "first")).description.clone();
    assert_eq!(stored, "first");
    state.set_payload_schema(schema("validate_image", "images"));
    state.set_payload_schema(schema("echo", "second"));
    let mut types = state.list_task_types();
    types.sort();
    assert_eq!(types, vec!["echo".to_string(), "validate_image".to_string()]);
    assert_eq!(state.get_payload_schema("echo").unwrap().description, "second");
    assert_eq!(state.get_payload_schema("validate_image").unwrap().fields.len(), 1);
}
