use std::io::Cursor;

use base64::Engine;
use task_broker::handler::{
    EchoHandler, HandlerRegistry, HandlerResult, TaskHandler, ValidateImageHandler,
};
use task_broker::store::BrokerState;
use task_broker::task::{Task, TaskStatus};
use task_broker::worker::{PollStep, Worker, WorkerConfig};

fn json(text: &str) -> serde_json::Value {
    serde_json::from_str(text).unwrap()
}

fn png_base64(width: u32, height: u32) -> String {
    let img = image::DynamicImage::new_rgb8(width, height);
    let mut bytes = Cursor::new(Vec::new());
    img.write_to(&mut bytes, image::ImageFormat::Png).unwrap();
    base64::engine::general_purpose::STANDARD.encode(bytes.into_inner())
}

fn image_payload(encoded: &str) -> serde_json::Value {
    let mut map = serde_json::Map::new();
    map.insert("image".to_string(), serde_json::Value::String(encoded.to_string()));
    serde_json::Value::Object(map)
}

fn registry() -> HandlerRegistry {
    let mut registry = HandlerRegistry::new();
    registry.register_handler("echo", TaskHandler::Echo(EchoHandler));
    registry.register_handler("validate_image", TaskHandler::ValidateImage(ValidateImageHandler));
    registry
}

fn worker() -> Worker {
    Worker::new(WorkerConfig::from_values(None, None, None), registry())
}

#[test]
fn echo_round_trip_completes_task() {
    let mut state = BrokerState::new();
    let t = state.create_task("echo", json(r#"{"x":1}"#)).unwrap();
    let claimed = state.get_next_task().unwrap();
    assert_eq!(claimed.id, t.id);
    let req = worker().process_task(&claimed).unwrap();
    assert_eq!(req.output, Some(json(r#"{"echoed":{"x":1}}"#)));
    assert!(req.error.is_none());
    state.complete_task(claimed.id, req).unwrap();
    let stored = state.get_task(t.id).unwrap();
    assert_eq!(stored.status, TaskStatus::Completed);
    assert_eq!(stored.result.clone().unwrap().output, Some(json(r#"{"echoed":{"x":1}}"#)));
    assert_eq!(serde_json::to_string(&stored.result.clone().unwrap().output.unwrap()).unwrap(),
        r#"{"echoed":{"x":1}}"#);
}

#[test]
fn small_image_fails_with_resolution_message() {
    let mut state = BrokerState::new();
    let t = state.create_task("validate_image", image_payload(&png_base64(50, 50))).unwrap();
    let claimed = state.get_next_task().unwrap();
    let req = worker().process_task(&claimed).unwrap();
    assert!(req.output.is_none());
    assert_eq!(req.error.as_deref(), Some("Image resolution too low : 50 50"));
    state.complete_task(claimed.id, req).unwrap();
    let stored = state.get_task(t.id).unwrap();
    assert_eq!(stored.status, TaskStatus::Failed);
}

#[test]
fn large_image_is_reported_valid() {
    let task = Task::new("validate_image", image_payload(&png_base64(120, 130)));
    let r = ValidateImageHandler.handle(&task);
    assert!(r.error.is_none());
    assert_eq!(r.output, Some(json(r#"{"valid":true,"width":120,"height":130}"#)));
}

#[test]
fn one_short_side_is_too_small() {
    let r = ValidateImageHandler::check_dimensions(99, 100);
    assert!(r.output.is_none());
    assert_eq!(r.error.as_deref(), Some("Image resolution too low : 99 100"));
    let r = ValidateImageHandler::check_dimensions(100, 4000000000);
    assert_eq!(r.output, Some(json(r#"{"valid":true,"width":100,"height":4000000000}"#)));
}

#[test]
fn undecodable_size_fails() {
    let r = ValidateImageHandler::check_size(None);
    assert!(r.output.is_none());
    assert_eq!(r.error.as_deref(), Some("image decode failed"));
}

#[test]
fn malformed_base64_fails_task() {
    let mut state = BrokerState::new();
    let t = state.create_task("validate_image", image_payload("not base64 at all!")).unwrap();
    let claimed = state.get_next_task().unwrap();
    let req = worker().process_task(&claimed).unwrap();
    assert_eq!(req.error.as_deref(), Some("Base 64 decode failed"));
    let done = state.complete_task(t.id, req).unwrap();
    assert_eq!(done.status, TaskStatus::Failed);
    let result = done.result.unwrap();
    assert!(result.output.is_none());
    assert!(!result.error.unwrap().is_empty());
}

#[test]
fn bytes_that_are_no_image_fail() {
    let encoded = base64::engine::general_purpose::STANDARD.encode(b"hello world");
    let task = Task::new("validate_image", image_payload(&encoded));
    let r = ValidateImageHandler.handle(&task);
    assert!(r.output.is_none());
    assert_eq!(r.error.as_deref(), Some("image decode failed"));
}

#[test]
fn missing_image_member_fails() {
    let task = Task::new("validate_image", json(r#"{"picture":"abc"}"#));
    let r = ValidateImageHandler.handle(&task);
    assert!(r.output.is_none());
    assert_eq!(r.error.as_deref(), Some("Missing image field"));
    let task = Task::new("validate_image", json(r#"{"image":5}"#));
    assert_eq!(ValidateImageHandler.handle(&task).error.as_deref(), Some("Missing image field"));
}

#[test]
fn echo_wraps_payload() {
    let task = Task::new("echo", json(r#"[1,"two",null]"#));
    let r = EchoHandler.handle(&task);
    assert_eq!(r.output, Some(json(r#"{"echoed":[1,"two",null]}"#)));
    assert!(r.error.is_none());
}

#[test]
fn handler_result_constructors() {
    let ok = HandlerResult::ok(json("3"));
    assert_eq!(ok.output, Some(json("3")));
    assert!(ok.error.is_none());
    let err = HandlerResult::err("no".to_string());
    assert!(err.output.is_none());
    assert_eq!(err.error.as_deref(), Some("no"));
}

#[test]
fn routing_miss_reports_nothing() {
    let task = Task::new("resize", json("{}"));
    assert!(worker().process_task(&task).is_none());
}

#[test]
fn registering_again_replaces_handler() {
    let mut registry = registry();
    assert_eq!(registry.get("echo"), Some(TaskHandler::Echo(EchoHandler)));
    registry.register_handler("echo", TaskHandler::ValidateImage(ValidateImageHandler));
    assert_eq!(registry.get("echo"), Some(TaskHandler::ValidateImage(ValidateImageHandler)));
    assert_eq!(registry.get("other"), None);
    let w = Worker::new(WorkerConfig::from_values(None, None, None), registry);
    let req = w.process_task(&Task::new("echo", json("{}"))).unwrap();
    assert_eq!(req.error.as_deref(), Some("Missing image field"));
}

#[test]
fn poll_status_is_classified() {
    assert_eq!(Worker::poll_step(204), PollStep::NoWork);
    assert_eq!(Worker::poll_step(200), PollStep::Received);
    assert_eq!(Worker::poll_step(500), PollStep::Refused);
    assert_eq!(Worker::poll_step(404), PollStep::Refused);
}

#[test]
fn config_defaults_and_overrides() {
    let c = WorkerConfig::from_values(None, None, None);
    assert_eq!(c.broker_url, "http://localhost:3000");
    assert_eq!(c.worker_name, "default-worker");
    assert_eq!(c.poll_interval_ms, 1000);
    let c = WorkerConfig::from_values(
        Some("http://b:1".to_string()),
        Some("w1".to_string()),
        Some("250".to_string()),
    );
    assert_eq!(c.broker_url, "http://b:1");
    assert_eq!(c.worker_name, "w1");
    assert_eq!(c.poll_interval_ms, 250);
    let c = WorkerConfig::from_values(None, None, Some("soon".to_string()));
    assert_eq!(c.poll_interval_ms, 1000);
}

#[test]
fn worker_urls() {
    let w = Worker::new(WorkerConfig::from_values(Some("http://b".to_string()), None, None), registry());
    assert_eq!(w.next_task_url(), "http://b/task/next");
    assert_eq!(w.result_url(0x1234), "http://b/task/00000000-0000-0000-0000-000000001234/result");
}

#[test]
fn handler_schemas_document_their_payloads() {
    let echo = EchoHandler::schema();
    assert_eq!(echo.task_type, "echo");
    assert_eq!(echo.fields.len(), 1);
    assert_eq!(echo.fields[0].0, "echo");
    assert!(echo.fields[0].1.required);
    assert_eq!(echo.fields[0].1.example, Some(json(r#""No worries , just testing things""#)));
    let image = ValidateImageHandler::schema();
    assert_eq!(image.task_type, "validate_image");
    assert_eq!(image.fields[0].0, "image");
    assert_eq!(image.fields[0].1.description.as_deref(), Some("Base 64 Encoded image"));
}

#[test]
fn poll_interval_parsing_edges() {
    assert_eq!(WorkerConfig::from_values(None, None, Some("+7".to_string())).poll_interval_ms, 7);
    assert_eq!(
        WorkerConfig::from_values(None, None, Some("18446744073709551615".to_string())).poll_interval_ms,
        18446744073709551615
    );
    assert_eq!(
        WorkerConfig::from_values(None, None, Some("18446744073709551616".to_string())).poll_interval_ms,
        1000
    );
    assert_eq!(WorkerConfig::from_values(None, None, Some(" 5".to_string())).poll_interval_ms, 1000);
    assert_eq!(WorkerConfig::from_values(None, None, Some("".to_string())).poll_interval_ms, 1000);
}

#[test]
fn result_url_spells_full_uuid() {
    let w = Worker::new(WorkerConfig::from_values(Some("h".to_string()), None, None), registry());
    assert_eq!(
        w.result_url(0x0123456789abcdef0123456789abcdef),
        "h/task/01234567-89ab-cdef-0123-456789abcdef/result"
    );
}
