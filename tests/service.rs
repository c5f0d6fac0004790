use scheduler::config::{Config, LogLevel};
use scheduler::model::{ExecuteType, ReqCreateApiExecute};
use scheduler::response::{AppError, WebResponse};
use scheduler::worker::WorkerConfig;

#[test]
fn log_level_names_in_any_case() {
    assert_eq!(LogLevel::from_name("debug"), LogLevel::Debug);
    assert_eq!(LogLevel::from_name("Trace"), LogLevel::Trace);
    assert_eq!(LogLevel::from_name("WARN"), LogLevel::Warn);
    assert_eq!(LogLevel::from_name("error"), LogLevel::Error);
    assert_eq!(LogLevel::from_name("verbose"), LogLevel::Info);
    assert_eq!(LogLevel::from_upper(&"debug".to_string()), LogLevel::Info);
}

#[test]
fn token_lifetimes() {
    assert_eq!(Config::access_ttl_seconds(None), Some(900));
    assert_eq!(Config::access_ttl_seconds(Some(2)), Some(120));
    assert_eq!(Config::refresh_ttl_seconds(None), Some(604_800));
    assert_eq!(Config::refresh_ttl_seconds(Some(1)), Some(86_400));
    assert_eq!(Config::refresh_ttl_seconds(Some(30_000)), None);
    assert_eq!(Config::access_ttl_seconds(Some(i32::MIN)), None);
}

#[test]
fn error_statuses_and_body() {
    assert_eq!(AppError::AuthError("a".to_string()).status(), 401);
    assert_eq!(AppError::InternalError("b".to_string()).status(), 500);
    assert_eq!(AppError::NotFound("c".to_string()).status(), 404);
    let body = AppError::BadRequest("bad input".to_string()).into_body("2024-01-01T00:00:00Z".to_string());
    assert!(!body.success);
    assert_eq!(body.status, 400);
    assert_eq!(body.message, "bad input");
    assert_eq!(body.path, "");
    assert!(body.data.is_none());
}

#[test]
fn success_envelopes() {
    let r = WebResponse::ok("/x".to_string(), "fine".to_string(), "t".to_string(), 5u8);
    assert!(r.success);
    assert_eq!(r.status, 200);
    assert_eq!(r.data, Some(5));
    let c = WebResponse::created("/y".to_string(), "made".to_string(), "t".to_string(), "d");
    assert_eq!(c.status, 201);
    assert_eq!(c.path, "/y");
}

#[test]
fn worker_config_needs_an_executor() {
    assert!(WorkerConfig::new(0, 1000, 300).is_none());
    assert!(WorkerConfig::new(2, 1000, 0).is_none());
    let c = WorkerConfig::new(2, 500, 300).unwrap();
    assert_eq!(c.lease_timeout_secs, 300);
    assert_eq!(c.concurrency, 2);
    assert_eq!(c.poll_interval_ms, 500);
    assert_eq!(c.max_attempts, 10);
}

#[test]
fn execute_request_into_model() {
    let req = ReqCreateApiExecute {
        name: "every hour".to_string(),
        is_repeat: true,
        unit: Some(ExecuteType::Hours),
        value: 1,
    };
    let m = req.into_model(12);
    assert_eq!(m.user_id, 12);
    assert_eq!(m.name, "every hour");
    assert!(m.is_repeat);
    assert_eq!(m.unit, Some(ExecuteType::Hours));
    assert_eq!(m.value, 1);
}
