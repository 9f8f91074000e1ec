use tpn_worker_dashboard::batch::{
    action_request, batch_result, batch_targets, check_password, config_payload,
    login_failed_result, request_result, BatchConfigRequest, BatchOp, BatchPasswordRequest,
    BatchTarget,
};
use tpn_worker_dashboard::errors::ApiError;
use tpn_worker_dashboard::json::parse_json;
use tpn_worker_dashboard::models::{HttpReply, HttpStatus, WorkerRecord};
use tpn_worker_dashboard::workers::{
    default_limit, default_log_lines, logs_reply, logs_request_url, new_worker,
    plan_worker_update, snapshots_to_prune, CreateWorkerRequest, LogsReply, UpdateWorkerRequest,
    WorkerChange, SNAPSHOTS_KEPT_PER_WORKER,
};

fn create(name: &str, url: &str) -> CreateWorkerRequest {
    CreateWorkerRequest {
        name: name.to_string(),
        url: url.to_string(),
        notes: " n ".to_string(),
        api_key: "k".to_string(),
    }
}

fn bad_request(r: Result<impl std::fmt::Debug, ApiError>) -> String {
    match r {
        Err(ApiError::BadRequest(m)) => m,
        other => panic!("expected a bad request, got {:?}", other),
    }
}

#[test]
fn new_worker_is_trimmed_enabled_and_stamped() {
    let w = new_worker(&create("  Worker-US-1 ", " http://10.0.0.5:3000\n")).unwrap();
    assert_eq!(w.name, "Worker-US-1");
    assert_eq!(w.url, "http://10.0.0.5:3000");
    assert_eq!(w.notes, " n ");
    assert_eq!(w.api_key, "k");
    assert!(w.poll_enabled);
    assert_eq!(w.created_at, w.updated_at);
    assert!(w.created_at.ends_with("+00:00"));
    let id = uuid::Uuid::parse_str(&w.id).unwrap();
    assert_eq!(id.get_version_num(), 4);
    assert_eq!(w.id, w.id.to_lowercase());
    assert_eq!(w.id.len(), 36);
}

#[test]
fn new_worker_ids_differ() {
    let a = new_worker(&create("a", "u")).unwrap();
    let b = new_worker(&create("a", "u")).unwrap();
    assert_ne!(a.id, b.id);
}

#[test]
fn blank_name_or_url_is_refused() {
    assert_eq!(bad_request(new_worker(&create("   ", "http://x"))), "name is required");
    assert_eq!(bad_request(new_worker(&create("", ""))), "name is required");
    assert_eq!(bad_request(new_worker(&create("w", " \t "))), "url is required");
}

#[test]
fn update_of_a_missing_worker_does_nothing() {
    let req = UpdateWorkerRequest { name: Some("x".to_string()), url: None, notes: None, api_key: None, poll_enabled: None };
    assert!(plan_worker_update(false, &req).is_none());
}

#[test]
fn update_sets_the_named_fields_in_order() {
    let req = UpdateWorkerRequest {
        name: Some("n".to_string()),
        url: None,
        notes: Some("".to_string()),
        api_key: Some("k2".to_string()),
        poll_enabled: Some(false),
    };
    let u = plan_worker_update(true, &req).unwrap();
    assert!(u.updated_at.ends_with("+00:00"));
    assert_eq!(u.changes.len(), 4);
    assert!(matches!(&u.changes[0], WorkerChange::Name(v) if v == "n"));
    assert!(matches!(&u.changes[1], WorkerChange::Notes(v) if v.is_empty()));
    assert!(matches!(&u.changes[2], WorkerChange::ApiKey(v) if v == "k2"));
    assert!(matches!(&u.changes[3], WorkerChange::PollEnabled(false)));
    let empty = UpdateWorkerRequest { name: None, url: None, notes: None, api_key: None, poll_enabled: None };
    assert!(plan_worker_update(true, &empty).unwrap().changes.is_empty());
}

#[test]
fn query_defaults() {
    assert_eq!(default_limit(), 100);
    assert_eq!(default_log_lines(), 100);
}

fn record(url: &str) -> WorkerRecord {
    WorkerRecord {
        id: "w1".to_string(),
        name: "one".to_string(),
        url: url.to_string(),
        notes: String::new(),
        api_key: "key".to_string(),
        poll_enabled: true,
        created_at: String::new(),
        updated_at: String::new(),
    }
}

#[test]
fn logs_are_asked_of_the_worker_url() {
    assert_eq!(logs_request_url("w1", &Some(record("http://w:3000/")), 250).unwrap(), "http://w:3000/api/logs?lines=250");
    assert_eq!(bad_request(logs_request_url("w1", &Some(record("///")), 10)), "Worker has no URL configured");
    assert!(matches!(logs_request_url("w9", &None, 10), Err(ApiError::NotFound(m)) if m == "Worker w9 not found"));
}

fn received(code: u16, text: &str, body: &str) -> HttpReply {
    HttpReply::Received { status: HttpStatus { code, text: text.to_string() }, body: body.to_string() }
}

#[test]
fn worker_logs_are_passed_on_or_reported() {
    match logs_reply(received(200, "200 OK", r#"{"lines":["a"],"count":1}"#)).unwrap() {
        LogsReply::Forward(d) => assert_eq!(d.raw()["count"], serde_json::Value::from(1u64)),
        LogsReply::Failure(m) => panic!("{m}"),
    }
    assert!(matches!(logs_reply(received(500, "500 Internal Server Error", "{}")).unwrap(),
        LogsReply::Failure(m) if m == "Worker returned HTTP 500 Internal Server Error"));
    assert!(matches!(logs_reply(received(200, "200 OK", "oops")).unwrap(),
        LogsReply::Failure(m) if m == "Invalid JSON from worker"));
    assert!(matches!(logs_reply(HttpReply::SendFailed("refused".to_string())),
        Err(ApiError::Internal(m)) if m == "Failed to connect to worker: refused"));
    assert!(matches!(logs_reply(HttpReply::ReadFailed("reset".to_string())),
        Err(ApiError::Internal(m)) if m == "Failed to read worker response: reset"));
}

#[test]
fn each_worker_keeps_its_newest_thousand_snapshots() {
    assert_eq!(SNAPSHOTS_KEPT_PER_WORKER, 1000);
    let few: Vec<i64> = (1..=1000).rev().collect();
    assert!(snapshots_to_prune(&few).is_empty());
    let many: Vec<i64> = (1..=1003).rev().collect();
    assert_eq!(snapshots_to_prune(&many), vec![3, 2, 1]);
}

fn target() -> BatchTarget {
    BatchTarget { id: "w1".to_string(), name: "one".to_string(), url: "http://w".to_string(), api_key: String::new() }
}

#[test]
fn batch_targets_follow_the_workers_found() {
    assert_eq!(bad_request(batch_targets(&vec![])), "No valid workers found");
    let ts = batch_targets(&vec![record("http://w:1//"), record("http://v")]).unwrap();
    assert_eq!(ts.len(), 2);
    assert_eq!(ts[0].url, "http://w:1");
    assert_eq!(ts[0].api_key, "key");
    assert_eq!(ts[1].url, "http://v");
}

#[test]
fn config_batch_needs_a_setting() {
    let mut req = BatchConfigRequest { worker_ids: vec![], mining_pool_url: None, payment_address_evm: None, payment_address_bittensor: None };
    assert_eq!(bad_request(config_payload(&req)), "At least one config field is required");
    req.payment_address_bittensor = Some("5F".to_string());
    req.mining_pool_url = Some("http://pool".to_string());
    let p = config_payload(&req).unwrap();
    assert_eq!(p, vec![
        ("mining_pool_url".to_string(), "http://pool".to_string()),
        ("payment_address_bittensor".to_string(), "5F".to_string()),
    ]);
}

#[test]
fn passwords_need_four_bytes() {
    let req = |p: &str| BatchPasswordRequest { worker_ids: vec![], password: p.to_string() };
    assert_eq!(bad_request(check_password(&req("abc"))), "Password must be at least 4 characters");
    assert!(check_password(&req("abcd")).is_ok());
    assert!(check_password(&req("éé")).is_ok());
    assert!(check_password(&req("é")).is_err());
}

#[test]
fn requests_of_each_operation() {
    let tok = Some("t".to_string());
    let r = action_request(BatchOp::CheckVersion, &target(), &tok);
    assert!(!r.post);
    assert_eq!((r.url.as_str(), r.timeout_secs), ("http://w/api/version", 10));
    assert_eq!(r.authorization, Some("Bearer t".to_string()));
    assert!(r.json_body.is_none());
    let r = action_request(BatchOp::Upgrade, &target(), &None);
    assert!(r.post);
    assert_eq!((r.url.as_str(), r.timeout_secs), ("http://w/api/upgrade", 120));
    assert!(r.authorization.is_none());
    let r = action_request(BatchOp::Config(vec![("a".to_string(), "b".to_string())]), &target(), &None);
    assert_eq!(r.url, "http://w/api/config/update");
    assert_eq!(r.json_body, Some(vec![("a".to_string(), "b".to_string())]));
    let r = action_request(BatchOp::SetPassword("pw12".to_string()), &target(), &None);
    assert_eq!(r.url, "http://w/api/password");
    assert_eq!(r.json_body, Some(vec![("password".to_string(), "pw12".to_string())]));
}

#[test]
fn get_and_post_results() {
    assert!(request_result(false, received(200, "200 OK", r#"{"x":1}"#)).is_ok());
    assert_eq!(request_result(false, received(404, "404 Not Found", r#"{"message":"m"}"#)).err(), Some("HTTP 404 Not Found".to_string()));
    assert_eq!(request_result(true, received(400, "400 Bad Request", r#"{"message":"m"}"#)).err(), Some("HTTP 400 Bad Request: m".to_string()));
    assert_eq!(request_result(true, received(400, "400 Bad Request", r#"{"error":"e"}"#)).err(), Some("HTTP 400 Bad Request: e".to_string()));
    assert_eq!(request_result(true, received(500, "500 Internal Server Error", "{}")).err(), Some("HTTP 500 Internal Server Error: unknown error".to_string()));
    assert_eq!(request_result(true, received(500, "500 Internal Server Error", "boom")).err(), Some("error decoding response body".to_string()));
    assert_eq!(request_result(false, HttpReply::SendFailed("refused".to_string())).err(), Some("refused".to_string()));
}

#[test]
fn version_check_summary() {
    let d = parse_json(r#"{"data":{"current":"v1.0","latest":"v1.1","has_update":true}}"#).unwrap();
    let r = batch_result(&BatchOp::CheckVersion, &target(), Ok(d));
    assert!(r.success);
    assert_eq!(r.message, "v1.0 → v1.1 (update available)");
    assert_eq!(r.report.unwrap().raw()["data"]["latest"], serde_json::Value::from("v1.1"));
    let d = parse_json(r#"{"data":{"current":"v1.1"}}"#).unwrap();
    let r = batch_result(&BatchOp::CheckVersion, &target(), Ok(d));
    assert_eq!(r.message, "v1.1 → -");
}

#[test]
fn other_operation_results() {
    let d = parse_json(r#"{"message":"upgrading"}"#).unwrap();
    let r = batch_result(&BatchOp::Upgrade, &target(), Ok(d));
    assert_eq!((r.success, r.message.as_str()), (true, "upgrading"));
    assert!(r.new_api_key.is_none());
    let d = parse_json("{}").unwrap();
    let r = batch_result(&BatchOp::SetPassword("pw12".to_string()), &target(), Ok(d));
    assert_eq!(r.message, "OK");
    assert_eq!(r.new_api_key, Some("pw12".to_string()));
    let r = batch_result(&BatchOp::SetPassword("pw12".to_string()), &target(), Err("HTTP 500".to_string()));
    assert!(!r.success);
    assert_eq!(r.message, "HTTP 500");
    assert!(r.new_api_key.is_none());
    let r = login_failed_result(&target(), "Login failed".to_string());
    assert!(!r.success);
    assert_eq!((r.worker_id.as_str(), r.worker_name.as_str(), r.message.as_str()), ("w1", "one", "Login failed"));
}
