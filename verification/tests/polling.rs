use tpn_worker_dashboard::models::{
    DatabaseInfo, HttpReply, HttpStatus, MiningPoolInfo, NetworkInfo, PaymentInfo, ProxyInfo,
    WireguardInfo, WorkerDashboardResponse, WorkerInfo, WorkerListing,
};
use tpn_worker_dashboard::poll::{
    dashboard_request, decode_error, login_outcome, login_request, poll_snapshot, poll_targets,
    start_poll, LoginCaller, PollOutcome, PollTarget,
};

fn status(code: u16, text: &str) -> HttpStatus {
    HttpStatus { code, text: text.to_string() }
}

fn received(body: &str) -> HttpReply {
    HttpReply::Received { status: status(200, "200 OK"), body: body.to_string() }
}

fn report() -> WorkerDashboardResponse {
    WorkerDashboardResponse {
        worker: WorkerInfo {
            version: "1.4.2".to_string(),
            mode: "worker".to_string(),
            uptime_seconds: 3600,
            start_time: String::new(),
            git_branch: String::new(),
            git_hash: String::new(),
        },
        mining_pool: MiningPoolInfo {
            url: String::new(),
            name: String::new(),
            last_registration_success: true,
            last_registration_time: String::new(),
            rewards_url: String::new(),
            website_url: String::new(),
        },
        wireguard: WireguardInfo {
            enabled: true,
            interface: String::new(),
            max_peers: 250,
            active_peers: 12,
            active_leases: 0,
            listen_port: 51820,
            subnet: String::new(),
            dns: String::new(),
            server_public_key: String::new(),
        },
        proxy: ProxyInfo {
            socks5_port: 1080,
            http_proxy_port: 8118,
            credential_count: 40,
            active_credentials: 3,
            available_non_priority: 37,
            priority_slots: 0,
        },
        network: NetworkInfo {
            public_host: String::new(),
            public_port: 3000,
            protocol: String::new(),
            base_url: String::new(),
        },
        payment: PaymentInfo { evm_address: String::new(), bittensor_address: String::new() },
        database: DatabaseInfo { path: String::new() },
        registration_history: Vec::new(),
    }
}

fn listing(id: &str, url: &str, enabled: bool) -> WorkerListing {
    WorkerListing {
        id: id.to_string(),
        name: id.to_string(),
        url: url.to_string(),
        notes: String::new(),
        api_key: format!("key-{id}"),
        poll_enabled: enabled,
        created_at: String::new(),
        updated_at: String::new(),
        latest: None,
    }
}

#[test]
fn enabled_workers_with_a_url_are_polled_in_order() {
    let list = vec![
        listing("a", "http://a", true),
        listing("b", "http://b", false),
        listing("c", "", true),
        listing("d", "http://d", true),
    ];
    let targets = poll_targets(&list);
    let ids: Vec<&str> = targets.iter().map(|t| t.worker_id.as_str()).collect();
    assert_eq!(ids, vec!["a", "d"]);
    assert_eq!(targets[1].url, "http://d");
    assert_eq!(targets[0].api_key, "key-a");
    assert_eq!(targets[1].api_key, "key-d");
}

#[test]
fn no_login_without_api_key() {
    assert!(login_request("http://w/", "").is_none());
    let r = login_request("http://w//", "secret").unwrap();
    assert_eq!(r.url, "http://w/api/login");
    assert_eq!(r.password, "secret");
    assert_eq!(r.timeout_secs, 10);
}

#[test]
fn trimmed_and_untrimmed_urls_log_in_at_the_same_place() {
    let once = login_request("http://w:3000", "k").unwrap();
    let many = login_request("http://w:3000///", "k").unwrap();
    assert_eq!(once.url, many.url);
    assert_eq!(once.url, "http://w:3000/api/login");
}

#[test]
fn a_body_that_is_not_utf8_reads_as_a_decode_error() {
    assert_eq!(decode_error(), "error decoding response body");
    let r = login_outcome(LoginCaller::Poller, HttpReply::ReadFailed(decode_error()));
    assert_eq!(r, Err("Login parse error: error decoding response body".to_string()));
}

#[test]
fn a_poll_starts_stamped() {
    let t = PollTarget { worker_id: "w".to_string(), url: "http://w".to_string(), api_key: "k".to_string() };
    let s = start_poll(&t);
    assert!(s.polled_at.ends_with("+00:00"));
    let b = s.polled_at.as_bytes();
    assert_eq!((b[4], b[7], b[10], b[13], b[16]), (b'-', b'-', b'T', b':', b':'));
    assert!(chrono::DateTime::parse_from_rfc3339(&s.polled_at).is_ok());
    assert_eq!(s.login.unwrap().url, "http://w/api/login");
}

#[test]
fn login_yields_the_token() {
    let r = login_outcome(LoginCaller::Poller, received(r#"{"success":true,"data":{"token":"abc"}}"#));
    assert_eq!(r, Ok(Some("abc".to_string())));
}

#[test]
fn login_refusals_and_failures() {
    let r = login_outcome(LoginCaller::Poller, received(r#"{"success":false,"message":"bad password"}"#));
    assert_eq!(r, Err("bad password".to_string()));
    let r = login_outcome(LoginCaller::Poller, received(r#"{"success":true,"data":{}}"#));
    assert_eq!(r, Err("Login failed".to_string()));
    let r = login_outcome(LoginCaller::Batch, received(r#"{"success":"yes","data":{"token":"abc"}}"#));
    assert_eq!(r, Err("Login failed".to_string()));
    let r = login_outcome(LoginCaller::Poller, HttpReply::SendFailed("connection refused".to_string()));
    assert_eq!(r, Err("Login failed: connection refused".to_string()));
    let r = login_outcome(LoginCaller::Poller, received("<html>"));
    assert_eq!(r, Err("Login parse error: error decoding response body".to_string()));
    let r = login_outcome(LoginCaller::Batch, received("<html>"));
    assert_eq!(r, Err("Login response parse error: error decoding response body".to_string()));
    let r = login_outcome(LoginCaller::Batch, HttpReply::ReadFailed("reset".to_string()));
    assert_eq!(r, Err("Login response parse error: reset".to_string()));
}

#[test]
fn dashboard_request_carries_the_bearer_token() {
    let r = dashboard_request("http://w:3000/", &Some("tok".to_string()));
    assert_eq!(r.url, "http://w:3000/api/dashboard");
    assert_eq!(r.authorization, Some("Bearer tok".to_string()));
    assert_eq!(dashboard_request("http://w", &None).authorization, None);
}

fn snap(outcome: PollOutcome) -> tpn_worker_dashboard::models::SnapshotRecord {
    poll_snapshot("w1".to_string(), "2024-01-01T00:00:00+00:00".to_string(), 42, outcome)
}

#[test]
fn successful_poll_keeps_the_report_and_its_figures() {
    let s = snap(PollOutcome::Received { status: status(200, "200 OK"), body: "{..}".to_string(), parsed: Ok(report()) });
    assert!(s.online);
    assert_eq!(s.error_message, "");
    assert_eq!(s.data, "{..}");
    assert_eq!((s.version.as_str(), s.mode.as_str()), ("1.4.2", "worker"));
    assert_eq!(s.uptime_seconds, 3600);
    assert!(s.registration_success);
    assert_eq!((s.wg_active_peers, s.wg_max_peers), (12, 250));
    assert_eq!((s.proxy_available, s.proxy_total), (37, 40));
    assert_eq!((s.worker_id.as_str(), s.poll_latency_ms), ("w1", 42));
}

fn assert_offline(s: &tpn_worker_dashboard::models::SnapshotRecord) {
    assert!(!s.online);
    assert_eq!((s.version.as_str(), s.mode.as_str(), s.uptime_seconds), ("", "", 0));
    assert!(!s.registration_success);
    assert_eq!((s.wg_active_peers, s.wg_max_peers, s.proxy_available, s.proxy_total), (0, 0, 0, 0));
}

#[test]
fn failed_polls_leave_an_error_and_no_figures() {
    let s = snap(PollOutcome::AuthFailed("bad password".to_string()));
    assert_offline(&s);
    assert_eq!(s.error_message, "Auth error: bad password");
    assert_eq!(s.data, "");
    let s = snap(PollOutcome::SendFailed("timed out".to_string()));
    assert_offline(&s);
    assert_eq!(s.error_message, "timed out");
    let s = snap(PollOutcome::ReadFailed("reset".to_string()));
    assert_eq!(s.error_message, "Read body error: reset");
    let s = snap(PollOutcome::Received { status: status(503, "503 Service Unavailable"), body: "x".to_string(), parsed: Ok(report()) });
    assert_offline(&s);
    assert_eq!(s.error_message, "HTTP 503 Service Unavailable");
    assert_eq!(s.data, "");
    let s = snap(PollOutcome::Received { status: status(200, "200 OK"), body: "{}".to_string(), parsed: Err("missing field `worker`".to_string()) });
    assert_offline(&s);
    assert_eq!(s.error_message, "JSON parse error: missing field `worker`");
    assert_eq!(s.data, "{}");
}
