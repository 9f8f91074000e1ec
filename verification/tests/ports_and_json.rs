use tpn_worker_dashboard::json::{bool_at, json_at, parse_json, str_at, u64_at, JsonLeaf};
use tpn_worker_dashboard::models::{LatestSnapshot, WorkerListing};
use tpn_worker_dashboard::ports::{
    host_from_url, port_checks, port_health_row, port_targets, should_probe, tcp_verdict,
    tcp_open, udp_open, udp_verdict, wg_handshake_init, PortProbes, PortTargets, TcpProbe, UdpProbe,
};

#[test]
fn host_of_plain_and_decorated_urls() {
    assert_eq!(host_from_url("http://10.0.0.5:3000"), "10.0.0.5");
    assert_eq!(host_from_url("https://user:pw@example.com:8443/api/x"), "example.com");
    assert_eq!(host_from_url("  example.com  "), "example.com");
    assert_eq!(host_from_url("example.com/path"), "example.com");
    assert_eq!(host_from_url("http://host/path:80"), "host");
    assert_eq!(host_from_url(""), "");
}

#[test]
fn host_of_ipv6_literal_keeps_brackets() {
    assert_eq!(host_from_url("http://[::1]:8080/x"), "[::1]");
    assert_eq!(host_from_url("http://[fe80::1]"), "[fe80::1]");
}

#[test]
fn host_never_holds_slash_or_at() {
    for u in ["a@b@c/d", "x://y://z", "//@/", "@@", "http://u@h:1/p@q"] {
        let h = host_from_url(u);
        assert!(!h.contains('/') && !h.contains('@'), "{u} -> {h}");
    }
}

#[test]
fn host_of_urls_built_around_a_host() {
    for h in ["10.0.0.5", "worker.example", "h"] {
        assert_eq!(host_from_url(&format!("http://alice@{h}:3000/api")), h);
        assert_eq!(host_from_url(&format!("  https://{h}/x/y ")), h);
        assert_eq!(host_from_url(&format!("{h}:8080")), h);
    }
}

#[test]
fn host_is_a_piece_of_the_trimmed_url() {
    for u in [" http://u@h:1/p ", "a:b:c", "x@y@z", "[::1]:80", "", "  "] {
        let h = host_from_url(u);
        assert!(u.trim().contains(h.as_str()), "{u} -> {h}");
    }
}

#[test]
fn wireguard_probe_packet() {
    let p = wg_handshake_init();
    assert_eq!(p.len(), 149);
    assert_eq!(p[0], 1);
    assert!(p[1..].iter().all(|b| *b == 0));
}

#[test]
fn probes_need_a_host_and_a_port() {
    assert!(should_probe("h", 1));
    assert!(!should_probe("", 1));
    assert!(!should_probe("h", 0));
}

#[test]
fn probe_verdicts() {
    assert!(tcp_verdict(TcpProbe::Connected));
    assert!(!tcp_verdict(TcpProbe::Failed));
    assert!(!tcp_verdict(TcpProbe::TimedOut));
    assert!(udp_verdict(UdpProbe::Replied));
    assert!(udp_verdict(UdpProbe::TimedOut));
    for p in [
        UdpProbe::BindFailed,
        UdpProbe::ConnectFailed,
        UdpProbe::SendFailed,
        UdpProbe::Refused,
        UdpProbe::RecvFailed,
    ] {
        assert!(!udp_verdict(p));
    }
}

const REPORT: &str = r#"{"network":{"public_host":"1.2.3.4","public_port":3000},
 "proxy":{"socks5_port":1080,"http_proxy_port":8118},"wireguard":{"listen_port":51820}}"#;

#[test]
fn targets_from_the_last_report() {
    let t = port_targets("http://10.0.0.5:3000", &Some(REPORT.to_string()));
    assert_eq!(t.host, "1.2.3.4");
    assert_eq!((t.public_port, t.socks5_port, t.http_port, t.wg_port), (3000, 1080, 8118, 51820));
}

#[test]
fn targets_fall_back_to_the_url_host() {
    let t = port_targets("http://10.0.0.5:3000", &None);
    assert_eq!(t.host, "10.0.0.5");
    assert_eq!((t.public_port, t.socks5_port, t.http_port, t.wg_port), (0, 0, 0, 0));
    let t = port_targets("http://10.0.0.5:3000", &Some("not json".to_string()));
    assert_eq!(t.host, "10.0.0.5");
    assert_eq!(t.public_port, 0);
    let t = port_targets("http://w:1", &Some(r#"{"proxy":{"socks5_port":1080}}"#.to_string()));
    assert_eq!(t.host, "w");
    assert_eq!(t.socks5_port, 1080);
    assert_eq!(t.public_port, 0);
}

#[test]
fn oversized_ports_are_cut_to_16_bits() {
    let t = port_targets("h", &Some(r#"{"network":{"public_port":70000}}"#.to_string()));
    assert_eq!(t.public_port, 70000u64 as u16);
    let t = port_targets("h", &Some(r#"{"network":{"public_port":-1}}"#.to_string()));
    assert_eq!(t.public_port, 0);
}

fn listing(id: &str, url: &str, polled: bool) -> WorkerListing {
    WorkerListing {
        id: id.to_string(),
        name: "n".to_string(),
        url: url.to_string(),
        notes: String::new(),
        api_key: String::new(),
        poll_enabled: true,
        created_at: String::new(),
        updated_at: String::new(),
        latest: if polled {
            Some(LatestSnapshot {
                online: true,
                polled_at: "t".to_string(),
                poll_latency_ms: 3,
                error_message: String::new(),
                version: String::new(),
                mode: String::new(),
                uptime_seconds: 0,
                registration_success: false,
                wg_active_peers: 0,
                wg_max_peers: 0,
                proxy_available: 0,
                proxy_total: 0,
            })
        } else {
            None
        },
    }
}

#[test]
fn every_worker_with_an_id_is_checked_in_order() {
    let list = vec![listing("a", "u1", true), listing("", "u2", true), listing("c", "", false)];
    let checks = port_checks(&list);
    assert_eq!(checks.len(), 2);
    assert_eq!((checks[0].worker_id.as_str(), checks[0].url.as_str(), checks[0].read_latest_report), ("a", "u1", true));
    assert_eq!((checks[1].worker_id.as_str(), checks[1].url.as_str(), checks[1].read_latest_report), ("c", "", false));
}

#[test]
fn port_health_record() {
    let targets = PortTargets { host: "h".to_string(), public_port: 1, socks5_port: 2, http_port: 3, wg_port: 4 };
    let probes = PortProbes {
        public: Some(TcpProbe::Connected),
        socks5: Some(TcpProbe::TimedOut),
        http: Some(TcpProbe::Connected),
        wg: Some(UdpProbe::Refused),
    };
    let row = port_health_row("w".to_string(), targets, probes);
    assert_eq!(row.worker_id, "w");
    assert_eq!(row.host, "h");
    assert_eq!((row.public_port, row.socks5_port, row.http_port, row.wg_port), (1, 2, 3, 4));
    assert_eq!((row.public_ok, row.socks5_ok, row.http_ok, row.wg_ok), (true, false, true, false));
    assert!(row.checked_at.ends_with("+00:00"));
    assert!(chrono::DateTime::parse_from_rfc3339(&row.checked_at).is_ok());
}

#[test]
fn ports_without_host_or_port_never_count_as_open() {
    let targets = PortTargets { host: String::new(), public_port: 1, socks5_port: 2, http_port: 3, wg_port: 4 };
    let all_up = PortProbes {
        public: Some(TcpProbe::Connected),
        socks5: Some(TcpProbe::Connected),
        http: Some(TcpProbe::Connected),
        wg: Some(UdpProbe::TimedOut),
    };
    let row = port_health_row("w".to_string(), targets, all_up);
    assert_eq!((row.public_ok, row.socks5_ok, row.http_ok, row.wg_ok), (false, false, false, false));
    let targets = PortTargets { host: "h".to_string(), public_port: 0, socks5_port: 2, http_port: 0, wg_port: 0 };
    let row = port_health_row("w".to_string(), targets, all_up);
    assert_eq!((row.public_ok, row.socks5_ok, row.http_ok, row.wg_ok), (false, true, false, false));
    assert!(!tcp_open("h", 1, None));
    assert!(tcp_open("h", 1, Some(TcpProbe::Connected)));
    assert!(!udp_open("", 1, Some(UdpProbe::Replied)));
    assert!(udp_open("h", 1, Some(UdpProbe::Replied)));
}

#[test]
fn json_documents_and_their_leaves() {
    assert!(parse_json("{").is_none());
    assert!(parse_json("").is_none());
    let d = parse_json(r#"{"a":{"b":"x","n":5,"f":1.5,"t":true,"z":null,"l":[1],"o":{}},"k/":1}"#).unwrap();
    assert_eq!(str_at(&d, "/a/b"), Some("x".to_string()));
    assert_eq!(str_at(&d, "/a/n"), None);
    assert_eq!(u64_at(&d, "/a/n"), Some(5));
    assert_eq!(u64_at(&d, "/a/f"), None);
    assert_eq!(bool_at(&d, "/a/t"), Some(true));
    assert!(matches!(json_at(&d, "/a/z"), JsonLeaf::Null));
    assert!(matches!(json_at(&d, "/a/l"), JsonLeaf::Array));
    assert!(matches!(json_at(&d, "/a/o"), JsonLeaf::Object));
    assert!(matches!(json_at(&d, "/a/f"), JsonLeaf::OtherNumber));
    assert!(matches!(json_at(&d, "/missing"), JsonLeaf::Missing));
    assert!(matches!(json_at(&d, "/a/b/c"), JsonLeaf::Missing));
    assert_eq!(d.raw()["a"]["n"], serde_json::Value::from(5u64));
}
