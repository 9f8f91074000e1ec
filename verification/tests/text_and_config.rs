use tpn_worker_dashboard::config::{
    config_dir, database_path, default_env_content, env_file_path, sqlite_url, DashboardConfig,
};
use tpn_worker_dashboard::errors::{require_found, worker_not_found, ApiError};
use tpn_worker_dashboard::models::{db_flag, flag_is_set, HttpStatus};
use tpn_worker_dashboard::text::{
    chars_of, decimal_string, join2, join3, trim, trim_end_char, trim_start_char,
};

#[test]
fn trim_drops_unicode_white_space_at_both_ends() {
    assert_eq!(trim("  worker one \t\n"), "worker one");
    assert_eq!(trim("\u{3000}x\u{a0}"), "x");
    assert_eq!(trim("   "), "");
    assert_eq!(trim("a b"), "a b");
}

#[test]
fn trim_matches_std_trim_on_samples() {
    for s in ["", " ", "\u{2003}a\u{2028}", "\u{200b}a", "x\u{85}", "\r\nhi\u{205f}"] {
        assert_eq!(trim(s), s.trim());
    }
}

#[test]
fn trim_end_and_start_of_a_character() {
    assert_eq!(trim_end_char("http://h:1///", '/'), "http://h:1");
    assert_eq!(trim_end_char("///", '/'), "");
    assert_eq!(trim_start_char("vv1.2.0", 'v'), "1.2.0");
    assert_eq!(trim_start_char("1.2.0", 'v'), "1.2.0");
}

#[test]
fn decimal_notation_of_numbers() {
    assert_eq!(decimal_string(0), "0");
    assert_eq!(decimal_string(7), "7");
    assert_eq!(decimal_string(100), "100");
    assert_eq!(decimal_string(u64::MAX), u64::MAX.to_string());
}

#[test]
fn joining_and_splitting_text() {
    assert_eq!(join2("a", "bc"), "abc");
    assert_eq!(join3("a", "b", "c"), "abc");
    assert_eq!(chars_of("héllo"), vec!['h', 'é', 'l', 'l', 'o']);
}

fn sample_config() -> DashboardConfig {
    DashboardConfig {
        port: 8080,
        sqlite_path: "/data/dashboard.db".to_string(),
        poll_interval_seconds: 30,
        poll_timeout_seconds: 10,
        log_level: "info".to_string(),
        github_repo: "shellawesome/tpn-worker-dashboard".to_string(),
    }
}

#[test]
fn database_address_asks_for_read_write_create() {
    assert_eq!(sqlite_url(&sample_config()), "sqlite:/data/dashboard.db?mode=rwc");
}

#[test]
fn config_directory_under_home_or_root() {
    assert_eq!(config_dir(Some("/home/u".to_string())), "/home/u/.config/tpn-worker-dashboard");
    assert_eq!(config_dir(Some("/home/u/".to_string())), "/home/u/.config/tpn-worker-dashboard");
    assert_eq!(config_dir(None), "/root/.config/tpn-worker-dashboard");
    assert_eq!(config_dir(Some(String::new())), ".config/tpn-worker-dashboard");
}

#[test]
fn config_directory_joins_as_pathbuf_does() {
    for home in ["/home/u", "/home/u/", "", "rel", "/"] {
        let expected = std::path::PathBuf::from(home).join(".config").join("tpn-worker-dashboard");
        assert_eq!(config_dir(Some(home.to_string())), expected.to_string_lossy());
    }
}

#[test]
fn files_in_the_config_directory() {
    let dir = "/root/.config/tpn-worker-dashboard";
    assert_eq!(env_file_path(dir), "/root/.config/tpn-worker-dashboard/.env");
    assert_eq!(database_path(dir), "/root/.config/tpn-worker-dashboard/dashboard.db");
}

#[test]
fn default_settings_file_comments_out_every_setting() {
    let content = default_env_content();
    assert!(content.starts_with("# TPN Worker Dashboard"));
    for line in content.lines() {
        assert!(line.starts_with('#'));
    }
    assert!(content.contains("# DASHBOARD_PORT=8080"));
    assert!(content.contains("# DASHBOARD_POLL_INTERVAL=30"));
    assert!(content.contains("# DASHBOARD_POLL_TIMEOUT=10"));
    assert!(content.contains("# LOG_LEVEL=info"));
}

#[test]
fn missing_worker_is_reported_by_id() {
    match worker_not_found("abc") {
        ApiError::NotFound(m) => assert_eq!(m, "Worker abc not found"),
        other => panic!("unexpected {:?}", other),
    }
    assert!(require_found("abc", true).is_ok());
    assert!(matches!(require_found("abc", false), Err(ApiError::NotFound(m)) if m == "Worker abc not found"));
}

#[test]
fn stored_flags_round_trip() {
    assert_eq!(db_flag(true), 1);
    assert_eq!(db_flag(false), 0);
    assert!(flag_is_set(db_flag(true)));
    assert!(!flag_is_set(db_flag(false)));
    assert!(!flag_is_set(2));
}

#[test]
fn success_statuses_are_the_2xx_codes() {
    let st = |code: u16| HttpStatus { code, text: String::new() };
    assert!(st(200).is_success());
    assert!(st(299).is_success());
    assert!(!st(199).is_success());
    assert!(!st(300).is_success());
    assert!(!st(404).is_success());
}
