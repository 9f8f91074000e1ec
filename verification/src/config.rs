//! The dashboard's settings and where its files live.
use vstd::prelude::*;
use crate::text::{join2, join3};

verus! {

/// The dashboard's settings.
#[derive(Clone, Debug)]
pub struct DashboardConfig {
    /// The HTTP port.
    pub port: u16,
    /// The SQLite database file.
    pub sqlite_path: String,
    /// Seconds between two polls of all workers.
    pub poll_interval_seconds: u64,
    /// Seconds a request to a worker may take.
    pub poll_timeout_seconds: u64,
    /// The logging level.
    pub log_level: String,
    /// The GitHub repository that releases the dashboard.
    pub github_repo: String,
}

/// The address of the database: created when missing, read-write.
pub fn sqlite_url(config: &DashboardConfig) -> (res: String)
    ensures
        res@ == "sqlite:"@ + config.sqlite_path@ + "?mode=rwc"@,
{
    join3("sqlite:", config.sqlite_path.as_str(), "?mode=rwc")
}

/// `base` joined with the relative path `seg`, as `PathBuf::join` joins them:
/// a `/` goes between them unless `base` is empty or ends in one.
pub open spec fn path_join(base: Seq<char>, seg: Seq<char>) -> Seq<char> {
    if base.len() > 0 && base.last() != '/' {
        base + seq!['/'] + seg
    } else {
        base + seg
    }
}

fn join_path(base: &str, seg: &str) -> (res: String)
    ensures
        res@ == path_join(base@, seg@),
{
    let n = base.unicode_len();
    if n > 0 && base.get_char(n - 1) != '/' {
        let res = join3(base, "/", seg);
        proof {
            reveal_strlit("/");
        }
        assert(res@ =~= base@ + seq!['/'] + seg@);
        res
    } else {
        join2(base, seg)
    }
}

/// The home directory to use: `HOME`, else `/root`.
pub open spec fn home_or_root(home: Option<Seq<char>>) -> Seq<char> {
    match home {
        Some(h) => h,
        None => "/root"@,
    }
}

/// The directory holding the dashboard's settings and database:
/// `<home>/.config/tpn-worker-dashboard`, where `home` is the value of `HOME`
/// if it is set.
pub fn config_dir(home: Option<String>) -> (res: String)
    ensures
        res@ == path_join(
            path_join(
                home_or_root(
                    match home {
                        Some(h) => Some(h@),
                        None => None,
                    },
                ),
                ".config"@,
            ),
            "tpn-worker-dashboard"@,
        ),
{
    let home = match home {
        Some(h) => h,
        None => String::from_str("/root"),
    };
    let dir = join_path(home.as_str(), ".config");
    join_path(dir.as_str(), "tpn-worker-dashboard")
}

/// The settings file in `dir`.
pub fn env_file_path(dir: &str) -> (res: String)
    ensures
        res@ == path_join(dir@, ".env"@),
{
    join_path(dir, ".env")
}

/// The database file in `dir`, used when no database path is set.
pub fn database_path(dir: &str) -> (res: String)
    ensures
        res@ == path_join(dir@, "dashboard.db"@),
{
    join_path(dir, "dashboard.db")
}

/// The settings file written when there is none: every setting commented out.
pub fn default_env_content() -> (res: String)
    ensures
        res@ == "# TPN Worker Dashboard 配置\n# DASHBOARD_PORT=8080\n# DASHBOARD_POLL_INTERVAL=30\n# DASHBOARD_POLL_TIMEOUT=10\n# LOG_LEVEL=info\n"@,
{
    String::from_str(
        "# TPN Worker Dashboard 配置\n# DASHBOARD_PORT=8080\n# DASHBOARD_POLL_INTERVAL=30\n# DASHBOARD_POLL_TIMEOUT=10\n# LOG_LEVEL=info\n",
    )
}

} // verus!
