//! The data a worker reports on `GET /api/dashboard`, and the records the
//! dashboard keeps about workers.
use vstd::prelude::*;

verus! {

/// The `worker` section of a worker's dashboard report.
#[derive(Clone, Debug)]
pub struct WorkerInfo {
    pub version: String,
    pub mode: String,
    pub uptime_seconds: i64,
    pub start_time: String,
    pub git_branch: String,
    pub git_hash: String,
}

/// The `mining_pool` section of a worker's dashboard report.
#[derive(Clone, Debug)]
pub struct MiningPoolInfo {
    pub url: String,
    pub name: String,
    pub last_registration_success: bool,
    pub last_registration_time: String,
    pub rewards_url: String,
    pub website_url: String,
}

/// The `wireguard` section of a worker's dashboard report.
#[derive(Clone, Debug)]
pub struct WireguardInfo {
    pub enabled: bool,
    pub interface: String,
    pub max_peers: i32,
    pub active_peers: i32,
    pub active_leases: i32,
    pub listen_port: u16,
    pub subnet: String,
    pub dns: String,
    pub server_public_key: String,
}

/// The `proxy` section of a worker's dashboard report.
#[derive(Clone, Debug)]
pub struct ProxyInfo {
    pub socks5_port: u16,
    pub http_proxy_port: u16,
    pub credential_count: i32,
    pub active_credentials: i32,
    pub available_non_priority: i64,
    pub priority_slots: i64,
}

/// The `network` section of a worker's dashboard report.
#[derive(Clone, Debug)]
pub struct NetworkInfo {
    pub public_host: String,
    pub public_port: u16,
    pub protocol: String,
    pub base_url: String,
}

/// The `payment` section of a worker's dashboard report.
#[derive(Clone, Debug)]
pub struct PaymentInfo {
    pub evm_address: String,
    pub bittensor_address: String,
}

/// The `database` section of a worker's dashboard report.
#[derive(Clone, Debug)]
pub struct DatabaseInfo {
    pub path: String,
}

/// A worker's whole dashboard report. Each entry of the registration history
/// is kept as its JSON text.
#[derive(Clone, Debug)]
pub struct WorkerDashboardResponse {
    pub worker: WorkerInfo,
    pub mining_pool: MiningPoolInfo,
    pub wireguard: WireguardInfo,
    pub proxy: ProxyInfo,
    pub network: NetworkInfo,
    pub payment: PaymentInfo,
    pub database: DatabaseInfo,
    pub registration_history: Vec<String>,
}

/// A worker as the dashboard stores it.
#[derive(Clone, Debug)]
pub struct WorkerRecord {
    pub id: String,
    pub name: String,
    pub url: String,
    pub notes: String,
    pub api_key: String,
    pub poll_enabled: bool,
    pub created_at: String,
    pub updated_at: String,
}

/// The summary of a worker's most recent poll that the worker list shows.
#[derive(Clone, Debug)]
pub struct LatestSnapshot {
    pub online: bool,
    pub polled_at: String,
    pub poll_latency_ms: i32,
    pub error_message: String,
    pub version: String,
    pub mode: String,
    pub uptime_seconds: i64,
    pub registration_success: bool,
    pub wg_active_peers: i32,
    pub wg_max_peers: i32,
    pub proxy_available: i64,
    pub proxy_total: i32,
}

/// A worker in the worker list: its record with its latest poll, if it was
/// ever polled. The API key is used for polling and is not shown.
#[derive(Clone, Debug)]
pub struct WorkerListing {
    pub id: String,
    pub name: String,
    pub url: String,
    pub notes: String,
    pub api_key: String,
    pub poll_enabled: bool,
    pub created_at: String,
    pub updated_at: String,
    pub latest: Option<LatestSnapshot>,
}

/// One poll of one worker, as it is stored.
#[derive(Clone, Debug)]
pub struct SnapshotRecord {
    pub worker_id: String,
    pub polled_at: String,
    pub poll_latency_ms: i64,
    pub online: bool,
    pub error_message: String,
    pub data: String,
    pub version: String,
    pub mode: String,
    pub uptime_seconds: i64,
    pub registration_success: bool,
    pub wg_active_peers: i32,
    pub wg_max_peers: i32,
    pub proxy_available: i64,
    pub proxy_total: i32,
}

/// An HTTP status as a worker answered it: the code and its text (`200 OK`).
#[derive(Clone, Debug)]
pub struct HttpStatus {
    pub code: u16,
    pub text: String,
}

/// How a request to a worker went on the wire.
#[derive(Debug)]
pub enum HttpReply {
    /// The request could not be sent; the transport's error.
    SendFailed(String),
    /// The worker answered but its body could not be read; the error.
    ReadFailed(String),
    /// The worker answered with this status and body.
    Received { status: HttpStatus, body: String },
}

/// Whether a status code means success (`StatusCode::is_success`: 200 to 299).
pub open spec fn is_success_code(code: u16) -> bool {
    200 <= code <= 299
}

impl HttpStatus {
    /// Whether the status means success.
    pub fn is_success(&self) -> (res: bool)
        ensures
            res == is_success_code(self.code),
    {
        200 <= self.code && self.code <= 299
    }
}

/// How a boolean is stored in a database column.
pub open spec fn spec_db_flag(b: bool) -> i32 {
    if b {
        1
    } else {
        0
    }
}

/// The stored form of a boolean: 1 for true, 0 for false.
pub fn db_flag(b: bool) -> (res: i32)
    ensures
        res == spec_db_flag(b),
{
    if b {
        1
    } else {
        0
    }
}

/// A stored flag read back: true exactly when it holds 1.
pub fn flag_is_set(v: i32) -> (res: bool)
    ensures
        res == (v == 1),
{
    v == 1
}

/// Law: a flag read back is the boolean that was stored.
pub proof fn stored_flag_round_trip(b: bool)
    ensures
        (spec_db_flag(b) == 1) == b,
{
}

} // verus!
