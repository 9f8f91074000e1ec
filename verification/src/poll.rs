//! Polling workers: which workers are polled, how the dashboard logs in to a
//! worker, what it asks for, and the snapshot each poll leaves behind.
use vstd::prelude::*;
use crate::json::{bool_at, json_bool_at, json_str_at, json_text_accepted, parse_json, str_at};
use crate::models::{
    is_success_code, HttpReply, HttpStatus, SnapshotRecord, WorkerDashboardResponse, WorkerListing,
};
use crate::stamps::{is_utc_stamp, now_rfc3339};
use crate::text::{join2, strip_trailing_char, strip_trailing_char_idempotent, trim_end_char};

verus! {

/// A worker that the poller visits.
#[derive(Clone, Debug)]
pub struct PollTarget {
    pub worker_id: String,
    pub url: String,
    pub api_key: String,
}

/// Whether the poller visits a listed worker: polling is enabled for it and it has a URL.
pub open spec fn is_polled(l: WorkerListing) -> bool {
    l.poll_enabled && l.url@.len() > 0
}

/// The id, URL and API key that the poller uses for a listed worker.
pub open spec fn target_of(l: WorkerListing) -> (Seq<char>, Seq<char>, Seq<char>) {
    (l.id@, l.url@, l.api_key@)
}

pub open spec fn target_view(t: PollTarget) -> (Seq<char>, Seq<char>, Seq<char>) {
    (t.worker_id@, t.url@, t.api_key@)
}

/// The workers to poll, in list order, each with its stored API key.
pub fn poll_targets(listings: &Vec<WorkerListing>) -> (res: Vec<PollTarget>)
    ensures
        res@.map_values(|t: PollTarget| target_view(t)) == listings@.filter(|l: WorkerListing| is_polled(l)).map_values(
            |l: WorkerListing| target_of(l),
        ),
{
    let ghost pred = |l: WorkerListing| is_polled(l);
    let ghost tv = |t: PollTarget| target_view(t);
    let ghost lv = |l: WorkerListing| target_of(l);
    let mut res: Vec<PollTarget> = Vec::new();
    let mut i: usize = 0;
    while i < listings.len()
        invariant
            i <= listings.len(),
            pred == (|l: WorkerListing| is_polled(l)),
            tv == (|t: PollTarget| target_view(t)),
            lv == (|l: WorkerListing| target_of(l)),
            res@.map_values(tv) == listings@.take(i as int).filter(pred).map_values(lv),
        decreases listings.len() - i,
    {
        let l = &listings[i];
        proof {
            reveal_with_fuel(Seq::filter, 1);
            assert(listings@.take(i + 1).drop_last() =~= listings@.take(i as int));
            assert(listings@.take(i + 1).last() == listings@[i as int]);
        }
        let ghost before = res@;
        let ghost prev = listings@.take(i as int).filter(pred);
        if l.poll_enabled && !l.url.as_str().is_empty() {
            res.push(
                PollTarget { worker_id: l.id.clone(), url: l.url.clone(), api_key: l.api_key.clone() },
            );
            proof {
                assert(is_polled(listings@[i as int]));
                assert(pred(listings@[i as int]));
                assert(listings@.take(i + 1).filter(pred) == prev.push(listings@[i as int]));
                assert(res@.map_values(tv) =~= before.map_values(tv).push(tv(res@.last())));
                assert(prev.push(listings@[i as int]).map_values(lv) =~= prev.map_values(lv).push(
                    lv(listings@[i as int]),
                ));
            }
        } else {
            proof {
                assert(!is_polled(listings@[i as int]));
                assert(!pred(listings@[i as int]));
                assert(listings@.take(i + 1).filter(pred) == prev);
            }
        }
        i = i + 1;
    }
    assert(listings@.take(listings.len() as int) =~= listings@);
    res
}

/// Law: every listed worker with polling enabled and a URL is polled,
/// whatever its API key, and its target carries its id, URL and API key.
pub proof fn enabled_workers_with_a_url_are_polled(listings: Seq<WorkerListing>, i: int)
    requires
        0 <= i < listings.len(),
        listings[i].poll_enabled,
        listings[i].url@.len() > 0,
    ensures
        listings.filter(|l: WorkerListing| is_polled(l)).map_values(|l: WorkerListing| target_of(l)).contains(
            (listings[i].id@, listings[i].url@, listings[i].api_key@),
        ),
{
    let pred = |l: WorkerListing| is_polled(l);
    let f = listings.filter(pred);
    listings.lemma_filter_contains(pred, i);
    let j = choose|j: int| 0 <= j < f.len() && f[j] == listings[i];
    assert(f.map_values(|l: WorkerListing| target_of(l))[j] == (
        listings[i].id@,
        listings[i].url@,
        listings[i].api_key@,
    ));
}

/// Law: only listed workers with polling enabled and a URL are polled; each
/// target is such a worker's id, URL and API key.
pub proof fn only_enabled_workers_with_a_url_are_polled(listings: Seq<WorkerListing>, j: int)
    requires
        0 <= j < listings.filter(|l: WorkerListing| is_polled(l)).len(),
    ensures
        exists|i: int|
            0 <= i < listings.len() && #[trigger] listings[i].poll_enabled && listings[i].url@.len() > 0
                && listings.filter(|l: WorkerListing| is_polled(l)).map_values(
                |l: WorkerListing| target_of(l),
            )[j] == (listings[i].id@, listings[i].url@, listings[i].api_key@),
{
    let pred = |l: WorkerListing| is_polled(l);
    let f = listings.filter(pred);
    listings.lemma_filter_pred(pred, j);
    listings.lemma_filter_contains_rev(pred, f[j]);
    let i = choose|i: int| 0 <= i < listings.len() && listings[i] == f[j];
    assert(listings[i].poll_enabled);
}

/// How long a login may take, in seconds.
pub const LOGIN_TIMEOUT_SECS: u64 = 10;

/// A request to a worker's login endpoint: a `POST` of the JSON object
/// `{"password": password}` to `url`, allowed `timeout_secs` seconds.
#[derive(Clone, Debug)]
pub struct LoginRequest {
    pub url: String,
    pub password: String,
    pub timeout_secs: u64,
}

/// The login endpoint of the worker at `base`.
pub open spec fn login_url(base: Seq<char>) -> Seq<char> {
    strip_trailing_char(base, '/') + "/api/login"@
}

/// Law: trailing slashes of a worker's URL do not change its login endpoint,
/// so a URL that was trimmed already logs in where the untrimmed one does.
pub proof fn login_url_ignores_trailing_slashes(base: Seq<char>)
    ensures
        login_url(strip_trailing_char(base, '/')) == login_url(base),
{
    strip_trailing_char_idempotent(base, '/');
}

/// The login that precedes a request to the worker at `base_url`; none when
/// the worker has no API key.
pub fn login_request(base_url: &str, api_key: &str) -> (res: Option<LoginRequest>)
    ensures
        res is None <==> api_key@.len() == 0,
        res matches Some(r) ==> r.url@ == login_url(base_url@) && r.password@ == api_key@
            && r.timeout_secs == LOGIN_TIMEOUT_SECS,
{
    if api_key.is_empty() {
        None
    } else {
        let base = trim_end_char(base_url, '/');
        Some(
            LoginRequest {
                url: join2(base.as_str(), "/api/login"),
                password: String::from_str(api_key),
                timeout_secs: LOGIN_TIMEOUT_SECS,
            },
        )
    }
}

/// The beginning of a poll: when it started, and the login that comes first, if any.
#[derive(Clone, Debug)]
pub struct PollStart {
    pub polled_at: String,
    pub login: Option<LoginRequest>,
}

/// Begins a poll of `target`: stamps it now and decides whether to log in first.
pub fn start_poll(target: &PollTarget) -> (res: PollStart)
    ensures
        is_utc_stamp(res.polled_at@),
        res.login is None <==> target.api_key@.len() == 0,
        res.login matches Some(r) ==> r.url@ == login_url(target.url@) && r.password@
            == target.api_key@ && r.timeout_secs == LOGIN_TIMEOUT_SECS,
{
    let polled_at = now_rfc3339();
    PollStart { polled_at, login: login_request(target.url.as_str(), target.api_key.as_str()) }
}

/// Who logs in: the poller and the batch operations word a parse failure differently.
#[derive(Clone, Copy, Debug)]
pub enum LoginCaller {
    Poller,
    Batch,
}

pub open spec fn parse_error_prefix(c: LoginCaller) -> Seq<char> {
    match c {
        LoginCaller::Poller => "Login parse error: "@,
        LoginCaller::Batch => "Login response parse error: "@,
    }
}

/// What reqwest reports when a body is not the JSON that was expected.
pub open spec fn decode_error_message() -> Seq<char> {
    "error decoding response body"@
}

/// The error reported for an answer whose body is not the JSON that was
/// expected; a body that is not UTF-8 is reported with it too.
pub fn decode_error() -> (res: String)
    ensures
        res@ == decode_error_message(),
{
    String::from_str("error decoding response body")
}

/// What a parsed login answer grants: the token when `success` is true and a
/// token is present, else the worker's message or `Login failed`.
pub open spec fn login_verdict(text: Seq<char>) -> Result<Option<Seq<char>>, Seq<char>> {
    if json_bool_at(text, "/success"@) == Some(true) && json_str_at(text, "/data/token"@) is Some {
        Ok(Some(json_str_at(text, "/data/token"@)->0))
    } else {
        Err(
            match json_str_at(text, "/message"@) {
                Some(m) => m,
                None => "Login failed"@,
            },
        )
    }
}

pub open spec fn token_result_view(r: Result<Option<String>, String>) -> Result<Option<Seq<char>>, Seq<char>> {
    match r {
        Ok(Some(t)) => Ok(Some(t@)),
        Ok(None) => Ok(None),
        Err(e) => Err(e@),
    }
}

/// The outcome of a login: the token, or the error to report.
/// The login answer's status is not looked at.
pub open spec fn login_result(caller: LoginCaller, reply: HttpReply) -> Result<Option<Seq<char>>, Seq<char>> {
    match reply {
        HttpReply::SendFailed(e) => Err("Login failed: "@ + e@),
        HttpReply::ReadFailed(e) => Err(parse_error_prefix(caller) + e@),
        HttpReply::Received { body, .. } => if json_text_accepted(body@) {
            login_verdict(body@)
        } else {
            Err(parse_error_prefix(caller) + decode_error_message())
        },
    }
}

/// The token that a login yields, or the error to report.
pub fn login_outcome(caller: LoginCaller, reply: HttpReply) -> (res: Result<Option<String>, String>)
    ensures
        token_result_view(res) == login_result(caller, reply),
{
    let prefix = match caller {
        LoginCaller::Poller => "Login parse error: ",
        LoginCaller::Batch => "Login response parse error: ",
    };
    match reply {
        HttpReply::SendFailed(e) => Err(join2("Login failed: ", e.as_str())),
        HttpReply::ReadFailed(e) => Err(join2(prefix, e.as_str())),
        HttpReply::Received { body, .. } => match parse_json(body.as_str()) {
            None => Err(join2(prefix, decode_error().as_str())),
            Some(doc) => {
                let success = bool_at(&doc, "/success");
                let token = str_at(&doc, "/data/token");
                if success == Some(true) && token.is_some() {
                    Ok(token)
                } else {
                    match str_at(&doc, "/message") {
                        Some(m) => Err(m),
                        None => Err(String::from_str("Login failed")),
                    }
                }
            },
        },
    }
}

/// A request for a worker's dashboard report.
#[derive(Clone, Debug)]
pub struct FetchRequest {
    pub url: String,
    /// The value of the `Authorization` header, if any.
    pub authorization: Option<String>,
}

/// The request for the dashboard report of the worker at `base_url`, with the
/// login token as a bearer token.
pub fn dashboard_request(base_url: &str, token: &Option<String>) -> (res: FetchRequest)
    ensures
        res.url@ == strip_trailing_char(base_url@, '/') + "/api/dashboard"@,
        match token {
            Some(t) => res.authorization matches Some(a) && a@ == "Bearer "@ + t@,
            None => res.authorization is None,
        },
{
    let base = trim_end_char(base_url, '/');
    let url = join2(base.as_str(), "/api/dashboard");
    let authorization = match token {
        Some(t) => Some(join2("Bearer ", t.as_str())),
        None => None,
    };
    FetchRequest { url, authorization }
}

/// How a poll of a worker went.
#[derive(Debug)]
pub enum PollOutcome {
    /// The login failed with this message.
    AuthFailed(String),
    /// The request could not be sent; the transport's error.
    SendFailed(String),
    /// The answer's body could not be read; the error.
    ReadFailed(String),
    /// The worker answered. `parsed` is the body read as a dashboard report
    /// (or the parser's error); it is looked at only when the status is a success.
    Received { status: HttpStatus, body: String, parsed: Result<WorkerDashboardResponse, String> },
}

/// Whether a poll reached the worker and read its report.
pub open spec fn poll_succeeded(o: PollOutcome) -> bool {
    o matches PollOutcome::Received { status, parsed: Ok(_), .. } && is_success_code(status.code)
}

/// The error message that a poll leaves in its snapshot.
pub open spec fn poll_error_message(o: PollOutcome) -> Seq<char> {
    match o {
        PollOutcome::AuthFailed(e) => "Auth error: "@ + e@,
        PollOutcome::SendFailed(e) => e@,
        PollOutcome::ReadFailed(e) => "Read body error: "@ + e@,
        PollOutcome::Received { status, parsed, .. } => if !is_success_code(status.code) {
            "HTTP "@ + status.text@
        } else {
            match parsed {
                Ok(_) => Seq::empty(),
                Err(e) => "JSON parse error: "@ + e@,
            }
        },
    }
}

/// The raw report that a poll keeps: the body of every successful answer.
pub open spec fn poll_data(o: PollOutcome) -> Seq<char> {
    match o {
        PollOutcome::Received { status, body, .. } => if is_success_code(status.code) {
            body@
        } else {
            Seq::empty()
        },
        _ => Seq::empty(),
    }
}

/// A snapshot that carries none of a worker's figures.
pub open spec fn carries_no_figures(r: SnapshotRecord) -> bool {
    &&& r.version@.len() == 0
    &&& r.mode@.len() == 0
    &&& r.uptime_seconds == 0
    &&& !r.registration_success
    &&& r.wg_active_peers == 0
    &&& r.wg_max_peers == 0
    &&& r.proxy_available == 0
    &&& r.proxy_total == 0
}

/// The snapshot's figures are those of the report `d`.
pub open spec fn carries_figures_of(r: SnapshotRecord, d: WorkerDashboardResponse) -> bool {
    &&& r.version@ == d.worker.version@
    &&& r.mode@ == d.worker.mode@
    &&& r.uptime_seconds == d.worker.uptime_seconds
    &&& r.registration_success == d.mining_pool.last_registration_success
    &&& r.wg_active_peers == d.wireguard.active_peers
    &&& r.wg_max_peers == d.wireguard.max_peers
    &&& r.proxy_available == d.proxy.available_non_priority
    &&& r.proxy_total == d.proxy.credential_count
}

fn failed_snapshot(
    worker_id: String,
    polled_at: String,
    latency_ms: i64,
    error_message: String,
    data: String,
) -> (res: SnapshotRecord)
    ensures
        res.worker_id == worker_id,
        res.polled_at == polled_at,
        res.poll_latency_ms == latency_ms,
        !res.online,
        res.error_message == error_message,
        res.data == data,
        carries_no_figures(res),
{
    SnapshotRecord {
        worker_id,
        polled_at,
        poll_latency_ms: latency_ms,
        online: false,
        error_message,
        data,
        version: String::new(),
        mode: String::new(),
        uptime_seconds: 0,
        registration_success: false,
        wg_active_peers: 0,
        wg_max_peers: 0,
        proxy_available: 0,
        proxy_total: 0,
    }
}

/// The snapshot that a poll of `worker_id`, begun at `polled_at` and lasting
/// `latency_ms`, leaves behind. A snapshot is online exactly when the worker
/// answered with a success and a readable report; every other snapshot holds
/// an error message and no figures.
pub fn poll_snapshot(worker_id: String, polled_at: String, latency_ms: i64, outcome: PollOutcome) -> (res: SnapshotRecord)
    ensures
        res.worker_id == worker_id,
        res.polled_at == polled_at,
        res.poll_latency_ms == latency_ms,
        res.online == poll_succeeded(outcome),
        res.error_message@ == poll_error_message(outcome),
        res.data@ == poll_data(outcome),
        match outcome {
            PollOutcome::Received { status, parsed: Ok(d), .. } => if is_success_code(status.code) {
                carries_figures_of(res, d)
            } else {
                carries_no_figures(res)
            },
            _ => carries_no_figures(res),
        },
        res.online ==> res.error_message@.len() == 0,
        !res.online ==> carries_no_figures(res),
        !(outcome matches PollOutcome::SendFailed(e) && e@.len() == 0) ==> (res.online
            <==> res.error_message@.len() == 0),
{
    proof {
        reveal_strlit("Auth error: ");
        reveal_strlit("Read body error: ");
        reveal_strlit("HTTP ");
        reveal_strlit("JSON parse error: ");
    }
    match outcome {
        PollOutcome::AuthFailed(e) => failed_snapshot(
            worker_id,
            polled_at,
            latency_ms,
            join2("Auth error: ", e.as_str()),
            String::new(),
        ),
        PollOutcome::SendFailed(e) => failed_snapshot(worker_id, polled_at, latency_ms, e, String::new()),
        PollOutcome::ReadFailed(e) => failed_snapshot(
            worker_id,
            polled_at,
            latency_ms,
            join2("Read body error: ", e.as_str()),
            String::new(),
        ),
        PollOutcome::Received { status, body, parsed } => {
            if !status.is_success() {
                failed_snapshot(
                    worker_id,
                    polled_at,
                    latency_ms,
                    join2("HTTP ", status.text.as_str()),
                    String::new(),
                )
            } else {
                match parsed {
                    Err(e) => failed_snapshot(
                        worker_id,
                        polled_at,
                        latency_ms,
                        join2("JSON parse error: ", e.as_str()),
                        body,
                    ),
                    Ok(d) => SnapshotRecord {
                        worker_id,
                        polled_at,
                        poll_latency_ms: latency_ms,
                        online: true,
                        error_message: String::new(),
                        data: body,
                        version: d.worker.version,
                        mode: d.worker.mode,
                        uptime_seconds: d.worker.uptime_seconds,
                        registration_success: d.mining_pool.last_registration_success,
                        wg_active_peers: d.wireguard.active_peers,
                        wg_max_peers: d.wireguard.max_peers,
                        proxy_available: d.proxy.available_non_priority,
                        proxy_total: d.proxy.credential_count,
                    },
                }
            }
        },
    }
}

} // verus!
