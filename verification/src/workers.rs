//! Managing the list of workers: the requests of the worker API, how they are
//! checked, what they change, and how many snapshots a worker keeps.
use vstd::prelude::*;
use crate::errors::{worker_not_found, ApiError};
use crate::json::{parse_json, json_text_accepted, JsonDoc};
use crate::models::{is_success_code, HttpReply, WorkerRecord};
use crate::stamps::{is_utc_stamp, is_v4_uuid_text, new_worker_id, now_rfc3339};
use crate::text::{decimal, decimal_string, join2, join3, strip_trailing_char, trim, trim_end_char, trimmed};

verus! {

/// `POST /api/workers`: a worker to add.
#[derive(Clone, Debug)]
pub struct CreateWorkerRequest {
    pub name: String,
    pub url: String,
    pub notes: String,
    pub api_key: String,
}

/// `PUT /api/workers/{id}`: the fields of a worker to change; a missing field stays as it is.
#[derive(Clone, Debug)]
pub struct UpdateWorkerRequest {
    pub name: Option<String>,
    pub url: Option<String>,
    pub notes: Option<String>,
    pub api_key: Option<String>,
    pub poll_enabled: Option<bool>,
}

/// `GET /api/workers/{id}/history`: which page of the snapshot history to show.
#[derive(Clone, Copy, Debug)]
pub struct HistoryQuery {
    pub limit: i32,
    pub offset: i32,
}

/// `GET /api/workers/{id}/logs`: how many log lines to ask the worker for.
#[derive(Clone, Copy, Debug)]
pub struct LogsQuery {
    pub lines: u32,
}

/// The history page size when the query names none.
pub fn default_limit() -> (res: i32)
    ensures
        res == 100,
{
    100
}

/// The number of log lines when the query names none.
pub fn default_log_lines() -> (res: u32)
    ensures
        res == 100,
{
    100
}

/// The message for a missing or blank name.
pub open spec fn name_required() -> Seq<char> {
    "name is required"@
}

/// The message for a missing or blank URL.
pub open spec fn url_required() -> Seq<char> {
    "url is required"@
}

/// The worker that `POST /api/workers` adds: name and URL without surrounding
/// white space, a fresh id, polling enabled, created and updated now. A name
/// or URL that is blank is refused, the name first.
pub fn new_worker(req: &CreateWorkerRequest) -> (res: Result<WorkerRecord, ApiError>)
    ensures
        trimmed(req.name@).len() == 0 ==> (res matches Err(ApiError::BadRequest(m)) && m@
            == name_required()),
        trimmed(req.name@).len() > 0 && trimmed(req.url@).len() == 0 ==> (res matches Err(
            ApiError::BadRequest(m),
        ) && m@ == url_required()),
        trimmed(req.name@).len() > 0 && trimmed(req.url@).len() > 0 ==> (res matches Ok(w) && {
            &&& w.name@ == trimmed(req.name@)
            &&& w.url@ == trimmed(req.url@)
            &&& w.notes@ == req.notes@
            &&& w.api_key@ == req.api_key@
            &&& w.poll_enabled
            &&& is_v4_uuid_text(w.id@)
            &&& is_utc_stamp(w.created_at@)
            &&& w.updated_at@ == w.created_at@
        }),
{
    let name = trim(req.name.as_str());
    if name.as_str().is_empty() {
        return Err(ApiError::BadRequest(String::from_str("name is required")));
    }
    let url = trim(req.url.as_str());
    if url.as_str().is_empty() {
        return Err(ApiError::BadRequest(String::from_str("url is required")));
    }
    let id = new_worker_id();
    let now = now_rfc3339();
    Ok(
        WorkerRecord {
            id,
            name,
            url,
            notes: req.notes.clone(),
            api_key: req.api_key.clone(),
            poll_enabled: true,
            created_at: now.clone(),
            updated_at: now,
        },
    )
}

/// One field of a worker that an update sets.
#[derive(Clone, Debug)]
pub enum WorkerChange {
    Name(String),
    Url(String),
    Notes(String),
    ApiKey(String),
    PollEnabled(bool),
}

pub enum WorkerChangeView {
    Name(Seq<char>),
    Url(Seq<char>),
    Notes(Seq<char>),
    ApiKey(Seq<char>),
    PollEnabled(bool),
}

impl View for WorkerChange {
    type V = WorkerChangeView;

    open spec fn view(&self) -> WorkerChangeView {
        match self {
            WorkerChange::Name(v) => WorkerChangeView::Name(v@),
            WorkerChange::Url(v) => WorkerChangeView::Url(v@),
            WorkerChange::Notes(v) => WorkerChangeView::Notes(v@),
            WorkerChange::ApiKey(v) => WorkerChangeView::ApiKey(v@),
            WorkerChange::PollEnabled(b) => WorkerChangeView::PollEnabled(*b),
        }
    }
}

/// The fields that an update request names, in the order name, URL, notes,
/// API key, polling switch.
pub open spec fn requested_changes(req: UpdateWorkerRequest) -> Seq<WorkerChangeView> {
    let s0 = Seq::<WorkerChangeView>::empty();
    let s1 = match req.name {
        Some(v) => s0.push(WorkerChangeView::Name(v@)),
        None => s0,
    };
    let s2 = match req.url {
        Some(v) => s1.push(WorkerChangeView::Url(v@)),
        None => s1,
    };
    let s3 = match req.notes {
        Some(v) => s2.push(WorkerChangeView::Notes(v@)),
        None => s2,
    };
    let s4 = match req.api_key {
        Some(v) => s3.push(WorkerChangeView::ApiKey(v@)),
        None => s3,
    };
    match req.poll_enabled {
        Some(b) => s4.push(WorkerChangeView::PollEnabled(b)),
        None => s4,
    }
}

/// Law: an update plans a change of exactly the fields it names, each to the
/// value it gives: a named field is among the changes with its value, and
/// every change is of a named field to that field's value.
pub proof fn update_changes_exactly_the_named_fields(req: UpdateWorkerRequest)
    ensures
        req.name matches Some(v) ==> requested_changes(req).contains(WorkerChangeView::Name(v@)),
        req.url matches Some(v) ==> requested_changes(req).contains(WorkerChangeView::Url(v@)),
        req.notes matches Some(v) ==> requested_changes(req).contains(WorkerChangeView::Notes(v@)),
        req.api_key matches Some(v) ==> requested_changes(req).contains(WorkerChangeView::ApiKey(v@)),
        req.poll_enabled matches Some(b) ==> requested_changes(req).contains(
            WorkerChangeView::PollEnabled(b),
        ),
        forall|i: int|
            0 <= i < requested_changes(req).len() ==> match #[trigger] requested_changes(req)[i] {
                WorkerChangeView::Name(v) => req.name matches Some(x) && x@ == v,
                WorkerChangeView::Url(v) => req.url matches Some(x) && x@ == v,
                WorkerChangeView::Notes(v) => req.notes matches Some(x) && x@ == v,
                WorkerChangeView::ApiKey(v) => req.api_key matches Some(x) && x@ == v,
                WorkerChangeView::PollEnabled(v) => req.poll_enabled == Some(v),
            },
{
    let s = requested_changes(req);
    let a: int = if req.name is Some { 1 } else { 0 };
    let b: int = if req.url is Some { 1 } else { 0 };
    let c: int = if req.notes is Some { 1 } else { 0 };
    let d: int = if req.api_key is Some { 1 } else { 0 };
    if let Some(v) = req.name {
        assert(s[0] == WorkerChangeView::Name(v@));
    }
    if let Some(v) = req.url {
        assert(s[a] == WorkerChangeView::Url(v@));
    }
    if let Some(v) = req.notes {
        assert(s[a + b] == WorkerChangeView::Notes(v@));
    }
    if let Some(v) = req.api_key {
        assert(s[a + b + c] == WorkerChangeView::ApiKey(v@));
    }
    if let Some(v) = req.poll_enabled {
        assert(s[a + b + c + d] == WorkerChangeView::PollEnabled(v));
    }
}

/// The changes to apply to a stored worker, each stamped `updated_at`.
#[derive(Clone, Debug)]
pub struct WorkerUpdate {
    pub changes: Vec<WorkerChange>,
    pub updated_at: String,
}

/// What an update of a worker does: nothing when the worker does not exist,
/// else the requested changes, stamped now.
pub fn plan_worker_update(exists: bool, req: &UpdateWorkerRequest) -> (res: Option<WorkerUpdate>)
    ensures
        res is None <==> !exists,
        res matches Some(u) ==> u.changes@.map_values(|c: WorkerChange| c@) == requested_changes(*req)
            && is_utc_stamp(u.updated_at@),
{
    if !exists {
        return None;
    }
    let updated_at = now_rfc3339();
    let mut changes: Vec<WorkerChange> = Vec::new();
    let ghost f = |c: WorkerChange| c@;
    let ghost s0 = changes@.map_values(f);
    assert(s0 =~= Seq::<WorkerChangeView>::empty());
    match &req.name {
        Some(v) => {
            changes.push(WorkerChange::Name(v.clone()));
        },
        None => {},
    }
    let ghost s1 = changes@.map_values(f);
    assert(s1 =~= match req.name {
        Some(v) => s0.push(WorkerChangeView::Name(v@)),
        None => s0,
    });
    match &req.url {
        Some(v) => {
            changes.push(WorkerChange::Url(v.clone()));
        },
        None => {},
    }
    let ghost s2 = changes@.map_values(f);
    assert(s2 =~= match req.url {
        Some(v) => s1.push(WorkerChangeView::Url(v@)),
        None => s1,
    });
    match &req.notes {
        Some(v) => {
            changes.push(WorkerChange::Notes(v.clone()));
        },
        None => {},
    }
    let ghost s3 = changes@.map_values(f);
    assert(s3 =~= match req.notes {
        Some(v) => s2.push(WorkerChangeView::Notes(v@)),
        None => s2,
    });
    match &req.api_key {
        Some(v) => {
            changes.push(WorkerChange::ApiKey(v.clone()));
        },
        None => {},
    }
    let ghost s4 = changes@.map_values(f);
    assert(s4 =~= match req.api_key {
        Some(v) => s3.push(WorkerChangeView::ApiKey(v@)),
        None => s3,
    });
    match req.poll_enabled {
        Some(b) => {
            changes.push(WorkerChange::PollEnabled(b));
        },
        None => {},
    }
    assert(changes@.map_values(f) =~= match req.poll_enabled {
        Some(b) => s4.push(WorkerChangeView::PollEnabled(b)),
        None => s4,
    });
    Some(WorkerUpdate { changes, updated_at })
}

/// Law: an update that names no field asks for no change.
pub proof fn empty_update_changes_nothing(req: UpdateWorkerRequest)
    requires
        req.name is None,
        req.url is None,
        req.notes is None,
        req.api_key is None,
        req.poll_enabled is None,
    ensures
        requested_changes(req).len() == 0,
{
}

/// Law: an update sets each field at most once, so at most five fields.
pub proof fn update_sets_each_field_once(req: UpdateWorkerRequest)
    ensures
        requested_changes(req).len() <= 5,
        forall|i: int, j: int|
            0 <= i < j < requested_changes(req).len() ==> change_field(requested_changes(req)[i])
                < change_field(requested_changes(req)[j]),
{
}

/// The position of a change's field in the order name, URL, notes, API key, polling switch.
pub open spec fn change_field(c: WorkerChangeView) -> int {
    match c {
        WorkerChangeView::Name(_) => 0,
        WorkerChangeView::Url(_) => 1,
        WorkerChangeView::Notes(_) => 2,
        WorkerChangeView::ApiKey(_) => 3,
        WorkerChangeView::PollEnabled(_) => 4,
    }
}

/// The message for a worker without a URL.
pub open spec fn no_url_configured() -> Seq<char> {
    "Worker has no URL configured"@
}

/// The logs endpoint of a worker at `base`, asking for `lines` lines.
pub open spec fn logs_url(base: Seq<char>, lines: u32) -> Seq<char> {
    strip_trailing_char(base, '/') + "/api/logs?lines="@ + decimal(lines as nat)
}

/// Where `GET /api/workers/{id}/logs` asks the worker `id` for its logs: the
/// worker must exist and have a URL.
pub fn logs_request_url(id: &str, worker: &Option<WorkerRecord>, lines: u32) -> (res: Result<String, ApiError>)
    ensures
        match worker {
            None => res matches Err(ApiError::NotFound(m)) && m@ == crate::errors::not_found_message(id@),
            Some(w) => if strip_trailing_char(w.url@, '/').len() == 0 {
                res matches Err(ApiError::BadRequest(m)) && m@ == no_url_configured()
            } else {
                res matches Ok(u) && u@ == logs_url(w.url@, lines)
            },
        },
{
    match worker {
        None => Err(worker_not_found(id)),
        Some(w) => {
            let base = trim_end_char(w.url.as_str(), '/');
            if base.as_str().is_empty() {
                Err(ApiError::BadRequest(String::from_str("Worker has no URL configured")))
            } else {
                let n = decimal_string(lines as u64);
                Ok(join3(base.as_str(), "/api/logs?lines=", n.as_str()))
            }
        },
    }
}

/// What the logs endpoint answers when the worker's logs cannot be passed on.
pub enum LogsReply {
    /// The worker's own JSON answer, passed on unchanged.
    Forward(JsonDoc),
    /// A failure to report, with its message.
    Failure(String),
}

/// What `GET /api/workers/{id}/logs` answers, given how the request to the
/// worker went: transport failures are errors; a failed status or a body that
/// is not JSON is reported as a failure; a JSON body is passed on.
pub fn logs_reply(reply: HttpReply) -> (res: Result<LogsReply, ApiError>)
    ensures
        match reply {
            HttpReply::SendFailed(e) => res matches Err(ApiError::Internal(m)) && m@
                == "Failed to connect to worker: "@ + e@,
            HttpReply::ReadFailed(e) => res matches Err(ApiError::Internal(m)) && m@
                == "Failed to read worker response: "@ + e@,
            HttpReply::Received { status, body } => if !is_success_code(status.code) {
                res matches Ok(LogsReply::Failure(m)) && m@ == "Worker returned HTTP "@ + status.text@
            } else if !json_text_accepted(body@) {
                res matches Ok(LogsReply::Failure(m)) && m@ == "Invalid JSON from worker"@
            } else {
                res matches Ok(LogsReply::Forward(d)) && d@ == body@
            },
        },
{
    match reply {
        HttpReply::SendFailed(e) => Err(
            ApiError::Internal(join2("Failed to connect to worker: ", e.as_str())),
        ),
        HttpReply::ReadFailed(e) => Err(
            ApiError::Internal(join2("Failed to read worker response: ", e.as_str())),
        ),
        HttpReply::Received { status, body } => {
            if !status.is_success() {
                Ok(LogsReply::Failure(join2("Worker returned HTTP ", status.text.as_str())))
            } else {
                match parse_json(body.as_str()) {
                    Some(doc) => Ok(LogsReply::Forward(doc)),
                    None => Ok(LogsReply::Failure(String::from_str("Invalid JSON from worker"))),
                }
            }
        },
    }
}

/// How many snapshots of each worker are kept.
pub const SNAPSHOTS_KEPT_PER_WORKER: usize = 1000;

/// The snapshots to delete after a poll, given the ids of a worker's
/// snapshots, newest first: all but the first `SNAPSHOTS_KEPT_PER_WORKER`.
pub fn snapshots_to_prune(ids_newest_first: &Vec<i64>) -> (res: Vec<i64>)
    ensures
        ids_newest_first@.len() <= SNAPSHOTS_KEPT_PER_WORKER ==> res@.len() == 0,
        ids_newest_first@.len() > SNAPSHOTS_KEPT_PER_WORKER ==> res@ == ids_newest_first@.skip(
            SNAPSHOTS_KEPT_PER_WORKER as int,
        ),
{
    let mut res: Vec<i64> = Vec::new();
    let mut i = SNAPSHOTS_KEPT_PER_WORKER;
    while i < ids_newest_first.len()
        invariant
            SNAPSHOTS_KEPT_PER_WORKER <= i,
            i <= ids_newest_first.len() || res@.len() == 0,
            i <= ids_newest_first.len() ==> res@ == ids_newest_first@.subrange(
                SNAPSHOTS_KEPT_PER_WORKER as int,
                i as int,
            ),
            i > ids_newest_first.len() ==> i == SNAPSHOTS_KEPT_PER_WORKER,
        decreases ids_newest_first.len() - i,
    {
        res.push(ids_newest_first[i]);
        i = i + 1;
    }
    proof {
        if ids_newest_first@.len() > SNAPSHOTS_KEPT_PER_WORKER {
            assert(res@ =~= ids_newest_first@.skip(SNAPSHOTS_KEPT_PER_WORKER as int));
        }
    }
    res
}

/// Law: when a worker's snapshot ids are given newest first, pruning keeps
/// the newest ones, at most `SNAPSHOTS_KEPT_PER_WORKER` of them, and every
/// snapshot kept is newer than every snapshot deleted.
pub proof fn pruning_keeps_newest(ids: Seq<i64>)
    requires
        forall|i: int, j: int| 0 <= i < j < ids.len() ==> ids[i] > ids[j],
    ensures
        ({
            let n = SNAPSHOTS_KEPT_PER_WORKER as int;
            let pruned = if ids.len() > n {
                ids.skip(n)
            } else {
                Seq::empty()
            };
            let kept = if ids.len() > n {
                ids.take(n)
            } else {
                ids
            };
            &&& kept + pruned == ids
            &&& kept.len() <= n
            &&& forall|a: int, b: int|
                0 <= a < kept.len() && 0 <= b < pruned.len() ==> kept[a] > pruned[b]
        }),
{
    let n = SNAPSHOTS_KEPT_PER_WORKER as int;
    if ids.len() > n {
        assert(ids.take(n) + ids.skip(n) =~= ids);
        assert forall|a: int, b: int|
            0 <= a < ids.take(n).len() && 0 <= b < ids.skip(n).len() implies ids.take(n)[a]
            > ids.skip(n)[b] by {
            assert(ids.take(n)[a] == ids[a]);
            assert(ids.skip(n)[b] == ids[n + b]);
        }
    } else {
        assert(ids + Seq::<i64>::empty() =~= ids);
    }
}

} // verus!
