//! Operations on several workers at once: checking versions, upgrading,
//! changing configuration and setting passwords.
use vstd::prelude::*;
use vstd::utf8::encode_utf8;
use crate::errors::ApiError;
use crate::json::{bool_at, json_bool_at, json_str_at, json_text_accepted, parse_json, str_at, JsonDoc};
use crate::models::{is_success_code, HttpReply, WorkerRecord};
use crate::poll::{decode_error, decode_error_message};
use crate::text::{join2, join3, strip_trailing_char, trim_end_char};

verus! {

/// `POST /api/batch/version` and `/api/batch/upgrade`: the workers to act on.
#[derive(Clone, Debug)]
pub struct BatchRequest {
    pub worker_ids: Vec<String>,
}

/// `POST /api/batch/config`: the workers and the settings to give them.
#[derive(Clone, Debug)]
pub struct BatchConfigRequest {
    pub worker_ids: Vec<String>,
    pub mining_pool_url: Option<String>,
    pub payment_address_evm: Option<String>,
    pub payment_address_bittensor: Option<String>,
}

/// `POST /api/batch/password`: the workers and their new password.
#[derive(Clone, Debug)]
pub struct BatchPasswordRequest {
    pub worker_ids: Vec<String>,
    pub password: String,
}

/// A worker that a batch operation acts on; its URL has no trailing `/`.
#[derive(Clone, Debug)]
pub struct BatchTarget {
    pub id: String,
    pub name: String,
    pub url: String,
    pub api_key: String,
}

/// The target for a stored worker.
pub open spec fn target_for(w: WorkerRecord, t: BatchTarget) -> bool {
    &&& t.id@ == w.id@
    &&& t.name@ == w.name@
    &&& t.url@ == strip_trailing_char(w.url@, '/')
    &&& t.api_key@ == w.api_key@
}

pub open spec fn no_valid_workers() -> Seq<char> {
    "No valid workers found"@
}

/// The targets of a batch operation, one for each worker found, in order; a
/// batch that found no worker is refused.
pub fn batch_targets(workers: &Vec<WorkerRecord>) -> (res: Result<Vec<BatchTarget>, ApiError>)
    ensures
        workers@.len() == 0 ==> (res matches Err(ApiError::BadRequest(m)) && m@
            == no_valid_workers()),
        workers@.len() > 0 ==> (res matches Ok(ts) && ts@.len() == workers@.len() && forall|i: int|
            0 <= i < ts@.len() ==> target_for(workers@[i], #[trigger] ts@[i])),
{
    if workers.len() == 0 {
        return Err(ApiError::BadRequest(String::from_str("No valid workers found")));
    }
    let mut ts: Vec<BatchTarget> = Vec::new();
    let mut i: usize = 0;
    while i < workers.len()
        invariant
            i <= workers.len(),
            ts@.len() == i,
            forall|k: int| 0 <= k < i ==> target_for(workers@[k], #[trigger] ts@[k]),
        decreases workers.len() - i,
    {
        let w = &workers[i];
        ts.push(
            BatchTarget {
                id: w.id.clone(),
                name: w.name.clone(),
                url: trim_end_char(w.url.as_str(), '/'),
                api_key: w.api_key.clone(),
            },
        );
        i = i + 1;
    }
    Ok(ts)
}

/// The settings that a configuration request names, in the order mining pool
/// URL, EVM payment address, Bittensor payment address.
pub open spec fn requested_settings(req: BatchConfigRequest) -> Seq<(Seq<char>, Seq<char>)> {
    let s0 = Seq::<(Seq<char>, Seq<char>)>::empty();
    let s1 = match req.mining_pool_url {
        Some(v) => s0.push(("mining_pool_url"@, v@)),
        None => s0,
    };
    let s2 = match req.payment_address_evm {
        Some(v) => s1.push(("payment_address_evm"@, v@)),
        None => s1,
    };
    match req.payment_address_bittensor {
        Some(v) => s2.push(("payment_address_bittensor"@, v@)),
        None => s2,
    }
}

pub open spec fn pair_view(p: (String, String)) -> (Seq<char>, Seq<char>) {
    (p.0@, p.1@)
}

/// Law: each setting that a configuration request names is sent under its
/// own key with its value, nothing else is sent, and a request is refused
/// (sends nothing) only when it names none of the three.
pub proof fn config_sends_each_named_setting(req: BatchConfigRequest)
    ensures
        req.mining_pool_url matches Some(v) ==> requested_settings(req).contains(
            ("mining_pool_url"@, v@),
        ),
        req.payment_address_evm matches Some(v) ==> requested_settings(req).contains(
            ("payment_address_evm"@, v@),
        ),
        req.payment_address_bittensor matches Some(v) ==> requested_settings(req).contains(
            ("payment_address_bittensor"@, v@),
        ),
        forall|i: int|
            0 <= i < requested_settings(req).len() ==> {
                ||| (req.mining_pool_url matches Some(v) && #[trigger] requested_settings(req)[i] == (
                    "mining_pool_url"@,
                    v@,
                ))
                ||| (req.payment_address_evm matches Some(v) && requested_settings(req)[i] == (
                    "payment_address_evm"@,
                    v@,
                ))
                ||| (req.payment_address_bittensor matches Some(v) && requested_settings(req)[i] == (
                    "payment_address_bittensor"@,
                    v@,
                ))
            },
        requested_settings(req).len() == 0 <==> (req.mining_pool_url is None
            && req.payment_address_evm is None && req.payment_address_bittensor is None),
{
    let s = requested_settings(req);
    let a: int = if req.mining_pool_url is Some { 1 } else { 0 };
    let b: int = if req.payment_address_evm is Some { 1 } else { 0 };
    if let Some(v) = req.mining_pool_url {
        assert(s[0] == ("mining_pool_url"@, v@));
    }
    if let Some(v) = req.payment_address_evm {
        assert(s[a] == ("payment_address_evm"@, v@));
    }
    if let Some(v) = req.payment_address_bittensor {
        assert(s[a + b] == ("payment_address_bittensor"@, v@));
    }
}

/// The settings sent to each worker by `POST /api/batch/config`; a request
/// that names none is refused.
pub fn config_payload(req: &BatchConfigRequest) -> (res: Result<Vec<(String, String)>, ApiError>)
    ensures
        requested_settings(*req).len() == 0 ==> (res matches Err(ApiError::BadRequest(m)) && m@
            == "At least one config field is required"@),
        requested_settings(*req).len() > 0 ==> (res matches Ok(p) && pairs_view(p@)
            == requested_settings(*req)),
{
    if req.mining_pool_url.is_none() && req.payment_address_evm.is_none()
        && req.payment_address_bittensor.is_none() {
        return Err(ApiError::BadRequest(String::from_str("At least one config field is required")));
    }
    let mut p: Vec<(String, String)> = Vec::new();
    let ghost s0 = pairs_view(p@);
    assert(s0 =~= Seq::<(Seq<char>, Seq<char>)>::empty());
    match &req.mining_pool_url {
        Some(v) => {
            p.push((String::from_str("mining_pool_url"), v.clone()));
        },
        None => {},
    }
    let ghost s1 = pairs_view(p@);
    assert(s1 =~= match req.mining_pool_url {
        Some(v) => s0.push(("mining_pool_url"@, v@)),
        None => s0,
    });
    match &req.payment_address_evm {
        Some(v) => {
            p.push((String::from_str("payment_address_evm"), v.clone()));
        },
        None => {},
    }
    let ghost s2 = pairs_view(p@);
    assert(s2 =~= match req.payment_address_evm {
        Some(v) => s1.push(("payment_address_evm"@, v@)),
        None => s1,
    });
    match &req.payment_address_bittensor {
        Some(v) => {
            p.push((String::from_str("payment_address_bittensor"), v.clone()));
        },
        None => {},
    }
    assert(pairs_view(p@) =~= match req.payment_address_bittensor {
        Some(v) => s2.push(("payment_address_bittensor"@, v@)),
        None => s2,
    });
    Ok(p)
}

/// A password is refused when its UTF-8 form is shorter than 4 bytes.
pub fn check_password(req: &BatchPasswordRequest) -> (res: Result<(), ApiError>)
    ensures
        res is Ok <==> encode_utf8(req.password@).len() >= 4,
        res is Err ==> (res matches Err(ApiError::BadRequest(m)) && m@
            == "Password must be at least 4 characters"@),
{
    let n = req.password.as_str().as_bytes().len();
    if n < 4 {
        Err(ApiError::BadRequest(String::from_str("Password must be at least 4 characters")))
    } else {
        Ok(())
    }
}

/// A batch operation, with what it sends.
#[derive(Clone, Debug)]
pub enum BatchOp {
    CheckVersion,
    Upgrade,
    Config(Vec<(String, String)>),
    SetPassword(String),
}

/// A request to one worker for a batch operation.
#[derive(Clone, Debug)]
pub struct ActionRequest {
    /// `POST` when true, else `GET`.
    pub post: bool,
    pub url: String,
    pub timeout_secs: u64,
    /// The value of the `Authorization` header, if any.
    pub authorization: Option<String>,
    /// The JSON object to send: its string fields, in order.
    pub json_body: Option<Vec<(String, String)>>,
}

/// The endpoint path of each operation.
pub open spec fn op_path(op: BatchOp) -> Seq<char> {
    match op {
        BatchOp::CheckVersion => "/api/version"@,
        BatchOp::Upgrade => "/api/upgrade"@,
        BatchOp::Config(_) => "/api/config/update"@,
        BatchOp::SetPassword(_) => "/api/password"@,
    }
}

/// How long each operation may take, in seconds.
pub open spec fn op_timeout(op: BatchOp) -> u64 {
    match op {
        BatchOp::Upgrade => 120,
        _ => 10,
    }
}

pub open spec fn pairs_view(v: Seq<(String, String)>) -> Seq<(Seq<char>, Seq<char>)> {
    v.map_values(|q: (String, String)| pair_view(q))
}

pub open spec fn body_view(b: Option<Vec<(String, String)>>) -> Option<Seq<(Seq<char>, Seq<char>)>> {
    match b {
        Some(v) => Some(pairs_view(v@)),
        None => None,
    }
}

/// What each operation sends.
pub open spec fn op_body(op: BatchOp) -> Option<Seq<(Seq<char>, Seq<char>)>> {
    match op {
        BatchOp::CheckVersion => None,
        BatchOp::Upgrade => None,
        BatchOp::Config(p) => Some(pairs_view(p@)),
        BatchOp::SetPassword(pw) => Some(seq![("password"@, pw@)]),
    }
}

/// The request that carries out `op` on `target`, with the login token as a bearer token.
pub fn action_request(op: BatchOp, target: &BatchTarget, token: &Option<String>) -> (res: ActionRequest)
    ensures
        res.post == !(op is CheckVersion),
        res.url@ == target.url@ + op_path(op),
        res.timeout_secs == op_timeout(op),
        body_view(res.json_body) == op_body(op),
        match token {
            Some(t) => res.authorization matches Some(a) && a@ == "Bearer "@ + t@,
            None => res.authorization is None,
        },
{
    let authorization = match token {
        Some(t) => Some(join2("Bearer ", t.as_str())),
        None => None,
    };
    match op {
        BatchOp::CheckVersion => {
            ActionRequest {
            post: false,
            url: join2(target.url.as_str(), "/api/version"),
            timeout_secs: 10,
            authorization,
            json_body: None,
        }},
        BatchOp::Upgrade => ActionRequest {
            post: true,
            url: join2(target.url.as_str(), "/api/upgrade"),
            timeout_secs: 120,
            authorization,
            json_body: None,
        },
        BatchOp::Config(p) => ActionRequest {
            post: true,
            url: join2(target.url.as_str(), "/api/config/update"),
            timeout_secs: 10,
            authorization,
            json_body: Some(p),
        },
        BatchOp::SetPassword(pw) => {
            let mut body: Vec<(String, String)> = Vec::new();
            body.push((String::from_str("password"), pw));
            assert(pairs_view(body@) =~= seq![("password"@, pw@)]);
            ActionRequest {
                post: true,
                url: join2(target.url.as_str(), "/api/password"),
                timeout_secs: 10,
                authorization,
                json_body: Some(body),
            }
        },
    }
}

pub open spec fn doc_result_view(r: Result<JsonDoc, String>) -> Result<Seq<char>, Seq<char>> {
    match r {
        Ok(d) => Ok(d@),
        Err(e) => Err(e@),
    }
}

/// What an authenticated `GET` to a worker yields: the JSON body of a
/// successful answer, else an error. The body is read as JSON before the
/// status is looked at.
pub open spec fn get_result(reply: HttpReply) -> Result<Seq<char>, Seq<char>> {
    match reply {
        HttpReply::SendFailed(e) => Err(e@),
        HttpReply::ReadFailed(e) => Err(e@),
        HttpReply::Received { status, body } => if !json_text_accepted(body@) {
            Err(decode_error_message())
        } else if !is_success_code(status.code) {
            Err("HTTP "@ + status.text@)
        } else {
            Ok(body@)
        },
    }
}

/// The explanation in a worker's error answer: its `message`, else its
/// `error`, else `unknown error`.
pub open spec fn error_explanation(text: Seq<char>) -> Seq<char> {
    match json_str_at(text, "/message"@) {
        Some(m) => m,
        None => match json_str_at(text, "/error"@) {
            Some(e) => e,
            None => "unknown error"@,
        },
    }
}

/// What an authenticated `POST` to a worker yields; a failed status carries
/// the worker's explanation.
pub open spec fn post_result(reply: HttpReply) -> Result<Seq<char>, Seq<char>> {
    match reply {
        HttpReply::SendFailed(e) => Err(e@),
        HttpReply::ReadFailed(e) => Err(e@),
        HttpReply::Received { status, body } => if !json_text_accepted(body@) {
            Err(decode_error_message())
        } else if !is_success_code(status.code) {
            Err("HTTP "@ + status.text@ + ": "@ + error_explanation(body@))
        } else {
            Ok(body@)
        },
    }
}

/// The result of an authenticated request to a worker: a `GET` when `post`
/// is false, else a `POST`.
pub fn request_result(post: bool, reply: HttpReply) -> (res: Result<JsonDoc, String>)
    ensures
        doc_result_view(res) == if post {
            post_result(reply)
        } else {
            get_result(reply)
        },
{
    match reply {
        HttpReply::SendFailed(e) => Err(e),
        HttpReply::ReadFailed(e) => Err(e),
        HttpReply::Received { status, body } => match parse_json(body.as_str()) {
            None => Err(decode_error()),
            Some(doc) => {
                if status.is_success() {
                    Ok(doc)
                } else if !post {
                    Err(join2("HTTP ", status.text.as_str()))
                } else {
                    let why = match str_at(&doc, "/message") {
                        Some(m) => m,
                        None => match str_at(&doc, "/error") {
                            Some(e) => e,
                            None => String::from_str("unknown error"),
                        },
                    };
                    Err(join3("HTTP ", status.text.as_str(), ": ").concat(why.as_str()))
                }
            },
        },
    }
}

/// The outcome of a batch operation on one worker.
pub struct BatchResult {
    pub worker_id: String,
    pub worker_name: String,
    pub success: bool,
    pub message: String,
    /// For a version check that succeeded: the worker's answer, whose `data`
    /// the result shows.
    pub report: Option<JsonDoc>,
    /// For a password change that succeeded: the API key to store for the worker.
    pub new_api_key: Option<String>,
}

/// The result for a worker whose login failed with `error`.
pub fn login_failed_result(target: &BatchTarget, error: String) -> (res: BatchResult)
    ensures
        res.worker_id@ == target.id@,
        res.worker_name@ == target.name@,
        !res.success,
        res.message == error,
        res.report is None,
        res.new_api_key is None,
{
    BatchResult {
        worker_id: target.id.clone(),
        worker_name: target.name.clone(),
        success: false,
        message: error,
        report: None,
        new_api_key: None,
    }
}

/// A field of a version answer, or `-`.
pub open spec fn or_dash(o: Option<Seq<char>>) -> Seq<char> {
    match o {
        Some(s) => s,
        None => "-"@,
    }
}

/// The summary of a version answer: `current → latest`, marked when an update is available.
pub open spec fn version_summary(text: Seq<char>) -> Seq<char> {
    or_dash(json_str_at(text, "/data/current"@)) + " → "@ + or_dash(
        json_str_at(text, "/data/latest"@),
    ) + if json_bool_at(text, "/data/has_update"@) == Some(true) {
        " (update available)"@
    } else {
        Seq::empty()
    }
}

/// The message of a worker's answer, or `OK`.
pub open spec fn answer_message(text: Seq<char>) -> Seq<char> {
    match json_str_at(text, "/message"@) {
        Some(m) => m,
        None => "OK"@,
    }
}

/// The result of `op` on `target`, given the result of its request.
pub fn batch_result(op: &BatchOp, target: &BatchTarget, outcome: Result<JsonDoc, String>) -> (res: BatchResult)
    ensures
        res.worker_id@ == target.id@,
        res.worker_name@ == target.name@,
        res.success == outcome is Ok,
        match outcome {
            Err(e) => res.message@ == e@ && res.report is None && res.new_api_key is None,
            Ok(d) => match *op {
                BatchOp::CheckVersion => res.message@ == version_summary(d@) && (res.report matches Some(r)
                    && r@ == d@) && res.new_api_key is None,
                BatchOp::SetPassword(pw) => res.message@ == answer_message(d@) && res.report is None
                    && (res.new_api_key matches Some(k) && k@ == pw@),
                _ => res.message@ == answer_message(d@) && res.report is None && res.new_api_key is None,
            },
        },
{
    match outcome {
        Err(e) => BatchResult {
            worker_id: target.id.clone(),
            worker_name: target.name.clone(),
            success: false,
            message: e,
            report: None,
            new_api_key: None,
        },
        Ok(doc) => {
            match op {
                BatchOp::CheckVersion => {
                    let current = match str_at(&doc, "/data/current") {
                        Some(s) => s,
                        None => String::from_str("-"),
                    };
                    let latest = match str_at(&doc, "/data/latest") {
                        Some(s) => s,
                        None => String::from_str("-"),
                    };
                    let mark = if bool_at(&doc, "/data/has_update") == Some(true) {
                        " (update available)"
                    } else {
                        ""
                    };
                    proof {
                        reveal_strlit("");
                    }
                    let message = join3(current.as_str(), " → ", latest.as_str()).concat(mark);
                    BatchResult {
                        worker_id: target.id.clone(),
                        worker_name: target.name.clone(),
                        success: true,
                        message,
                        report: Some(doc),
                        new_api_key: None,
                    }
                },
                _ => {
                    let message = match str_at(&doc, "/message") {
                        Some(m) => m,
                        None => String::from_str("OK"),
                    };
                    let new_api_key = match op {
                        BatchOp::SetPassword(pw) => Some(pw.clone()),
                        _ => None,
                    };
                    BatchResult {
                        worker_id: target.id.clone(),
                        worker_name: target.name.clone(),
                        success: true,
                        message,
                        report: None,
                        new_api_key,
                    }
                },
            }
        },
    }
}

} // verus!
