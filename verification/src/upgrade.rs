//! The dashboard's own version: comparing it with the latest release, and
//! replacing the running binary with the released one.
use vstd::prelude::*;
use crate::text::{join2, join3, strip_leading_char, trim_start_char};

verus! {

/// The name of the released binary that this dashboard runs as.
pub open spec fn asset_name() -> Seq<char> {
    "tpn-worker-dashboard-linux-ubuntu22-amd64"@
}

/// A file attached to a release.
#[derive(Clone, Debug)]
pub struct GitHubAsset {
    pub name: String,
    pub browser_download_url: String,
}

/// The latest release of the dashboard.
#[derive(Clone, Debug)]
pub struct GitHubRelease {
    pub tag_name: String,
    pub assets: Vec<GitHubAsset>,
}

/// `GET /api/version`: the running version and the latest release.
#[derive(Clone, Debug)]
pub struct VersionInfo {
    pub current: String,
    pub latest: Option<String>,
    pub has_update: bool,
    pub download_url: Option<String>,
}

/// The `User-Agent` that the dashboard sends to GitHub.
pub open spec fn user_agent() -> Seq<char> {
    "tpn-worker-dashboard"@
}

/// How long the request for the latest release may take, in seconds.
pub const RELEASE_CHECK_TIMEOUT_SECS: u64 = 10;

/// How long the download of a release may take, in seconds.
pub const DOWNLOAD_TIMEOUT_SECS: u64 = 300;

/// A `GET` request to GitHub.
#[derive(Clone, Debug)]
pub struct ReleaseRequest {
    pub url: String,
    pub timeout_secs: u64,
    pub user_agent: String,
}

/// Where the latest release of `repo` is described.
pub fn release_api_url(repo: &str) -> (res: String)
    ensures
        res@ == "https://api.github.com/repos/"@ + repo@ + "/releases/latest"@,
{
    join3("https://api.github.com/repos/", repo, "/releases/latest")
}

/// Where the binary of the latest release of `repo` is downloaded from.
pub fn download_url(repo: &str) -> (res: String)
    ensures
        res@ == "https://github.com/"@ + repo@ + "/releases/download/latest/"@ + asset_name(),
{
    join3("https://github.com/", repo, "/releases/download/latest/").concat(
        "tpn-worker-dashboard-linux-ubuntu22-amd64",
    )
}

/// The request for the description of the latest release of `repo`.
pub fn release_request(repo: &str) -> (res: ReleaseRequest)
    ensures
        res.url@ == "https://api.github.com/repos/"@ + repo@ + "/releases/latest"@,
        res.timeout_secs == RELEASE_CHECK_TIMEOUT_SECS,
        res.user_agent@ == user_agent(),
{
    ReleaseRequest {
        url: release_api_url(repo),
        timeout_secs: RELEASE_CHECK_TIMEOUT_SECS,
        user_agent: String::from_str("tpn-worker-dashboard"),
    }
}

/// The download URL of the first asset named `name`.
pub open spec fn first_asset_url(assets: Seq<GitHubAsset>, name: Seq<char>) -> Option<Seq<char>>
    decreases assets.len(),
{
    if assets.len() == 0 {
        None
    } else if assets[0].name@ == name {
        Some(assets[0].browser_download_url@)
    } else {
        first_asset_url(assets.drop_first(), name)
    }
}

/// A version without its leading `v`s, as versions are compared.
pub open spec fn bare_version(v: Seq<char>) -> Seq<char> {
    strip_leading_char(v, 'v')
}

pub open spec fn opt_view(o: Option<String>) -> Option<Seq<char>> {
    match o {
        Some(s) => Some(s@),
        None => None,
    }
}

/// The version report for the running `version` given the latest release,
/// if it could be fetched: an update is available when the release's tag
/// names another version, leading `v`s aside.
pub fn version_info(version: &str, release: Option<GitHubRelease>) -> (res: VersionInfo)
    ensures
        res.current@ == "v"@ + version@,
        release is None ==> res.latest is None && !res.has_update && res.download_url is None,
        release matches Some(r) ==> {
            &&& opt_view(res.latest) == Some(r.tag_name@)
            &&& res.has_update == (bare_version(r.tag_name@) != bare_version(res.current@))
            &&& opt_view(res.download_url) == first_asset_url(r.assets@, asset_name())
        },
{
    let current = join2("v", version);
    match release {
        None => VersionInfo { current, latest: None, has_update: false, download_url: None },
        Some(r) => {
            let latest_bare = trim_start_char(r.tag_name.as_str(), 'v');
            let current_bare = trim_start_char(current.as_str(), 'v');
            let has_update = !(latest_bare == current_bare);
            let mut download_url: Option<String> = None;
            let wanted = String::from_str("tpn-worker-dashboard-linux-ubuntu22-amd64");
            let mut i: usize = 0;
            assert(r.assets@.skip(0) =~= r.assets@);
            while i < r.assets.len()
                invariant_except_break
                    i <= r.assets@.len(),
                    wanted@ == asset_name(),
                    download_url is None,
                    first_asset_url(r.assets@, asset_name()) == first_asset_url(
                        r.assets@.skip(i as int),
                        asset_name(),
                    ),
                ensures
                    opt_view(download_url) == first_asset_url(r.assets@, asset_name()),
                decreases r.assets@.len() - i,
            {
                assert(r.assets@.skip(i as int).drop_first() =~= r.assets@.skip(i + 1));
                assert(r.assets@.skip(i as int)[0] == r.assets@[i as int]);
                if r.assets[i].name == wanted {
                    download_url = Some(r.assets[i].browser_download_url.clone());
                    break;
                }
                i = i + 1;
                proof {
                    if i == r.assets@.len() {
                        assert(r.assets@.skip(i as int).len() == 0);
                    }
                }
            }
            proof {
                if r.assets@.len() == 0 {
                    assert(r.assets@.skip(0).len() == 0);
                }
            }
            VersionInfo { current, latest: Some(r.tag_name), has_update, download_url }
        },
    }
}

/// Law: a version without its leading `v`s is what follows them: the
/// version is some number of `v`s and then exactly that, which does not
/// start with `v`. Nothing else is cut off.
pub proof fn bare_version_drops_only_leading_vs(v: Seq<char>)
    ensures
        bare_version(v).len() <= v.len(),
        v == Seq::new((v.len() - bare_version(v).len()) as nat, |i: int| 'v') + bare_version(v),
        bare_version(v).len() == 0 || bare_version(v)[0] != 'v',
    decreases v.len(),
{
    if v.len() > 0 && v[0] == 'v' {
        bare_version_drops_only_leading_vs(v.drop_first());
        let k = (v.len() - bare_version(v).len()) as nat;
        assert(v =~= Seq::new(k, |i: int| 'v') + bare_version(v)) by {
            assert(v.drop_first() =~= Seq::new((k - 1) as nat, |i: int| 'v') + bare_version(v));
            assert forall|i: int| 0 <= i < v.len() implies v[i] == (Seq::new(k, |j: int| 'v')
                + bare_version(v))[i] by {
                if i > 0 {
                    assert(v[i] == v.drop_first()[i - 1]);
                }
            }
        }
    } else {
        assert(v =~= Seq::new(0, |i: int| 'v') + v);
    }
}

/// Law: a release whose tag names another version than the running one is
/// an update, whatever the two versions look like (neither starting with `v`).
pub proof fn other_version_is_an_update(version: Seq<char>, tag: Seq<char>)
    requires
        version.len() == 0 || version[0] != 'v',
        tag.len() == 0 || tag[0] != 'v',
        tag != version,
    ensures
        bare_version(tag) != bare_version("v"@ + version),
        bare_version("v"@ + tag) != bare_version("v"@ + version),
{
    reveal_strlit("v");
    assert(("v"@ + version).drop_first() =~= version);
    assert(("v"@ + tag).drop_first() =~= tag);
    assert(bare_version(version) == version);
    assert(bare_version(tag) == tag);
}

/// Law: a release tagged with the running version, with or without a
/// leading `v`, is not an update.
pub proof fn same_version_is_no_update(version: Seq<char>, tag: Seq<char>)
    requires
        tag == version || tag == seq!['v'] + version,
    ensures
        bare_version(tag) == bare_version("v"@ + version),
{
    reveal_strlit("v");
    assert(("v"@ + version).drop_first() =~= version);
    if tag != version {
        assert(tag.drop_first() =~= version);
    }
}

/// Where the downloaded binary is written before it replaces the running one.
pub open spec fn temp_path() -> Seq<char> {
    "/tmp/tpn-worker-dashboard-new"@
}

/// One step of an upgrade, carried out by the caller.
#[derive(Clone, Debug)]
pub enum UpgradeStep {
    /// Build an HTTP client whose requests may take `timeout_secs` seconds.
    BuildClient { timeout_secs: u64 },
    /// Request `url`, sending `user_agent` as the `User-Agent`.
    Download { url: String, user_agent: String },
    /// Read the downloaded body.
    ReadBody,
    /// Write the body to the temporary path.
    WriteTemp { path: String },
    /// Make `path` executable (mode 755).
    MakeExecutable { path: String },
    /// Run `path --help` to see that it starts.
    TryRun { path: String },
    /// Remove `path`; the outcome is not looked at.
    Remove { path: String },
    /// Find the path of the running binary.
    LocateSelf,
    /// Copy `from` to `to`.
    Copy { from: String, to: String },
    /// Restart from `path` after a short delay, then exit; the outcome is not looked at.
    ScheduleRestart { path: String },
}

/// How a step went.
#[derive(Clone, Debug)]
pub enum StepOutcome {
    Done,
    /// The running binary is at this path (the outcome of `LocateSelf`).
    Located(String),
    /// The step failed with this error.
    Failed(String),
    /// The download answered with this failed status (its text).
    BadStatus(String),
}

/// The answer to `POST /api/upgrade`.
#[derive(Clone, Debug)]
pub struct UpgradeReply {
    pub status_code: u16,
    pub success: bool,
    pub message: String,
}

/// Where an upgrade stands: the step last handed out.
#[derive(Clone, Debug)]
pub enum UpgradePhase {
    BuildingClient { repo: String },
    Downloading,
    ReadingBody,
    WritingTemp,
    MakingTempExecutable,
    TryingTemp,
    DiscardingTemp,
    LocatingSelf,
    BackingUp { exe: String },
    RemovingOld { exe: String },
    Installing { exe: String },
    RestoringAfterInstall { message: String },
    MakingNewExecutable { exe: String },
    RemovingBroken { exe: String, message: String },
    RestoringAfterChmod { message: String },
    CleaningUp { exe: String },
    Restarting,
}

/// What the caller does next.
#[derive(Clone, Debug)]
pub enum UpgradeAction {
    /// Carry out the step and report its outcome with the new phase.
    Run { phase: UpgradePhase, step: UpgradeStep },
    /// Answer the request; the upgrade is over.
    Finish(UpgradeReply),
}

/// The start of an upgrade of the binary from the latest release of `repo`.
pub fn upgrade_start(repo: &str) -> (res: UpgradeAction)
    ensures
        res matches UpgradeAction::Run { phase: UpgradePhase::BuildingClient { repo: r }, step: UpgradeStep::BuildClient { timeout_secs } }
            && r@ == repo@ && timeout_secs == DOWNLOAD_TIMEOUT_SECS,
{
    UpgradeAction::Run {
        phase: UpgradePhase::BuildingClient { repo: String::from_str(repo) },
        step: UpgradeStep::BuildClient { timeout_secs: DOWNLOAD_TIMEOUT_SECS },
    }
}

fn fail(message: String) -> (res: UpgradeAction)
    ensures
        res matches UpgradeAction::Finish(r) && r.status_code == 500 && !r.success && r.message
            == message,
{
    UpgradeAction::Finish(UpgradeReply { status_code: 500, success: false, message })
}

/// The failure message of an outcome, after `prefix`.
pub open spec fn failure_message(prefix: Seq<char>, outcome: StepOutcome) -> Seq<char> {
    match outcome {
        StepOutcome::Failed(e) => prefix + e@,
        _ => prefix,
    }
}

fn failure_text(prefix: &str, outcome: &StepOutcome) -> (res: String)
    ensures
        res@ == failure_message(prefix@, *outcome),
{
    match outcome {
        StepOutcome::Failed(e) => join2(prefix, e.as_str()),
        _ => String::from_str(prefix),
    }
}

/// Whether the phase's step succeeded.
pub open spec fn succeeded(outcome: StepOutcome) -> bool {
    outcome is Done || outcome is Located
}

fn step_succeeded(outcome: &StepOutcome) -> (res: bool)
    ensures
        res == succeeded(*outcome),
{
    match outcome {
        StepOutcome::Done => true,
        StepOutcome::Located(_) => true,
        _ => false,
    }
}

/// Whether an action answers the request with success.
pub open spec fn reports_success(a: UpgradeAction) -> bool {
    a matches UpgradeAction::Finish(r) && r.success
}

/// Whether an action answers the request with a failure.
pub open spec fn reports_failure(a: UpgradeAction) -> bool {
    a matches UpgradeAction::Finish(r) && !r.success
}

/// Whether an action hands out a step of this phase.
pub open spec fn enters(a: UpgradeAction, p: spec_fn(UpgradePhase) -> bool) -> bool {
    a matches UpgradeAction::Run { phase, .. } && p(phase)
}

/// What `upgrade_next` does from `phase` given the step's `outcome`: the
/// next step and phase, or the answer.
pub open spec fn upgrade_transition(phase: UpgradePhase, outcome: StepOutcome, res: UpgradeAction) -> bool {
    match phase {
        UpgradePhase::BuildingClient { repo } => if succeeded(outcome) {
            res matches UpgradeAction::Run { phase: UpgradePhase::Downloading, step: UpgradeStep::Download { url, user_agent: ua } }
                && url@ == "https://github.com/"@ + repo@ + "/releases/download/latest/"@
                + asset_name() && ua@ == user_agent()
        } else {
            res matches UpgradeAction::Finish(r) && r.status_code == 500 && !r.success
                && r.message@ == failure_message("创建下载客户端失败: "@, outcome)
        },
        UpgradePhase::Downloading => match outcome {
            StepOutcome::BadStatus(s) => res matches UpgradeAction::Finish(r) && r.status_code
                == 500 && !r.success && r.message@ == "下载失败, HTTP "@ + s@,
            StepOutcome::Failed(e) => res matches UpgradeAction::Finish(r) && r.status_code
                == 500 && !r.success && r.message@ == "下载失败: "@ + e@,
            _ => res matches UpgradeAction::Run { phase: UpgradePhase::ReadingBody, step: UpgradeStep::ReadBody },
        },
        UpgradePhase::ReadingBody => if succeeded(outcome) {
            res matches UpgradeAction::Run { phase: UpgradePhase::WritingTemp, step: UpgradeStep::WriteTemp { path } }
                && path@ == temp_path()
        } else {
            res matches UpgradeAction::Finish(r) && r.status_code == 500 && !r.success
                && r.message@ == failure_message("读取下载数据失败: "@, outcome)
        },
        UpgradePhase::WritingTemp => if succeeded(outcome) {
            res matches UpgradeAction::Run { phase: UpgradePhase::MakingTempExecutable, step: UpgradeStep::MakeExecutable { path } }
                && path@ == temp_path()
        } else {
            res matches UpgradeAction::Finish(r) && r.status_code == 500 && !r.success
                && r.message@ == failure_message("写入临时文件失败: "@, outcome)
        },
        UpgradePhase::MakingTempExecutable => if succeeded(outcome) {
            res matches UpgradeAction::Run { phase: UpgradePhase::TryingTemp, step: UpgradeStep::TryRun { path } }
                && path@ == temp_path()
        } else {
            res matches UpgradeAction::Finish(r) && r.status_code == 500 && !r.success
                && r.message@ == failure_message("设置权限失败: "@, outcome)
        },
        UpgradePhase::TryingTemp => if succeeded(outcome) {
            res matches UpgradeAction::Run { phase: UpgradePhase::LocatingSelf, step: UpgradeStep::LocateSelf }
        } else {
            res matches UpgradeAction::Run { phase: UpgradePhase::DiscardingTemp, step: UpgradeStep::Remove { path } }
                && path@ == temp_path()
        },
        UpgradePhase::DiscardingTemp => res matches UpgradeAction::Finish(r) && r.status_code
            == 500 && !r.success && r.message@ == "新二进制验证失败"@,
        UpgradePhase::LocatingSelf => match outcome {
            StepOutcome::Located(exe) => res matches UpgradeAction::Run { phase: UpgradePhase::BackingUp { exe: e2 }, step: UpgradeStep::Copy { from, to } }
                && e2@ == exe@ && from@ == exe@ && to@ == exe@ + ".bak"@,
            _ => res matches UpgradeAction::Finish(r) && r.status_code == 500 && !r.success
                && r.message@ == failure_message("获取当前二进制路径失败: "@, outcome),
        },
        UpgradePhase::BackingUp { exe } => if succeeded(outcome) {
            res matches UpgradeAction::Run { phase: UpgradePhase::RemovingOld { exe: e2 }, step: UpgradeStep::Remove { path } }
                && e2@ == exe@ && path@ == exe@
        } else {
            res matches UpgradeAction::Finish(r) && r.status_code == 500 && !r.success
                && r.message@ == failure_message("备份失败: "@, outcome)
        },
        UpgradePhase::RemovingOld { exe } => if succeeded(outcome) {
            res matches UpgradeAction::Run { phase: UpgradePhase::Installing { exe: e2 }, step: UpgradeStep::Copy { from, to } }
                && e2@ == exe@ && from@ == temp_path() && to@ == exe@
        } else {
            res matches UpgradeAction::Finish(r) && r.status_code == 500 && !r.success
                && r.message@ == failure_message("删除旧二进制失败: "@, outcome)
        },
        UpgradePhase::Installing { exe } => if succeeded(outcome) {
            res matches UpgradeAction::Run { phase: UpgradePhase::MakingNewExecutable { exe: e2 }, step: UpgradeStep::MakeExecutable { path } }
                && e2@ == exe@ && path@ == exe@
        } else {
            res matches UpgradeAction::Run { phase: UpgradePhase::RestoringAfterInstall { message }, step: UpgradeStep::Copy { from, to } }
                && from@ == exe@ + ".bak"@ && to@ == exe@ && message@ == failure_message(
                "替换二进制失败: "@,
                outcome,
            )
        },
        UpgradePhase::RestoringAfterInstall { message } => res matches UpgradeAction::Finish(r)
            && r.status_code == 500 && !r.success && r.message@ == message@,
        UpgradePhase::MakingNewExecutable { exe } => if succeeded(outcome) {
            res matches UpgradeAction::Run { phase: UpgradePhase::CleaningUp { exe: e2 }, step: UpgradeStep::Remove { path } }
                && e2@ == exe@ && path@ == temp_path()
        } else {
            res matches UpgradeAction::Run { phase: UpgradePhase::RemovingBroken { exe: e2, message }, step: UpgradeStep::Remove { path } }
                && e2@ == exe@ && path@ == exe@ && message@ == failure_message(
                "设置新二进制权限失败: "@,
                outcome,
            )
        },
        UpgradePhase::RemovingBroken { exe, message } => res matches UpgradeAction::Run { phase: UpgradePhase::RestoringAfterChmod { message: m2 }, step: UpgradeStep::Copy { from, to } }
            && from@ == exe@ + ".bak"@ && to@ == exe@ && m2@ == message@,
        UpgradePhase::RestoringAfterChmod { message } => res matches UpgradeAction::Finish(r)
            && r.status_code == 500 && !r.success && r.message@ == message@,
        UpgradePhase::CleaningUp { exe } => res matches UpgradeAction::Run { phase: UpgradePhase::Restarting, step: UpgradeStep::ScheduleRestart { path } }
            && path@ == exe@,
        UpgradePhase::Restarting => res matches UpgradeAction::Finish(r) && r.status_code == 200
            && r.success && r.message@ == "更新成功，正在重启..."@,
    }
}

/// The next action of an upgrade, given the outcome of the step of `phase`.
/// A failure before the running binary is touched answers at once; once the
/// old binary is removed, a failure first puts the backup back. A failed
/// status counts as a failure of any step but the download, where it is
/// reported as such; finding the running binary succeeds only with its path.
pub fn upgrade_next(phase: UpgradePhase, outcome: StepOutcome) -> (res: UpgradeAction)
    ensures
        upgrade_transition(phase, outcome, res),
        res matches UpgradeAction::Finish(r) ==> (r.success <==> r.status_code == 200),
        // Success is answered only once the new binary is installed, made
        // executable and the restart is scheduled.
        reports_success(res) ==> phase is Restarting,
        (res matches UpgradeAction::Run { phase: UpgradePhase::Restarting, .. }) ==> phase is CleaningUp,
        (res matches UpgradeAction::Run { phase: UpgradePhase::CleaningUp { .. }, .. }) ==> (
        phase is MakingNewExecutable && succeeded(outcome)),
        (res matches UpgradeAction::Run { phase: UpgradePhase::MakingNewExecutable { .. }, .. }) ==> (
        phase is Installing && succeeded(outcome)),
        // Once the old binary is removed, no failure is answered before the
        // backup is copied back.
        (phase is Installing || phase is MakingNewExecutable || phase is RemovingBroken)
            ==> !reports_failure(res),
        res matches UpgradeAction::Run { phase: UpgradePhase::RestoringAfterInstall { .. }, step }
            ==> (phase matches UpgradePhase::Installing { exe } && step matches UpgradeStep::Copy { from, to }
            && from@ == exe@ + ".bak"@ && to@ == exe@),
        res matches UpgradeAction::Run { phase: UpgradePhase::RestoringAfterChmod { .. }, step }
            ==> (phase matches UpgradePhase::RemovingBroken { exe, .. } && step matches UpgradeStep::Copy { from, to }
            && from@ == exe@ + ".bak"@ && to@ == exe@),
        // The running binary is removed only after it was backed up.
        (res matches UpgradeAction::Run { phase: UpgradePhase::RemovingOld { .. }, .. }) ==> (
        phase is BackingUp && succeeded(outcome)),
{
    match phase {
        UpgradePhase::BuildingClient { repo } => if step_succeeded(&outcome) {
            UpgradeAction::Run {
                phase: UpgradePhase::Downloading,
                step: UpgradeStep::Download {
                    url: download_url(repo.as_str()),
                    user_agent: String::from_str("tpn-worker-dashboard"),
                },
            }
        } else {
            fail(failure_text("创建下载客户端失败: ", &outcome))
        },
        UpgradePhase::Downloading => match outcome {
            StepOutcome::BadStatus(s) => fail(join2("下载失败, HTTP ", s.as_str())),
            StepOutcome::Failed(e) => fail(join2("下载失败: ", e.as_str())),
            _ => UpgradeAction::Run { phase: UpgradePhase::ReadingBody, step: UpgradeStep::ReadBody },
        },
        UpgradePhase::ReadingBody => if step_succeeded(&outcome) {
            UpgradeAction::Run {
                phase: UpgradePhase::WritingTemp,
                step: UpgradeStep::WriteTemp { path: String::from_str("/tmp/tpn-worker-dashboard-new") },
            }
        } else {
            fail(failure_text("读取下载数据失败: ", &outcome))
        },
        UpgradePhase::WritingTemp => if step_succeeded(&outcome) {
            UpgradeAction::Run {
                phase: UpgradePhase::MakingTempExecutable,
                step: UpgradeStep::MakeExecutable {
                    path: String::from_str("/tmp/tpn-worker-dashboard-new"),
                },
            }
        } else {
            fail(failure_text("写入临时文件失败: ", &outcome))
        },
        UpgradePhase::MakingTempExecutable => if step_succeeded(&outcome) {
            UpgradeAction::Run {
                phase: UpgradePhase::TryingTemp,
                step: UpgradeStep::TryRun { path: String::from_str("/tmp/tpn-worker-dashboard-new") },
            }
        } else {
            fail(failure_text("设置权限失败: ", &outcome))
        },
        UpgradePhase::TryingTemp => if step_succeeded(&outcome) {
            UpgradeAction::Run { phase: UpgradePhase::LocatingSelf, step: UpgradeStep::LocateSelf }
        } else {
            UpgradeAction::Run {
                phase: UpgradePhase::DiscardingTemp,
                step: UpgradeStep::Remove { path: String::from_str("/tmp/tpn-worker-dashboard-new") },
            }
        },
        UpgradePhase::DiscardingTemp => fail(String::from_str("新二进制验证失败")),
        UpgradePhase::LocatingSelf => match outcome {
            StepOutcome::Located(exe) => {
                let backup = join2(exe.as_str(), ".bak");
                UpgradeAction::Run {
                    phase: UpgradePhase::BackingUp { exe: exe.clone() },
                    step: UpgradeStep::Copy { from: exe, to: backup },
                }
            },
            _ => fail(failure_text("获取当前二进制路径失败: ", &outcome)),
        },
        UpgradePhase::BackingUp { exe } => if step_succeeded(&outcome) {
            UpgradeAction::Run {
                phase: UpgradePhase::RemovingOld { exe: exe.clone() },
                step: UpgradeStep::Remove { path: exe },
            }
        } else {
            fail(failure_text("备份失败: ", &outcome))
        },
        UpgradePhase::RemovingOld { exe } => if step_succeeded(&outcome) {
            UpgradeAction::Run {
                phase: UpgradePhase::Installing { exe: exe.clone() },
                step: UpgradeStep::Copy {
                    from: String::from_str("/tmp/tpn-worker-dashboard-new"),
                    to: exe,
                },
            }
        } else {
            fail(failure_text("删除旧二进制失败: ", &outcome))
        },
        UpgradePhase::Installing { exe } => if step_succeeded(&outcome) {
            UpgradeAction::Run {
                phase: UpgradePhase::MakingNewExecutable { exe: exe.clone() },
                step: UpgradeStep::MakeExecutable { path: exe },
            }
        } else {
            let message = failure_text("替换二进制失败: ", &outcome);
            let backup = join2(exe.as_str(), ".bak");
            UpgradeAction::Run {
                phase: UpgradePhase::RestoringAfterInstall { message },
                step: UpgradeStep::Copy { from: backup, to: exe },
            }
        },
        UpgradePhase::RestoringAfterInstall { message } => fail(message),
        UpgradePhase::MakingNewExecutable { exe } => if step_succeeded(&outcome) {
            UpgradeAction::Run {
                phase: UpgradePhase::CleaningUp { exe },
                step: UpgradeStep::Remove { path: String::from_str("/tmp/tpn-worker-dashboard-new") },
            }
        } else {
            let message = failure_text("设置新二进制权限失败: ", &outcome);
            UpgradeAction::Run {
                phase: UpgradePhase::RemovingBroken { exe: exe.clone(), message },
                step: UpgradeStep::Remove { path: exe },
            }
        },
        UpgradePhase::RemovingBroken { exe, message } => {
            let backup = join2(exe.as_str(), ".bak");
            UpgradeAction::Run {
                phase: UpgradePhase::RestoringAfterChmod { message },
                step: UpgradeStep::Copy { from: backup, to: exe },
            }
        },
        UpgradePhase::RestoringAfterChmod { message } => fail(message),
        UpgradePhase::CleaningUp { exe } => UpgradeAction::Run {
            phase: UpgradePhase::Restarting,
            step: UpgradeStep::ScheduleRestart { path: exe },
        },
        UpgradePhase::Restarting => UpgradeAction::Finish(
            UpgradeReply {
                status_code: 200,
                success: true,
                message: String::from_str("更新成功，正在重启..."),
            },
        ),
    }
}

/// An upgrade run: `phases[i]` and `steps[i]` were handed out together, the
/// step's outcome was `outcomes[i]`, and `last` is the final action. It
/// begins as `upgrade_start(repo)` begins and follows `upgrade_next`.
pub open spec fn is_upgrade_run(
    repo: Seq<char>,
    phases: Seq<UpgradePhase>,
    steps: Seq<UpgradeStep>,
    outcomes: Seq<StepOutcome>,
    last: UpgradeAction,
) -> bool {
    &&& phases.len() > 0
    &&& steps.len() == phases.len()
    &&& outcomes.len() == phases.len()
    &&& phases[0] matches UpgradePhase::BuildingClient { repo: r } && r@ == repo
    &&& steps[0] matches UpgradeStep::BuildClient { timeout_secs } && timeout_secs == DOWNLOAD_TIMEOUT_SECS
    &&& forall|i: int|
        0 <= i < phases.len() - 1 ==> upgrade_transition(
            phases[i],
            #[trigger] outcomes[i],
            UpgradeAction::Run { phase: phases[i + 1], step: steps[i + 1] },
        )
    &&& upgrade_transition(phases.last(), outcomes.last(), last)
}

/// The phase `p`, the outcome `o` of its step, and the next phase `q` with
/// its step `st`, along the path of a successful upgrade.
pub open spec fn came_from(q: UpgradePhase, st: UpgradeStep, p: UpgradePhase, o: StepOutcome) -> bool {
    &&& st is ScheduleRestart ==> q is Restarting
    &&& match q {
        UpgradePhase::BuildingClient { .. } => false,
        UpgradePhase::Downloading => {
            &&& (p matches UpgradePhase::BuildingClient { repo } && (st matches UpgradeStep::Download { url, user_agent: ua }
                && url@ == "https://github.com/"@ + repo@ + "/releases/download/latest/"@ + asset_name()
                && ua@ == user_agent()))
            &&& succeeded(o)
        },
        UpgradePhase::ReadingBody => p is Downloading && succeeded(o) && st is ReadBody,
        UpgradePhase::WritingTemp => {
            &&& p is ReadingBody
            &&& succeeded(o)
            &&& (st matches UpgradeStep::WriteTemp { path } && path@ == temp_path())
        },
        UpgradePhase::MakingTempExecutable => {
            &&& p is WritingTemp
            &&& succeeded(o)
            &&& (st matches UpgradeStep::MakeExecutable { path } && path@ == temp_path())
        },
        UpgradePhase::TryingTemp => {
            &&& p is MakingTempExecutable
            &&& succeeded(o)
            &&& (st matches UpgradeStep::TryRun { path } && path@ == temp_path())
        },
        UpgradePhase::LocatingSelf => p is TryingTemp && succeeded(o) && st is LocateSelf,
        UpgradePhase::BackingUp { exe } => {
            &&& p is LocatingSelf
            &&& (o matches StepOutcome::Located(e) && e@ == exe@)
            &&& (st matches UpgradeStep::Copy { from, to } && from@ == exe@ && to@ == exe@ + ".bak"@)
        },
        UpgradePhase::RemovingOld { exe } => {
            &&& (p matches UpgradePhase::BackingUp { exe: e } && e@ == exe@)
            &&& succeeded(o)
            &&& (st matches UpgradeStep::Remove { path } && path@ == exe@)
        },
        UpgradePhase::Installing { exe } => {
            &&& (p matches UpgradePhase::RemovingOld { exe: e } && e@ == exe@)
            &&& succeeded(o)
            &&& (st matches UpgradeStep::Copy { from, to } && from@ == temp_path() && to@ == exe@)
        },
        UpgradePhase::MakingNewExecutable { exe } => {
            &&& (p matches UpgradePhase::Installing { exe: e } && e@ == exe@)
            &&& succeeded(o)
            &&& (st matches UpgradeStep::MakeExecutable { path } && path@ == exe@)
        },
        UpgradePhase::CleaningUp { exe } => {
            &&& (p matches UpgradePhase::MakingNewExecutable { exe: e } && e@ == exe@)
            &&& succeeded(o)
            &&& (st matches UpgradeStep::Remove { path } && path@ == temp_path())
        },
        UpgradePhase::Restarting => p matches UpgradePhase::CleaningUp { exe } && (st matches UpgradeStep::ScheduleRestart { path }
            && path@ == exe@),
        _ => true,
    }
}

proof fn lemma_came_from(p: UpgradePhase, o: StepOutcome, q: UpgradePhase, st: UpgradeStep)
    requires
        upgrade_transition(p, o, UpgradeAction::Run { phase: q, step: st }),
    ensures
        came_from(q, st, p, o),
{
}

proof fn lemma_step_back(
    repo: Seq<char>,
    phases: Seq<UpgradePhase>,
    steps: Seq<UpgradeStep>,
    outcomes: Seq<StepOutcome>,
    last: UpgradeAction,
    k: int,
)
    requires
        is_upgrade_run(repo, phases, steps, outcomes, last),
        0 <= k < phases.len(),
        !(phases[k] is BuildingClient),
    ensures
        k >= 1,
        came_from(phases[k], steps[k], phases[k - 1], outcomes[k - 1]),
{
    assert(k != 0);
    assert(upgrade_transition(
        phases[k - 1],
        outcomes[k - 1],
        UpgradeAction::Run { phase: phases[k], step: steps[k] },
    ));
    lemma_came_from(phases[k - 1], outcomes[k - 1], phases[k], steps[k]);
}

/// Law: an upgrade answers with success only after a run of exactly these
/// steps: build the client, download the release, read it, write it to the
/// temporary path, make that executable, try it, find the running binary,
/// back it up, remove it, copy the download in its place, make that
/// executable, remove the temporary file and schedule the restart from the
/// running binary's path. Each step up to the second `chmod` succeeded (the
/// removal of the temporary file is not looked at). The answer is then 200.
pub proof fn upgrade_succeeds_only_after_install(
    repo: Seq<char>,
    phases: Seq<UpgradePhase>,
    steps: Seq<UpgradeStep>,
    outcomes: Seq<StepOutcome>,
    last: UpgradeAction,
)
    requires
        is_upgrade_run(repo, phases, steps, outcomes, last),
        reports_success(last),
    ensures
        last matches UpgradeAction::Finish(r) && r.status_code == 200,
        phases.len() == 13,
        forall|i: int| 0 <= i < 11 ==> succeeded(#[trigger] outcomes[i]),
        steps[1] matches UpgradeStep::Download { url, user_agent: ua } && url@ == "https://github.com/"@
            + repo + "/releases/download/latest/"@ + asset_name() && ua@ == user_agent(),
        steps[2] is ReadBody,
        steps[3] matches UpgradeStep::WriteTemp { path } && path@ == temp_path(),
        steps[4] matches UpgradeStep::MakeExecutable { path } && path@ == temp_path(),
        steps[5] matches UpgradeStep::TryRun { path } && path@ == temp_path(),
        steps[6] is LocateSelf,
        outcomes[6] matches StepOutcome::Located(exe) && {
            &&& steps[7] matches UpgradeStep::Copy { from, to } && from@ == exe@ && to@ == exe@ + ".bak"@
            &&& steps[8] matches UpgradeStep::Remove { path } && path@ == exe@
            &&& steps[9] matches UpgradeStep::Copy { from, to } && from@ == temp_path() && to@ == exe@
            &&& steps[10] matches UpgradeStep::MakeExecutable { path } && path@ == exe@
            &&& steps[11] matches UpgradeStep::Remove { path } && path@ == temp_path()
            &&& steps[12] matches UpgradeStep::ScheduleRestart { path } && path@ == exe@
        },
{
    let n = phases.len() as int;
    assert(phases[n - 1] is Restarting);
    // Walk back from the restart to the start, one handed-out step at a time;
    // no phase on the way is the first one, so each has a predecessor.
    lemma_step_back(repo, phases, steps, outcomes, last, n - 1);
    lemma_step_back(repo, phases, steps, outcomes, last, n - 2);
    lemma_step_back(repo, phases, steps, outcomes, last, n - 3);
    lemma_step_back(repo, phases, steps, outcomes, last, n - 4);
    lemma_step_back(repo, phases, steps, outcomes, last, n - 5);
    lemma_step_back(repo, phases, steps, outcomes, last, n - 6);
    lemma_step_back(repo, phases, steps, outcomes, last, n - 7);
    lemma_step_back(repo, phases, steps, outcomes, last, n - 8);
    lemma_step_back(repo, phases, steps, outcomes, last, n - 9);
    lemma_step_back(repo, phases, steps, outcomes, last, n - 10);
    lemma_step_back(repo, phases, steps, outcomes, last, n - 11);
    lemma_step_back(repo, phases, steps, outcomes, last, n - 12);
    if n > 13 {
        assert(upgrade_transition(
            phases[n - 14],
            outcomes[n - 14],
            UpgradeAction::Run { phase: phases[n - 13], step: steps[n - 13] },
        ));
        lemma_came_from(phases[n - 14], outcomes[n - 14], phases[n - 13], steps[n - 13]);
    }
    assert(n == 13);
    assert(forall|i: int| 0 <= i < 11 ==> succeeded(#[trigger] outcomes[i])) by {
        assert(succeeded(outcomes[0]));
        assert(succeeded(outcomes[1]));
        assert(succeeded(outcomes[2]));
        assert(succeeded(outcomes[3]));
        assert(succeeded(outcomes[4]));
        assert(succeeded(outcomes[5]));
        assert(succeeded(outcomes[6]));
        assert(succeeded(outcomes[7]));
        assert(succeeded(outcomes[8]));
        assert(succeeded(outcomes[9]));
        assert(succeeded(outcomes[10]));
    }
}

/// Law: a restart is scheduled only in a run that answers with success and
/// status 200.
pub proof fn restart_only_with_success(
    repo: Seq<char>,
    phases: Seq<UpgradePhase>,
    steps: Seq<UpgradeStep>,
    outcomes: Seq<StepOutcome>,
    last: UpgradeAction,
    i: int,
)
    requires
        is_upgrade_run(repo, phases, steps, outcomes, last),
        0 <= i < steps.len(),
        steps[i] is ScheduleRestart,
    ensures
        last matches UpgradeAction::Finish(r) && r.success && r.status_code == 200,
{
    let n = phases.len() as int;
    assert(i != 0);
    assert(upgrade_transition(
        phases[i - 1],
        outcomes[i - 1],
        UpgradeAction::Run { phase: phases[i], step: steps[i] },
    ));
    lemma_came_from(phases[i - 1], outcomes[i - 1], phases[i], steps[i]);
    if i < n - 1 {
        assert(upgrade_transition(
            phases[i],
            outcomes[i],
            UpgradeAction::Run { phase: phases[i + 1], step: steps[i + 1] },
        ));
    }
}

} // verus!
