use tpn_worker_dashboard::upgrade::{
    download_url, release_api_url, release_request, upgrade_next, upgrade_start, version_info, GitHubAsset,
    GitHubRelease, StepOutcome, UpgradeAction, UpgradePhase, UpgradeReply, UpgradeStep,
};

fn release(tag: &str, names: &[&str]) -> GitHubRelease {
    GitHubRelease {
        tag_name: tag.to_string(),
        assets: names
            .iter()
            .map(|n| GitHubAsset { name: n.to_string(), browser_download_url: format!("https://dl/{n}") })
            .collect(),
    }
}

const ASSET: &str = "tpn-worker-dashboard-linux-ubuntu22-amd64";

#[test]
fn release_addresses() {
    assert_eq!(release_api_url("o/r"), "https://api.github.com/repos/o/r/releases/latest");
    let r = release_request("o/r");
    assert_eq!(r.url, "https://api.github.com/repos/o/r/releases/latest");
    assert_eq!((r.timeout_secs, r.user_agent.as_str()), (10, "tpn-worker-dashboard"));
    assert_eq!(download_url("o/r"), format!("https://github.com/o/r/releases/download/latest/{ASSET}"));
}

#[test]
fn version_without_a_release() {
    let v = version_info("0.3.1", None);
    assert_eq!(v.current, "v0.3.1");
    assert_eq!((v.latest, v.has_update, v.download_url), (None, false, None));
}

#[test]
fn same_version_is_not_an_update() {
    let v = version_info("0.3.1", Some(release("v0.3.1", &[ASSET])));
    assert!(!v.has_update);
    assert_eq!(v.latest, Some("v0.3.1".to_string()));
    let v = version_info("0.3.1", Some(release("0.3.1", &[])));
    assert!(!v.has_update);
    assert_eq!(v.download_url, None);
}

#[test]
fn newer_release_is_an_update_with_its_asset() {
    let v = version_info("0.3.1", Some(release("v0.4.0", &["other", ASSET, ASSET])));
    assert!(v.has_update);
    assert_eq!(v.download_url, Some(format!("https://dl/{ASSET}")));
}

/// Runs the upgrade with the given outcomes, collecting the steps handed out.
fn run(outcomes: Vec<StepOutcome>) -> (Vec<UpgradeStep>, UpgradeReply) {
    let mut steps = Vec::new();
    let mut action = upgrade_start("o/r");
    let mut outcomes = outcomes.into_iter();
    loop {
        match action {
            UpgradeAction::Run { phase, step } => {
                steps.push(step);
                let o = outcomes.next().unwrap_or(StepOutcome::Done);
                action = upgrade_next(phase, o);
            }
            UpgradeAction::Finish(reply) => return (steps, reply),
        }
    }
}

fn ok_until_locate() -> Vec<StepOutcome> {
    vec![StepOutcome::Done, StepOutcome::Done, StepOutcome::Done, StepOutcome::Done, StepOutcome::Done, StepOutcome::Done]
}

#[test]
fn successful_upgrade() {
    let mut o = ok_until_locate();
    o.push(StepOutcome::Located("/usr/bin/dash".to_string()));
    let (steps, reply) = run(o);
    assert_eq!((reply.status_code, reply.success), (200, true));
    assert_eq!(reply.message, "更新成功，正在重启...");
    let names: Vec<String> = steps.iter().map(|s| format!("{:?}", s)).collect();
    assert!(names[1].contains(&format!("https://github.com/o/r/releases/download/latest/{ASSET}")));
    assert!(matches!(&steps[0], UpgradeStep::BuildClient { timeout_secs: 300 }));
    assert!(matches!(&steps[1], UpgradeStep::Download { user_agent, .. } if user_agent == "tpn-worker-dashboard"));
    assert!(matches!(&steps[7], UpgradeStep::Copy { from, to } if from == "/usr/bin/dash" && to == "/usr/bin/dash.bak"));
    assert!(matches!(&steps[8], UpgradeStep::Remove { path } if path == "/usr/bin/dash"));
    assert!(matches!(&steps[9], UpgradeStep::Copy { from, to } if from == "/tmp/tpn-worker-dashboard-new" && to == "/usr/bin/dash"));
    assert!(matches!(&steps[10], UpgradeStep::MakeExecutable { path } if path == "/usr/bin/dash"));
    assert!(matches!(&steps[11], UpgradeStep::Remove { path } if path == "/tmp/tpn-worker-dashboard-new"));
    assert!(matches!(&steps[12], UpgradeStep::ScheduleRestart { path } if path == "/usr/bin/dash"));
    assert_eq!(steps.len(), 13);
}

#[test]
fn download_failures_answer_at_once() {
    let (steps, reply) = run(vec![StepOutcome::Done, StepOutcome::BadStatus("404 Not Found".to_string())]);
    assert_eq!(steps.len(), 2);
    assert_eq!((reply.status_code, reply.success), (500, false));
    assert_eq!(reply.message, "下载失败, HTTP 404 Not Found");
    let (_, reply) = run(vec![StepOutcome::Failed("no client".to_string())]);
    assert_eq!(reply.message, "创建下载客户端失败: no client");
}

#[test]
fn a_binary_that_does_not_start_is_discarded() {
    let mut o = vec![StepOutcome::Done; 5];
    o.push(StepOutcome::Failed("exec format error".to_string()));
    let (steps, reply) = run(o);
    assert!(matches!(&steps[6], UpgradeStep::Remove { path } if path == "/tmp/tpn-worker-dashboard-new"));
    assert_eq!(reply.message, "新二进制验证失败");
}

#[test]
fn failed_install_restores_the_backup() {
    let mut o = ok_until_locate();
    o.push(StepOutcome::Located("/bin/d".to_string()));
    o.push(StepOutcome::Done); // backup
    o.push(StepOutcome::Done); // remove old
    o.push(StepOutcome::Failed("disk full".to_string())); // install
    let (steps, reply) = run(o);
    assert!(matches!(steps.last().unwrap(), UpgradeStep::Copy { from, to } if from == "/bin/d.bak" && to == "/bin/d"));
    assert_eq!((reply.status_code, reply.success), (500, false));
    assert_eq!(reply.message, "替换二进制失败: disk full");
}

#[test]
fn failed_chmod_removes_the_new_binary_and_restores() {
    let mut o = ok_until_locate();
    o.push(StepOutcome::Located("/bin/d".to_string()));
    o.extend(vec![StepOutcome::Done, StepOutcome::Done, StepOutcome::Done]);
    o.push(StepOutcome::Failed("EPERM".to_string()));
    let (steps, reply) = run(o);
    let n = steps.len();
    assert!(matches!(&steps[n - 2], UpgradeStep::Remove { path } if path == "/bin/d"));
    assert!(matches!(&steps[n - 1], UpgradeStep::Copy { from, to } if from == "/bin/d.bak" && to == "/bin/d"));
    assert_eq!(reply.message, "设置新二进制权限失败: EPERM");
}

#[test]
fn failed_backup_leaves_the_binary_alone() {
    let mut o = ok_until_locate();
    o.push(StepOutcome::Located("/bin/d".to_string()));
    o.push(StepOutcome::Failed("ro fs".to_string()));
    let (steps, reply) = run(o);
    assert!(!steps.iter().any(|s| matches!(s, UpgradeStep::Remove { path } if path == "/bin/d")));
    assert_eq!(reply.message, "备份失败: ro fs");
}

#[test]
fn starting_phase() {
    assert!(matches!(upgrade_start("x"), UpgradeAction::Run { phase: UpgradePhase::BuildingClient { .. }, step: UpgradeStep::BuildClient { timeout_secs: 300 } }));
}
