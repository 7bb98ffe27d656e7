use henix::config::{DeployOpts, NodeCfg};
use henix::node::{Action, DeploymentResult, NodeRun, Phase, Step};

fn cfg(rollback: bool) -> NodeCfg {
    NodeCfg { location: "10.0.0.9".to_string(), ssh_port: Some(2222), rollback_on_failure: rollback }
}

fn opts() -> DeployOpts {
    DeployOpts { boot: false, targets: None, show_trace: false }
}

fn ok(s: &str) -> Result<String, String> {
    Ok(s.to_string())
}

fn err(s: &str) -> Result<String, String> {
    Err(s.to_string())
}

/// Drives a run with the given outcomes; returns every action issued, the first included.
fn drive(rollback: bool, outcomes: Vec<Result<String, String>>) -> (NodeRun, Vec<Action>) {
    let mut run = NodeRun::new("web".to_string(), cfg(rollback), "/srv/cfg".to_string(), &opts());
    let mut actions = vec![run.action()];
    for o in outcomes {
        if run.finished() {
            break;
        }
        actions.push(run.advance(o));
    }
    (run, actions)
}

fn count(actions: &[Action], pred: fn(&Action) -> bool) -> usize {
    actions.iter().filter(|a| pred(a)).count()
}

fn final_result(actions: &[Action]) -> (DeploymentResult, Option<String>) {
    match actions.last().unwrap() {
        Action::Finish { result, warning } => (result.clone(), warning.clone()),
        other => panic!("not finished: {:?}", other),
    }
}

#[test]
fn full_run_issues_steps_in_order() {
    let (run, actions) = drive(true, vec![ok(""), ok("h9"), ok(""), ok(""), ok("")]);
    assert!(run.finished());
    match &actions[0] {
        Action::Connect { destination, port } => {
            assert_eq!(destination, "root@10.0.0.9");
            assert_eq!(*port, Some(2222));
        }
        other => panic!("{:?}", other),
    }
    match &actions[1] {
        Action::Hash { dir } => assert_eq!(dir, "/srv/cfg"),
        other => panic!("{:?}", other),
    }
    match &actions[2] {
        Action::Copy { args } => assert_eq!(args[8], "root@10.0.0.9:/etc/henix/h9"),
        other => panic!("{:?}", other),
    }
    match &actions[3] {
        Action::Build { args } => assert_eq!(args, &vec!["switch", "--flake", "/etc/henix/h9#web"]),
        other => panic!("{:?}", other),
    }
    match &actions[4] {
        Action::Link { args } => assert_eq!(args[2], "/etc/henix/h9"),
        other => panic!("{:?}", other),
    }
    let (result, warning) = final_result(&actions);
    assert!(matches!(result, DeploymentResult::Succeeded));
    assert!(warning.is_none());
    assert_eq!(actions.len(), 6);
}

#[test]
fn connection_failure_short_circuits() {
    let (run, actions) = drive(true, vec![err("refused"), ok(""), ok("")]);
    assert!(run.finished());
    assert_eq!(actions.len(), 2);
    assert_eq!(count(&actions, |a| matches!(a, Action::Hash { .. })), 0);
    assert_eq!(count(&actions, |a| matches!(a, Action::Copy { .. })), 0);
    assert_eq!(count(&actions, |a| matches!(a, Action::Build { .. })), 0);
    assert_eq!(count(&actions, |a| matches!(a, Action::Rollback { .. })), 0);
    match final_result(&actions).0 {
        DeploymentResult::ConnectionFailed(m) => assert_eq!(m, "refused"),
        other => panic!("{:?}", other),
    }
}

#[test]
fn build_failure_without_rollback_policy() {
    let (_, actions) = drive(false, vec![ok(""), ok("h"), ok(""), err("Rebuild failed"), ok("")]);
    assert_eq!(count(&actions, |a| matches!(a, Action::Rollback { .. })), 0);
    match final_result(&actions).0 {
        DeploymentResult::FailedNoRollback(e) => {
            assert_eq!(e.step, Step::Build);
            assert_eq!(e.message, "Rebuild failed");
        }
        other => panic!("{:?}", other),
    }
}

#[test]
fn build_failure_with_rollback_policy() {
    let (_, actions) = drive(true, vec![ok(""), ok("h"), ok(""), err("Rebuild failed"), ok(""), ok("")]);
    assert_eq!(count(&actions, |a| matches!(a, Action::Rollback { .. })), 1);
    match final_result(&actions).0 {
        DeploymentResult::FailedWithRollback { error, rollback_error } => {
            assert_eq!(error.step, Step::Build);
            assert_eq!(error.message, "Rebuild failed");
            assert!(rollback_error.is_none());
        }
        other => panic!("{:?}", other),
    }
}

#[test]
fn rollback_failure_keeps_original_error() {
    let (_, actions) = drive(true, vec![ok(""), ok("h"), err("rsync died"), err("no generation")]);
    match final_result(&actions).0 {
        DeploymentResult::FailedWithRollback { error, rollback_error } => {
            assert_eq!(error.step, Step::Copy);
            assert_eq!(error.message, "rsync died");
            assert_eq!(rollback_error, Some("no generation".to_string()));
        }
        other => panic!("{:?}", other),
    }
}

#[test]
fn copy_failure_without_rollback_policy() {
    let (_, actions) = drive(false, vec![ok(""), ok("h"), err("rsync died")]);
    assert_eq!(count(&actions, |a| matches!(a, Action::Build { .. })), 0);
    assert!(matches!(final_result(&actions).0, DeploymentResult::FailedNoRollback(_)));
}

#[test]
fn hash_failure_never_rolls_back() {
    let (_, actions) = drive(true, vec![ok(""), err("nix-hash missing")]);
    assert_eq!(count(&actions, |a| matches!(a, Action::Rollback { .. })), 0);
    assert_eq!(count(&actions, |a| matches!(a, Action::Copy { .. })), 0);
    match final_result(&actions).0 {
        DeploymentResult::FailedNoRollback(e) => assert_eq!(e.step, Step::Hash),
        other => panic!("{:?}", other),
    }
}

#[test]
fn link_failure_is_only_a_warning() {
    let (run, actions) = drive(true, vec![ok(""), ok("h7"), ok(""), ok(""), err("ln: denied")]);
    let (result, warning) = final_result(&actions);
    assert!(matches!(result, DeploymentResult::Succeeded));
    assert_eq!(
        warning,
        Some(
            "Could not symlink /etc/henix/latest to /etc/henix/h7: ln: denied. This is more for convenience, \
             but you may not be able to easily find the current configuration if it is not symlinked. \
             Recommended command: ln -s -f /etc/henix/h7 /etc/henix/latest"
                .to_string()
        )
    );
    assert!(matches!(run.phase, Phase::Done(DeploymentResult::Succeeded)));
    assert_eq!(count(&actions, |a| matches!(a, Action::Rollback { .. })), 0);
}

#[test]
fn boot_mode_and_trace_reach_build_and_rollback() {
    let o = DeployOpts { boot: true, targets: None, show_trace: true };
    let mut run = NodeRun::new("db".to_string(), cfg(true), "c".to_string(), &o);
    run.advance(ok(""));
    run.advance(ok("hh"));
    match run.advance(ok("")) {
        Action::Build { args } => {
            assert_eq!(args, vec!["boot", "--flake", "/etc/henix/hh#db", "--show-trace"])
        }
        other => panic!("{:?}", other),
    }
    match run.advance(err("boom")) {
        Action::Rollback { args } => assert_eq!(args, vec!["boot", "--rollback"]),
        other => panic!("{:?}", other),
    }
}
