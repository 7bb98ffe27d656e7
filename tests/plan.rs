use henix::config::{DeployOpts, NodeCfg};
use henix::node::{Action, DeploymentResult, NodeRun, Phase, StepError, Step};
use henix::plan::{all_succeeded, find_node, names_are_unique, plan_runs, select_nodes, validate_targets, ValidationError};

fn nodes() -> Vec<(String, NodeCfg)> {
    ["alpha", "beta", "gamma"]
        .iter()
        .enumerate()
        .map(|(i, n)| {
            (
                n.to_string(),
                NodeCfg {
                    location: format!("10.0.0.{}", i + 1),
                    ssh_port: None,
                    rollback_on_failure: i % 2 == 0,
                },
            )
        })
        .collect()
}

fn opts(targets: Option<Vec<&str>>) -> DeployOpts {
    DeployOpts {
        boot: false,
        targets: targets.map(|t| t.iter().map(|s| s.to_string()).collect()),
        show_trace: false,
    }
}

#[test]
fn unknown_target_fails_before_any_run() {
    let r = plan_runs(&nodes(), &opts(Some(vec!["beta", "delta", "omega"])), &"cfg".to_string());
    match r {
        Err(ValidationError::UnknownTarget(t)) => assert_eq!(t, "delta"),
        Ok(runs) => panic!("{} runs planned", runs.len()),
    }
    assert!(validate_targets(&nodes(), &Some(vec!["zeta".to_string()])).is_err());
}

#[test]
fn no_targets_selects_all_nodes() {
    assert_eq!(select_nodes(&nodes(), &opts(None)).unwrap(), vec![0, 1, 2]);
    let runs = plan_runs(&nodes(), &opts(None), &"cfg".to_string()).unwrap();
    let names: Vec<&str> = runs.iter().map(|r| r.name.as_str()).collect();
    assert_eq!(names, vec!["alpha", "beta", "gamma"]);
    assert!(runs.iter().all(|r| matches!(r.phase, Phase::Connecting)));
    assert_eq!(runs[2].cfg.location, "10.0.0.3");
}

#[test]
fn targets_select_their_nodes_in_node_order() {
    assert_eq!(select_nodes(&nodes(), &opts(Some(vec!["gamma", "alpha"]))).unwrap(), vec![0, 2]);
    assert_eq!(select_nodes(&nodes(), &opts(Some(vec![]))).unwrap(), Vec::<usize>::new());
    assert!(validate_targets(&nodes(), &None).is_ok());
}

#[test]
fn find_node_by_name() {
    assert_eq!(find_node(&nodes(), &"beta".to_string()), Some(1));
    assert_eq!(find_node(&nodes(), &"nope".to_string()), None);
}

#[test]
fn failing_node_does_not_affect_others() {
    let mut runs: Vec<NodeRun> = plan_runs(&nodes(), &opts(None), &"cfg".to_string()).unwrap();
    let mut results = Vec::new();
    for (i, run) in runs.iter_mut().enumerate() {
        let mut outcomes = vec![Ok(String::new()), Ok("h".to_string()), Ok(String::new())];
        outcomes.push(if i == 1 { Err("Rebuild failed".to_string()) } else { Ok(String::new()) });
        outcomes.push(Ok(String::new()));
        let mut last = run.action();
        for o in outcomes {
            if run.finished() {
                break;
            }
            last = run.advance(o);
        }
        match last {
            Action::Finish { result, .. } => results.push(result),
            other => panic!("{:?}", other),
        }
    }
    assert!(matches!(results[0], DeploymentResult::Succeeded));
    assert!(matches!(results[2], DeploymentResult::Succeeded));
    assert!(matches!(
        results[1],
        DeploymentResult::FailedNoRollback(StepError { step: Step::Build, .. })
    ));
    assert!(!all_succeeded(&results));
    assert!(all_succeeded(&vec![DeploymentResult::Succeeded, DeploymentResult::Succeeded]));
    assert!(all_succeeded(&vec![]));
}

#[test]
fn duplicate_node_names_are_detected() {
    assert!(names_are_unique(&nodes()));
    let mut dup = nodes();
    dup.push(dup[0].clone());
    assert!(!names_are_unique(&dup));
    assert!(names_are_unique(&Vec::new()));
}
