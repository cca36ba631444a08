use delivery_station::config::{CompositeSteps, Config, Repository, Steps};
use delivery_station::trigger::{DispatchDecision, TriggeredInfo};

fn plan(name: &str, branch: Option<&str>, tag: Option<&str>) -> Repository {
    Repository {
        name: name.to_string(),
        description: None,
        environment: None,
        branch: branch.map(|s| s.to_string()),
        tag: tag.map(|s| s.to_string()),
        steps: CompositeSteps::Single(Steps::Multiple(Vec::new())),
    }
}

fn config_of(repos: Vec<Repository>) -> Config {
    Config {
        listen_address: "127.0.0.1:8080".to_string(),
        host: Vec::new(),
        repository: repos,
        notifier: None,
        environment: None,
        work_dir: "/tmp".to_string(),
        base_url: "http://localhost".to_string(),
    }
}

fn trigger(repo: &str, branch: Option<&str>, tag: Option<&str>) -> TriggeredInfo {
    TriggeredInfo {
        repository: repo.to_string(),
        branch: branch.map(|s| s.to_string()),
        tag: tag.map(|s| s.to_string()),
        steps_name: None,
    }
}

#[test]
fn any_branch_filter_accepts_every_branch() {
    let config = config_of(vec![plan("demo", Some("@any"), None)]);
    let d = trigger("demo", Some("main"), None).delivery(&config);
    assert!(matches!(d, DispatchDecision::Matched { repo_index: 0 }));
    let d = trigger("demo", Some("feature/x"), None).delivery(&config);
    assert!(matches!(d, DispatchDecision::Matched { repo_index: 0 }));
}

#[test]
fn any_branch_filter_rejects_absent_branch() {
    let config = config_of(vec![plan("demo", Some("@any"), None)]);
    let d = trigger("demo", None, None).delivery(&config);
    assert!(matches!(d, DispatchDecision::Skipped { repo_index: 0 }));
}

#[test]
fn exact_branch_filter_accepts_only_its_value() {
    let config = config_of(vec![plan("demo", Some("main"), None)]);
    let d = trigger("demo", Some("main"), None).delivery(&config);
    assert!(matches!(d, DispatchDecision::Matched { .. }));
    let d = trigger("demo", Some("dev"), None).delivery(&config);
    assert!(matches!(d, DispatchDecision::Skipped { .. }));
    let d = trigger("demo", None, None).delivery(&config);
    assert!(matches!(d, DispatchDecision::Skipped { .. }));
}

#[test]
fn tag_filter_works_like_branch_filter() {
    let config = config_of(vec![plan("demo", None, Some("@any"))]);
    let d = trigger("demo", None, Some("v1.0")).delivery(&config);
    assert!(matches!(d, DispatchDecision::Matched { .. }));
    let d = trigger("demo", None, None).delivery(&config);
    assert!(matches!(d, DispatchDecision::Skipped { .. }));

    let config = config_of(vec![plan("demo", None, Some("v2"))]);
    let d = trigger("demo", None, Some("v2")).delivery(&config);
    assert!(matches!(d, DispatchDecision::Matched { .. }));
    let d = trigger("demo", None, Some("v3")).delivery(&config);
    assert!(matches!(d, DispatchDecision::Skipped { .. }));
}

#[test]
fn unfiltered_plan_accepts_everything() {
    let config = config_of(vec![plan("demo", None, None)]);
    let d = trigger("demo", None, None).delivery(&config);
    assert!(matches!(d, DispatchDecision::Matched { .. }));
    let d = trigger("demo", Some("any-branch"), Some("any-tag")).delivery(&config);
    assert!(matches!(d, DispatchDecision::Matched { .. }));
}

#[test]
fn unknown_repository_is_a_no_op() {
    let config = config_of(vec![plan("demo", None, None)]);
    let d = trigger("other", Some("main"), None).delivery(&config);
    assert!(matches!(d, DispatchDecision::NoRepository));
}

#[test]
fn first_plan_with_the_name_decides() {
    let config = config_of(vec![
        plan("other", None, None),
        plan("demo", Some("main"), None),
        plan("demo", None, None),
    ]);
    let d = trigger("demo", Some("dev"), None).delivery(&config);
    // The second entry is the first plan named "demo"; its filter skips,
    // and the later unfiltered plan of the same name is never consulted.
    assert!(matches!(d, DispatchDecision::Skipped { repo_index: 1 }));
}
