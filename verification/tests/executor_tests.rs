use delivery_station::config::{
    Action, Command, CompositeSteps, Config, Host, NamedHost, Repository, Step, Steps,
};
use delivery_station::executor::{DeliveryError, StepResult, exit_status, script_fullname};
use delivery_station::ssh::{build_remote_command, key_candidates, select_private_key};
use delivery_station::trigger::TriggeredInfo;

fn config() -> Config {
    Config {
        listen_address: "127.0.0.1:8080".to_string(),
        host: vec![NamedHost {
            name: "web1".to_string(),
            host: Host {
                description: None,
                hostname: "10.0.0.1".to_string(),
                port: None,
                user: "deploy".to_string(),
            },
        }],
        repository: Vec::new(),
        notifier: None,
        environment: None,
        work_dir: "/srv/ds".to_string(),
        base_url: "http://localhost".to_string(),
    }
}

fn repo() -> Repository {
    Repository {
        name: "demo".to_string(),
        description: None,
        environment: None,
        branch: None,
        tag: None,
        steps: CompositeSteps::Single(Steps::Multiple(Vec::new())),
    }
}

fn trigger() -> TriggeredInfo {
    TriggeredInfo {
        repository: "demo".to_string(),
        branch: None,
        tag: None,
        steps_name: None,
    }
}

fn local_step(action: Action) -> Step {
    Step {
        description: None,
        host: None,
        current_dir: Some("/srv/app".to_string()),
        environment: None,
        action,
    }
}

#[test]
fn command_action_launches_the_named_program() {
    let step = local_step(Action::Command {
        command: Command::WithArgs(vec![
            "cargo".to_string(),
            "build".to_string(),
            "--release".to_string(),
        ]),
    });
    let launch = step.local_launch(&config(), &repo(), &trigger());
    assert_eq!(launch.program, "cargo");
    assert_eq!(launch.args, vec!["build".to_string(), "--release".to_string()]);
    assert_eq!(launch.current_dir.as_deref(), Some("/srv/app"));
}

#[test]
fn script_action_launches_sh_with_the_resolved_path() {
    let step = local_step(Action::Script {
        name: Command::WithArgs(vec!["deploy.sh".to_string(), "prod".to_string()]),
    });
    let launch = step.local_launch(&config(), &repo(), &trigger());
    assert_eq!(launch.program, "sh");
    assert_eq!(
        launch.args,
        vec!["/srv/ds/scripts/deploy.sh".to_string(), "prod".to_string()]
    );
}

#[test]
fn launch_environment_carries_trigger_variables() {
    let step = local_step(Action::Command { command: Command::Single("true".to_string()) });
    let launch = step.local_launch(&config(), &repo(), &trigger());
    assert!(launch
        .env
        .iter()
        .any(|v| v.name == "TRIGGERED_INFO_REPOSITORY" && v.value == "demo"));
}

#[test]
fn script_path_resolves_under_the_scripts_directory() {
    assert_eq!(script_fullname("/srv/ds", "deploy.sh"), "/srv/ds/scripts/deploy.sh");
}

#[test]
fn steps_without_host_run_locally() {
    let step = local_step(Action::Command { command: Command::Single("true".to_string()) });
    assert!(step.resolve_host(&config()).unwrap().is_none());
}

#[test]
fn configured_host_resolves_through_the_table() {
    let mut step = local_step(Action::Command { command: Command::Single("true".to_string()) });
    step.host = Some("web1".to_string());
    let config = config();
    let host = step.resolve_host(&config).unwrap().unwrap();
    assert_eq!(host.hostname, "10.0.0.1");
    assert_eq!(host.user, "deploy");
}

#[test]
fn missing_host_reference_is_a_config_error() {
    let mut step = local_step(Action::Command { command: Command::Single("true".to_string()) });
    step.host = Some("db9".to_string());
    let err = step.resolve_host(&config()).unwrap_err();
    assert!(matches!(err, DeliveryError::Config(_)));
    assert_eq!(err.message(), "invalid host: db9");
}

#[test]
fn remote_command_quotes_each_argument() {
    let line = build_remote_command(
        "systemctl",
        &Some(vec!["restart".to_string(), "my app".to_string()]),
    );
    assert_eq!(line, "systemctl \"restart\" \"my app\"");
    assert_eq!(build_remote_command("uptime", &None), "uptime");
    assert_eq!(build_remote_command("prog", &Some(Vec::new())), "prog \"\"");
}

#[test]
fn key_selection_prefers_ed25519_and_fails_without_keys() {
    let (ed, rsa) = key_candidates("/home/deploy");
    assert_eq!(ed, "/home/deploy/.ssh/id_ed25519");
    assert_eq!(rsa, "/home/deploy/.ssh/id_rsa");

    assert_eq!(select_private_key("/home/deploy", true, true).unwrap(), ed);
    assert_eq!(select_private_key("/home/deploy", true, false).unwrap(), ed);
    assert_eq!(select_private_key("/home/deploy", false, true).unwrap(), rsa);
    let err = select_private_key("/home/deploy", false, false).unwrap_err();
    assert!(matches!(err, DeliveryError::Auth(_)));
    assert_eq!(err.message(), "missing private key");
}

#[test]
fn killed_child_counts_as_failed() {
    assert_eq!(exit_status(Some(0)), 0);
    assert_eq!(exit_status(Some(7)), 7);
    assert_eq!(exit_status(None), -1);
}

#[test]
fn step_error_becomes_a_failed_result() {
    let e = DeliveryError::Transport("connection refused".to_string());
    let r = StepResult::from_error(&e, Some("deploy".to_string()));
    assert_eq!(r.status, -1);
    assert!(!r.success());
    assert_eq!(r.description.as_deref(), Some("deploy"));
    assert_eq!(r.stdout, None);
    assert_eq!(r.stderr.as_deref(), Some(&b"connection refused"[..]));
}
