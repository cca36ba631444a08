use delivery_station::config::{Action, Command, Host, Step};

fn host() -> Host {
    Host {
        description: Some("build box".to_string()),
        hostname: "build.internal".to_string(),
        port: None,
        user: "ci".to_string(),
    }
}

fn remote_step(action: Action) -> Step {
    Step {
        description: Some("remote".to_string()),
        host: Some("builder".to_string()),
        current_dir: None,
        environment: None,
        action,
    }
}

#[test]
fn remote_command_plan_runs_the_program_directly() {
    let step = remote_step(Action::Command {
        command: Command::WithArgs(vec!["systemctl".to_string(), "restart".to_string()]),
    });
    let plan = step.remote_plan(&host(), "/srv/ds", "AAAABBBBCCCC");
    assert_eq!(plan.hostname, "build.internal");
    assert_eq!(plan.port, 22);
    assert_eq!(plan.user, "ci");
    assert!(plan.upload.is_none());
    assert_eq!(plan.command_line, "systemctl \"restart\"");
    assert!(plan.cleanup.is_none());
}

#[test]
fn remote_script_plan_uploads_runs_and_cleans_up() {
    let step = remote_step(Action::Script {
        name: Command::WithArgs(vec!["deploy.sh".to_string(), "prod".to_string()]),
    });
    let plan = step.remote_plan(&host(), "/srv/ds", "AAAABBBBCCCC");
    let upload = plan.upload.unwrap();
    assert_eq!(upload.local_path, "/srv/ds/scripts/deploy.sh");
    assert_eq!(upload.remote_path, "/tmp/delivery_station_AAAABBBBCCCC");
    assert_eq!(
        plan.command_line,
        "/tmp/delivery_station_AAAABBBBCCCC \"prod\""
    );
    assert_eq!(
        plan.cleanup.as_deref(),
        Some("rm /tmp/delivery_station_AAAABBBBCCCC")
    );
}

#[test]
fn remote_plan_uses_the_configured_port() {
    let mut h = host();
    h.port = Some(2200);
    let step = remote_step(Action::Command { command: Command::Single("uptime".to_string()) });
    let plan = step.remote_plan(&h, "/srv/ds", "XXXXXXXXXXXX");
    assert_eq!(plan.port, 2200);
    assert_eq!(plan.command_line, "uptime");
}
