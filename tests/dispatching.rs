use arca::action::ActionDescriptor;
use arca::config::{Config, DeployEntry};
use arca::dispatch::{decide, Dispatch};
use arca::executor::plan_action;
use arca::reload::{apply_reload, ReloadOutcome};
use arca::state::{Repository, WebhookPayload};
use arca::table::RoutingTable;

fn push(r: &str, repo: &str) -> WebhookPayload {
    WebhookPayload {
        ref_name: Some(r.to_string()),
        repository: Repository { full_name: repo.to_string() },
    }
}

fn script_table(key: &str, path: &str) -> RoutingTable {
    let mut t = RoutingTable::new();
    t.insert(key.to_string(), ActionDescriptor::RunScript { path: path.to_string() });
    t
}

fn script_entry(path: &str) -> DeployEntry {
    DeployEntry { script: Some(path.to_string()), service_name: None }
}

#[test]
fn ping_is_acknowledged_with_empty_body() {
    let t = script_table("org/app#main", "/srv/deploy.sh");
    let d = decide(Some("ping"), &push("refs/heads/main", "org/app"), &t);
    assert!(matches!(d, Dispatch::Ping));
    assert_eq!(d.response_body(), "");
}

#[test]
fn other_event_types_are_matched() {
    let t = script_table("org/app#main", "/srv/deploy.sh");
    let d = decide(Some("push"), &push("refs/heads/main", "org/app"), &t);
    assert!(matches!(d, Dispatch::Execute { .. }));
    let d = decide(Some("Ping"), &push("refs/heads/main", "org/app"), &t);
    assert!(matches!(d, Dispatch::Execute { .. }));
}

#[test]
fn configured_branch_runs_script_in_its_directory() {
    let t = script_table("org/app#main", "/srv/deploy.sh");
    let d = decide(None, &push("refs/heads/main", "org/app"), &t);
    assert_eq!(d.response_body(), "ok");
    match d {
        Dispatch::Execute { key, action } => {
            assert_eq!(key, "org/app#main");
            let plan = plan_action(&action);
            assert_eq!(plan.program, "sh");
            assert_eq!(plan.args, vec!["-c".to_string(), "/srv/deploy.sh".to_string()]);
            assert_eq!(plan.working_dir, Some("/srv".to_string()));
        }
        other => panic!("unexpected decision {:?}", other),
    }
}

#[test]
fn unconfigured_branch_is_acknowledged() {
    let t = RoutingTable::new();
    let d = decide(None, &push("refs/heads/main", "org/app"), &t);
    assert_eq!(d.response_body(), "ok");
    match d {
        Dispatch::Unconfigured { key } => assert_eq!(key, "org/app#main"),
        other => panic!("unexpected decision {:?}", other),
    }
}

#[test]
fn tag_push_is_not_dispatched() {
    let t = script_table("org/app#v1.0", "/srv/deploy.sh");
    let d = decide(None, &push("refs/tags/v1.0", "org/app"), &t);
    assert!(matches!(d, Dispatch::Unmatched));
    assert_eq!(d.response_body(), "ok");
}

#[test]
fn restart_service_plan() {
    let mut t = RoutingTable::new();
    t.insert(
        "org/api#prod".to_string(),
        ActionDescriptor::RestartService { service_name: "api".to_string() },
    );
    match decide(None, &push("refs/heads/prod", "org/api"), &t) {
        Dispatch::Execute { action, .. } => {
            let plan = plan_action(&action);
            assert_eq!(plan.program, "pm2");
            assert_eq!(plan.args, vec!["restart".to_string(), "api".to_string()]);
            assert_eq!(plan.working_dir, None);
        }
        other => panic!("unexpected decision {:?}", other),
    }
}

#[test]
fn reload_adds_entry_for_later_requests() {
    let mut t = RoutingTable::new();
    let before = decide(None, &push("refs/heads/main", "org/app"), &t);
    assert!(matches!(before, Dispatch::Unconfigured { .. }));
    let config = Config {
        secret_key: None,
        reload_interval: Some(5),
        deploy: vec![("org/app#main".to_string(), script_entry("/srv/deploy.sh"))],
    };
    let next = RoutingTable::from_config(&config);
    assert!(matches!(apply_reload(&mut t, next), ReloadOutcome::Reloaded));
    let after = decide(None, &push("refs/heads/main", "org/app"), &t);
    assert!(matches!(after, Dispatch::Execute { .. }));
}

#[test]
fn identical_reload_is_no_change() {
    let mut t = script_table("org/app#main", "/srv/deploy.sh");
    let config = Config {
        secret_key: None,
        reload_interval: None,
        deploy: vec![("org/app#main".to_string(), script_entry("/srv/deploy.sh"))],
    };
    let next = RoutingTable::from_config(&config);
    assert!(matches!(apply_reload(&mut t, next), ReloadOutcome::Unchanged));
    assert_eq!(t.len(), 1);
    assert!(matches!(
        t.lookup("org/app#main"),
        Some(ActionDescriptor::RunScript { path }) if path == "/srv/deploy.sh"
    ));
}

#[test]
fn changed_action_is_a_reload() {
    let mut t = script_table("org/app#main", "/srv/deploy.sh");
    let next = script_table("org/app#main", "/srv/other.sh");
    assert!(matches!(apply_reload(&mut t, Ok(next)), ReloadOutcome::Reloaded));
    assert!(matches!(
        t.lookup("org/app#main"),
        Some(ActionDescriptor::RunScript { path }) if path == "/srv/other.sh"
    ));
}

#[test]
fn failed_reload_keeps_table() {
    let mut t = script_table("org/app#main", "/srv/deploy.sh");
    let outcome = apply_reload(&mut t, Err(arca::error::Error::Config("bad".to_string())));
    assert!(matches!(outcome, ReloadOutcome::Failed(arca::error::Error::Config(m)) if m == "bad"));
    assert_eq!(t.len(), 1);
    assert!(t.lookup("org/app#main").is_some());
}
