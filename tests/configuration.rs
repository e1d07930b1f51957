use arca::action::ActionDescriptor;
use arca::config::{reload_period_secs, settle_config, Config, ConfigRead, DeployEntry};
use arca::error::Error;
use arca::table::RoutingTable;

fn entry(script: Option<&str>, service: Option<&str>) -> DeployEntry {
    DeployEntry {
        script: script.map(|s| s.to_string()),
        service_name: service.map(|s| s.to_string()),
    }
}

#[test]
fn missing_source_gives_empty_config() {
    let c = settle_config(ConfigRead::Missing).unwrap();
    assert!(c.secret_key.is_none());
    assert!(c.reload_interval.is_none());
    assert!(c.deploy.is_empty());
    let t = RoutingTable::from_config(&c).unwrap();
    assert_eq!(t.len(), 0);
}

#[test]
fn unreadable_source_is_io_error() {
    let r = settle_config(ConfigRead::Unreadable("denied".to_string()));
    assert!(matches!(r, Err(Error::Io(m)) if m == "denied"));
}

#[test]
fn malformed_source_is_config_error() {
    let r = settle_config(ConfigRead::Malformed("line 1".to_string()));
    assert!(matches!(r, Err(Error::Config(m)) if m == "line 1"));
}

#[test]
fn parsed_source_is_kept() {
    let c = Config { secret_key: Some("s".to_string()), reload_interval: Some(3), deploy: vec![] };
    let r = settle_config(ConfigRead::Parsed(c)).unwrap();
    assert_eq!(r.secret_key, Some("s".to_string()));
    assert_eq!(r.reload_interval, Some(3));
}

#[test]
fn startup_needs_secret_then_interval() {
    let c = Config { secret_key: None, reload_interval: None, deploy: vec![] };
    assert!(matches!(c.startup_settings(), Err(Error::MissingKey(k)) if k == "secret_key"));
    let c = Config { secret_key: Some("t".to_string()), reload_interval: None, deploy: vec![] };
    assert!(matches!(c.startup_settings(), Err(Error::MissingKey(k)) if k == "reload_interval"));
    let c = Config { secret_key: Some("t".to_string()), reload_interval: Some(10), deploy: vec![] };
    let (secret, interval) = c.startup_settings().unwrap();
    assert_eq!(secret, "t");
    assert_eq!(interval, 10);
}

#[test]
fn reload_period_is_at_least_one() {
    assert_eq!(reload_period_secs(0), 1);
    assert_eq!(reload_period_secs(1), 1);
    assert_eq!(reload_period_secs(30), 30);
    assert_eq!(reload_period_secs(u64::MAX), u64::MAX);
}

#[test]
fn entries_become_actions() {
    let c = Config {
        secret_key: None,
        reload_interval: None,
        deploy: vec![
            ("org/app#main".to_string(), entry(Some("/srv/deploy.sh"), None)),
            ("org/api#prod".to_string(), entry(None, Some("api"))),
        ],
    };
    let t = RoutingTable::from_config(&c).unwrap();
    assert_eq!(t.len(), 2);
    assert!(matches!(
        t.lookup("org/app#main"),
        Some(ActionDescriptor::RunScript { path }) if path == "/srv/deploy.sh"
    ));
    assert!(matches!(
        t.lookup("org/api#prod"),
        Some(ActionDescriptor::RestartService { service_name }) if service_name == "api"
    ));
    assert!(t.lookup("org/app#Main").is_none());
    assert!(t.lookup("org/app").is_none());
}

#[test]
fn later_entry_overrides_earlier() {
    let c = Config {
        secret_key: None,
        reload_interval: None,
        deploy: vec![
            ("k#b".to_string(), entry(Some("/a.sh"), None)),
            ("k#b".to_string(), entry(Some("/b.sh"), None)),
        ],
    };
    let t = RoutingTable::from_config(&c).unwrap();
    assert_eq!(t.len(), 1);
    assert!(matches!(t.lookup("k#b"), Some(ActionDescriptor::RunScript { path }) if path == "/b.sh"));
}

#[test]
fn entry_with_both_or_neither_is_refused() {
    let c = Config {
        secret_key: None,
        reload_interval: None,
        deploy: vec![
            ("ok#main".to_string(), entry(Some("/a.sh"), None)),
            ("both#main".to_string(), entry(Some("/a.sh"), Some("svc"))),
            ("none#main".to_string(), entry(None, None)),
        ],
    };
    let r = RoutingTable::from_config(&c);
    assert!(matches!(r, Err(Error::InvalidEntry(k)) if k == "both#main"));
    let e = entry(None, None);
    assert!(matches!(e.action(&"x#y".to_string()), Err(Error::InvalidEntry(k)) if k == "x#y"));
}

#[test]
fn errors_answer_with_internal_fault() {
    assert_eq!(Error::Io("x".to_string()).status_code(), 500);
    assert_eq!(Error::Config("x".to_string()).status_code(), 500);
    assert_eq!(Error::MissingKey("x".to_string()).status_code(), 500);
    assert_eq!(Error::InvalidEntry("x".to_string()).status_code(), 500);
}

#[test]
fn table_insert_replaces_and_compares() {
    let mut a = RoutingTable::new();
    a.insert("r#b".to_string(), ActionDescriptor::RunScript { path: "/x.sh".to_string() });
    a.insert("r#b".to_string(), ActionDescriptor::RestartService { service_name: "s".to_string() });
    assert_eq!(a.len(), 1);
    let mut b = RoutingTable::new();
    b.insert("r#b".to_string(), ActionDescriptor::RestartService { service_name: "s".to_string() });
    assert!(a.same_entries(&b));
    b.insert("r#c".to_string(), ActionDescriptor::RestartService { service_name: "s".to_string() });
    assert!(!a.same_entries(&b));
    assert!(!b.same_entries(&a));
    assert!(a.replace(b));
    assert_eq!(a.len(), 2);
}
