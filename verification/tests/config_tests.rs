use fleet_core::config::AgentConfig;
use fleet_core::error::AgentError;

#[test]
fn zero_interval_is_rejected() {
    let cfg = AgentConfig { interval_secs: 0, ..AgentConfig::default() };
    assert!(cfg.validate().is_err());
}

#[test]
fn empty_agent_id_is_rejected() {
    let cfg = AgentConfig { agent_id: String::new(), ..AgentConfig::default() };
    assert!(cfg.validate().is_err());
}

#[test]
fn empty_collector_url_is_rejected() {
    let cfg = AgentConfig { collector_url: String::new(), ..AgentConfig::default() };
    assert!(cfg.validate().is_err());
}

#[test]
fn default_config_is_valid() {
    assert!(AgentConfig::default().validate().is_ok());
}

fn config_message(cfg: &AgentConfig) -> String {
    match cfg.validate() {
        Err(AgentError::Config(m)) => m,
        other => panic!("expected a config error, got {:?}", other),
    }
}

#[test]
fn default_config_values() {
    let cfg = AgentConfig::default();
    assert_eq!(cfg.interval_secs, 30);
    assert_eq!(cfg.ping_targets, vec!["8.8.8.8".to_string()]);
    assert_eq!(cfg.collector_url, "http://localhost:3000");
    assert_eq!(cfg.agent_id, "agent-001");
}

#[test]
fn validation_messages_name_the_broken_rule() {
    let zero = AgentConfig { interval_secs: 0, ..AgentConfig::default() };
    assert_eq!(config_message(&zero), "interval_secs must be greater than 0");
    let no_url = AgentConfig { collector_url: String::new(), ..AgentConfig::default() };
    assert_eq!(config_message(&no_url), "collector_url must not be empty");
    let no_id = AgentConfig { agent_id: String::new(), ..AgentConfig::default() };
    assert_eq!(config_message(&no_id), "agent_id must not be empty");
}

#[test]
fn first_broken_rule_is_reported() {
    let cfg = AgentConfig {
        interval_secs: 0,
        ping_targets: vec![],
        collector_url: String::new(),
        agent_id: String::new(),
    };
    assert_eq!(config_message(&cfg), "interval_secs must be greater than 0");
    let cfg2 = AgentConfig { interval_secs: 5, ..cfg };
    assert_eq!(config_message(&cfg2), "collector_url must not be empty");
}

#[test]
fn empty_ping_targets_are_accepted() {
    let cfg = AgentConfig { ping_targets: vec![], ..AgentConfig::default() };
    assert!(cfg.validate().is_ok());
}

#[test]
fn configs_compare_field_by_field() {
    let a = AgentConfig::default();
    let b = a.clone();
    assert!(a == b);
    assert!(a.same_as(&b));
    let c = AgentConfig { ping_targets: vec!["1.1.1.1".to_string()], ..AgentConfig::default() };
    assert!(a != c);
    let d = AgentConfig { ping_targets: vec!["8.8.8.8".to_string(), "1.1.1.1".to_string()], ..AgentConfig::default() };
    assert!(!a.same_as(&d));
    let e = AgentConfig { agent_id: "agent-002".to_string(), ..AgentConfig::default() };
    assert!(a != e);
}

#[test]
fn error_descriptions_carry_their_kind() {
    assert_eq!(AgentError::Config("bad".to_string()).describe(), "config error: bad");
    assert_eq!(AgentError::Metrics("x".to_string()).describe(), "metrics collection failed: x");
    assert_eq!(AgentError::Ping("y".to_string()).describe(), "ping error: y");
}
