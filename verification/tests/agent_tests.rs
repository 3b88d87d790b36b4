use fleet_core::agent::{cycle_timeout_secs, merge_remote, plan_config_update, Action, Agent, ConfigPlan, Event, StoredConfig};
use fleet_core::client::RemoteConfig;
use fleet_core::config::AgentConfig;
use fleet_core::error::AgentError;

fn polling_agent(cfg: AgentConfig) -> Agent {
    let agent = Agent::new(cfg);
    let (agent, _) = agent.step(Event::Tick);
    let (agent, action) = agent.step(Event::Reported);
    assert!(matches!(action, Action::FetchConfig { .. }));
    agent
}

#[test]
fn cycle_reports_then_polls_then_rests() {
    let agent = Agent::new(AgentConfig::default());
    assert!(agent.accepts(&Event::Tick));
    assert!(!agent.accepts(&Event::Reported));
    let (agent, action) = agent.step(Event::Tick);
    match action {
        Action::Report { agent_id, ping_targets, cycle_timeout_secs } => {
            assert_eq!(agent_id, "agent-001");
            assert_eq!(ping_targets, vec!["8.8.8.8".to_string()]);
            assert_eq!(cycle_timeout_secs, 90);
        }
        _ => panic!("expected a report"),
    }
    let (agent, action) = agent.step(Event::Reported);
    match action {
        Action::FetchConfig { agent_id } => assert_eq!(agent_id, "agent-001"),
        _ => panic!("expected a config fetch"),
    }
    let (agent, action) = agent.step(Event::Fetched(None));
    assert!(matches!(action, Action::Sleep { secs: 30 }));
    assert!(agent.accepts(&Event::Tick));
    assert!(*agent.config() == AgentConfig::default());
}

#[test]
fn failed_fetch_keeps_config() {
    let agent = polling_agent(AgentConfig::default());
    let (agent, action) = agent.step(Event::FetchFailed);
    assert!(matches!(action, Action::Sleep { secs: 30 }));
    assert!(*agent.config() == AgentConfig::default());
}

#[test]
fn bad_remote_config_does_not_replace_active_config() {
    let agent = polling_agent(AgentConfig::default());
    let remote = RemoteConfig { interval_secs: Some(0), ping_targets: None };
    let (agent, action) = agent.step(Event::Fetched(Some(remote)));
    assert!(matches!(action, Action::LoadLastKnownGood));
    assert!(*agent.config() == AgentConfig::default());
    let (agent, action) = agent.step(Event::Loaded(StoredConfig::Found(AgentConfig::default())));
    assert!(matches!(action, Action::Sleep { secs: 30 }));
    assert!(*agent.config() == AgentConfig::default());
    assert_eq!(agent.config().interval_secs, 30);
}

#[test]
fn rollback_restores_stored_config() {
    let stored = AgentConfig { interval_secs: 45, ..AgentConfig::default() };
    let agent = polling_agent(AgentConfig::default());
    let remote = RemoteConfig { interval_secs: Some(0), ping_targets: None };
    let (agent, _) = agent.step(Event::Fetched(Some(remote)));
    let (agent, action) = agent.step(Event::Loaded(StoredConfig::Found(stored.clone())));
    assert!(matches!(action, Action::Sleep { secs: 30 }));
    assert!(*agent.config() == stored);
}

#[test]
fn rollback_without_store_keeps_config() {
    for outcome in [StoredConfig::Missing, StoredConfig::Unreadable] {
        let agent = polling_agent(AgentConfig::default());
        let remote = RemoteConfig { interval_secs: Some(0), ping_targets: None };
        let (agent, _) = agent.step(Event::Fetched(Some(remote)));
        let (agent, _) = agent.step(Event::Loaded(outcome));
        assert!(*agent.config() == AgentConfig::default());
    }
}

#[test]
fn valid_remote_config_is_applied_and_persisted() {
    let agent = polling_agent(AgentConfig::default());
    let remote = RemoteConfig {
        interval_secs: Some(10),
        ping_targets: Some(vec!["8.8.8.8".to_string(), "1.1.1.1".to_string()]),
    };
    let expected = AgentConfig {
        interval_secs: 10,
        ping_targets: vec!["8.8.8.8".to_string(), "1.1.1.1".to_string()],
        ..AgentConfig::default()
    };
    let (agent, action) = agent.step(Event::Fetched(Some(remote)));
    match action {
        Action::SaveConfig(c) => assert!(c == expected),
        _ => panic!("expected a save"),
    }
    // not yet applied before the save succeeded
    assert!(*agent.config() == AgentConfig::default());
    let (agent, action) = agent.step(Event::Saved(true));
    // this cycle rests for the interval it began with
    assert!(matches!(action, Action::Sleep { secs: 30 }));
    assert!(*agent.config() == expected);
    let (agent, action) = agent.step(Event::Tick);
    match action {
        Action::Report { ping_targets, .. } => assert_eq!(ping_targets.len(), 2),
        _ => panic!("expected a report"),
    }
    let (agent, _) = agent.step(Event::Reported);
    let (_, action) = agent.step(Event::FetchFailed);
    assert!(matches!(action, Action::Sleep { secs: 10 }));
}

#[test]
fn failed_save_keeps_config() {
    let agent = polling_agent(AgentConfig::default());
    let remote = RemoteConfig { interval_secs: Some(10), ping_targets: None };
    let (agent, _) = agent.step(Event::Fetched(Some(remote)));
    let (agent, _) = agent.step(Event::Saved(false));
    assert!(*agent.config() == AgentConfig::default());
}

#[test]
fn unchanged_remote_config_skips_write() {
    let agent = polling_agent(AgentConfig::default());
    let remote = RemoteConfig { interval_secs: Some(30), ping_targets: None };
    let (agent, action) = agent.step(Event::Fetched(Some(remote)));
    assert!(matches!(action, Action::Sleep { secs: 30 }));
    assert!(*agent.config() == AgentConfig::default());
}

#[test]
fn merge_keeps_unset_fields() {
    let current = AgentConfig::default();
    let merged = merge_remote(&current, RemoteConfig { interval_secs: None, ping_targets: Some(vec![]) });
    assert_eq!(merged.interval_secs, 30);
    assert!(merged.ping_targets.is_empty());
    assert_eq!(merged.agent_id, "agent-001");
    assert_eq!(merged.collector_url, "http://localhost:3000");
}

#[test]
fn plans_for_overrides() {
    let current = AgentConfig::default();
    assert!(matches!(
        plan_config_update(&current, RemoteConfig { interval_secs: None, ping_targets: None }),
        ConfigPlan::Unchanged
    ));
    match plan_config_update(&current, RemoteConfig { interval_secs: Some(0), ping_targets: None }) {
        ConfigPlan::Revert(AgentError::Config(m)) => assert_eq!(m, "interval_secs must be greater than 0"),
        _ => panic!("expected a revert"),
    }
    match plan_config_update(&current, RemoteConfig { interval_secs: Some(5), ping_targets: None }) {
        ConfigPlan::Persist(c) => assert_eq!(c.interval_secs, 5),
        _ => panic!("expected a persist"),
    }
}

#[test]
fn sound_agent_never_sleeps_zero() {
    let agent = Agent::new(AgentConfig { interval_secs: 1, ..AgentConfig::default() });
    let (agent, _) = agent.step(Event::Tick);
    let (agent, _) = agent.step(Event::Reported);
    let (_, action) = agent.step(Event::FetchFailed);
    assert!(matches!(action, Action::Sleep { secs: 1 }));
}

#[test]
fn timed_out_cycle_moves_on() {
    let agent = Agent::new(AgentConfig::default());
    assert!(!agent.accepts(&Event::TimedOut));
    let (agent, _) = agent.step(Event::Tick);
    assert!(agent.accepts(&Event::TimedOut));
    let (agent, action) = agent.step(Event::TimedOut);
    assert!(matches!(action, Action::Sleep { secs: 30 }));
    assert!(agent.accepts(&Event::Tick));

    let agent = polling_agent(AgentConfig::default());
    let remote = RemoteConfig { interval_secs: Some(10), ping_targets: None };
    let (agent, _) = agent.step(Event::Fetched(Some(remote)));
    let (agent, action) = agent.step(Event::TimedOut);
    assert!(matches!(action, Action::Sleep { secs: 30 }));
    assert!(*agent.config() == AgentConfig::default());
}

#[test]
fn cycle_timeout_is_three_intervals() {
    assert_eq!(cycle_timeout_secs(30), 90);
    assert_eq!(cycle_timeout_secs(1), 3);
    assert_eq!(cycle_timeout_secs(u64::MAX), u64::MAX);
    assert_eq!(cycle_timeout_secs(u64::MAX / 3), u64::MAX / 3 * 3);
}
