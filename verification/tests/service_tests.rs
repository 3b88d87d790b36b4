use fleet_core::probe::{first_attempt, method_label, next_attempt, AttemptOutcome, ProbeMethod};
use fleet_core::service::{parse_u64, service_config, split_commas_exec};

#[test]
fn numbers_parse_like_std() {
    for s in ["0", "30", "+7", "007", "18446744073709551615", "18446744073709551616", "", "+", "-1", "1a", " 1", "99999999999999999999x"] {
        assert_eq!(parse_u64(s), s.parse::<u64>().ok(), "input {:?}", s);
    }
    assert_eq!(parse_u64("42"), Some(42));
    assert_eq!(parse_u64("abc"), None);
}

#[test]
fn lists_split_like_std() {
    for s in ["8.8.8.8,1.1.1.1", "", ",", "a,,b", "single", "x,"] {
        let expected: Vec<String> = s.split(',').map(str::to_string).collect();
        assert_eq!(split_commas_exec(s), expected, "input {:?}", s);
    }
}

#[test]
fn service_config_defaults() {
    let cfg = service_config(None, None, None, None);
    assert_eq!(cfg.agent_id, "agent-001");
    assert_eq!(cfg.collector_url, "http://localhost:3000");
    assert_eq!(cfg.interval_secs, 30);
    assert_eq!(cfg.ping_targets, vec!["8.8.8.8".to_string()]);
}

#[test]
fn service_config_from_settings() {
    let cfg = service_config(
        Some("device-42".to_string()),
        Some("http://collector.internal:3000".to_string()),
        Some("30".to_string()),
        Some("8.8.8.8,1.1.1.1".to_string()),
    );
    assert_eq!(cfg.agent_id, "device-42");
    assert_eq!(cfg.collector_url, "http://collector.internal:3000");
    assert_eq!(cfg.interval_secs, 30);
    assert_eq!(cfg.ping_targets, vec!["8.8.8.8".to_string(), "1.1.1.1".to_string()]);
    let bad = service_config(None, None, Some("soon".to_string()), None);
    assert_eq!(bad.interval_secs, 30);
    let ten = service_config(None, None, Some("10".to_string()), None);
    assert_eq!(ten.interval_secs, 10);
}

#[test]
fn probing_order() {
    assert_eq!(first_attempt(), ProbeMethod::Icmp);
    assert_eq!(next_attempt(ProbeMethod::Icmp, AttemptOutcome::NotPermitted), Some(ProbeMethod::Tcp { port: 80 }));
    assert_eq!(next_attempt(ProbeMethod::Icmp, AttemptOutcome::Failed), None);
    assert_eq!(next_attempt(ProbeMethod::Icmp, AttemptOutcome::Answered), None);
    assert_eq!(next_attempt(ProbeMethod::Tcp { port: 80 }, AttemptOutcome::Failed), Some(ProbeMethod::Tcp { port: 443 }));
    assert_eq!(next_attempt(ProbeMethod::Tcp { port: 80 }, AttemptOutcome::Answered), None);
    assert_eq!(next_attempt(ProbeMethod::Tcp { port: 443 }, AttemptOutcome::Failed), None);
    assert_eq!(method_label(ProbeMethod::Icmp), "icmp");
    assert_eq!(method_label(ProbeMethod::Tcp { port: 443 }), "tcp");
}
