use fleet_core::client::{config_reply, is_error_status, CollectorClient, ConfigReply};
use fleet_core::collector::{read_status, write_status};
use fleet_core::metrics::NetworkInterface;

#[test]
fn base_url_loses_trailing_slashes() {
    let c = CollectorClient::new("http://localhost:3000///");
    assert_eq!(c.base_url(), "http://localhost:3000");
    let plain = CollectorClient::new("http://collector.internal:3000");
    assert_eq!(plain.base_url(), "http://collector.internal:3000");
    let only = CollectorClient::new("///");
    assert_eq!(only.base_url(), "");
    let inner = CollectorClient::new("http://a/b/");
    assert_eq!(inner.base_url(), "http://a/b");
}

#[test]
fn request_urls() {
    let c = CollectorClient::new("http://localhost:3000/");
    assert_eq!(c.metrics_url(), "http://localhost:3000/metrics");
    assert_eq!(c.config_url("agent-001"), "http://localhost:3000/config/agent-001");
}

#[test]
fn config_reply_by_status() {
    assert!(matches!(config_reply(404), ConfigReply::NoOverride));
    assert!(matches!(config_reply(200), ConfigReply::Override));
    assert!(matches!(config_reply(500), ConfigReply::Failed));
    assert!(matches!(config_reply(400), ConfigReply::Failed));
    assert!(matches!(config_reply(302), ConfigReply::Override));
}

#[test]
fn error_statuses() {
    assert!(!is_error_status(200));
    assert!(!is_error_status(399));
    assert!(is_error_status(400));
    assert!(is_error_status(599));
    assert!(!is_error_status(600));
}

#[test]
fn collector_statuses() {
    assert_eq!(write_status(false, true), 400);
    assert_eq!(write_status(false, false), 400);
    assert_eq!(write_status(true, true), 200);
    assert_eq!(write_status(true, false), 500);
    assert_eq!(read_status(true), 200);
    assert_eq!(read_status(false), 404);
}

#[test]
fn listed_interfaces_are_up() {
    let i = NetworkInterface::observed("eth0".to_string(), 10, 20);
    assert_eq!(i.name, "eth0");
    assert_eq!(i.bytes_sent, 10);
    assert_eq!(i.bytes_recv, 20);
    assert!(i.is_up);
}
