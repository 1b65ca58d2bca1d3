use broken_link_checker::adapters::http::{is_broken_status, HttpClientConfig, USER_AGENT};

#[test]
fn test_is_broken_status() {
    assert!(!is_broken_status(200));
    assert!(!is_broken_status(201));
    assert!(!is_broken_status(301));
    assert!(!is_broken_status(302));
    assert!(!is_broken_status(400));
    assert!(!is_broken_status(403));
    assert!(!is_broken_status(405));
    assert!(!is_broken_status(600));

    assert!(is_broken_status(404));
    assert!(is_broken_status(500));
    assert!(is_broken_status(502));
    assert!(is_broken_status(503));
    assert!(is_broken_status(599));
}

#[test]
fn broken_status_edges() {
    assert!(!is_broken_status(0));
    assert!(!is_broken_status(403));
    assert!(!is_broken_status(405));
    assert!(!is_broken_status(499));
    assert!(is_broken_status(500));
    assert!(is_broken_status(599));
    assert!(!is_broken_status(600));
    assert!(!is_broken_status(u16::MAX));
}

#[test]
fn http_client_config_values() {
    let c = HttpClientConfig::new(30, 7, true);
    assert_eq!(c.timeout_seconds, 30);
    assert_eq!(c.max_redirects, 7);
    assert!(c.ignore_ssl);
    let d = HttpClientConfig::default();
    assert_eq!(d.timeout_seconds, 10);
    assert_eq!(d.max_redirects, 5);
    assert!(!d.ignore_ssl);
    assert!(USER_AGENT.starts_with("Mozilla/5.0"));
}
