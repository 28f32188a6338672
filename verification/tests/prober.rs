use netmonitor::allowed_targets;
use netmonitor::classify;
use netmonitor::is_allowed;
use netmonitor::validate_target;
use netmonitor::ConnectionPolicy;
use netmonitor::PingResult;
use netmonitor::PROBE_TIMEOUT_MS;

#[test]
fn every_fixed_target_is_allowed() {
    for target in [
        "8.8.8.8",
        "1.1.1.1",
        "9.9.9.9",
        "208.67.222.222",
        "www.google.com",
        "www.cloudflare.com",
    ] {
        assert!(is_allowed(target), "{} should be allowed", target);
        let url = validate_target(target).expect("allow-listed target must validate");
        assert_eq!(url, format!("https://{}", target));
    }
}

#[test]
fn unknown_target_is_rejected_with_its_name() {
    let err = validate_target("example.com").unwrap_err();
    assert!(err.contains("example.com"));
    assert_eq!(err, "Target 'example.com' not in whitelist");
}

#[test]
fn rejection_is_exact_match_only() {
    assert!(!is_allowed(""));
    assert!(!is_allowed("google.com"));
    assert!(!is_allowed("WWW.GOOGLE.COM"));
    assert!(!is_allowed("8.8.8.8 "));
    assert!(!is_allowed(" 8.8.8.8"));
    assert!(!is_allowed("8.8.8.9"));
    assert!(!is_allowed("https://8.8.8.8"));
    assert!(!is_allowed("www.google.com/search"));
}

#[test]
fn rejected_target_yields_no_probe_url() {
    assert!(validate_target("evil.invalid").is_err());
    assert!(validate_target("127.0.0.1").is_err());
    assert!(validate_target("localhost").is_err());
}

#[test]
fn quick_success_response_reports_its_latency() {
    let r = classify(Some(204), 10);
    assert_eq!(r, PingResult { success: true, latency_ms: 10 });
}

#[test]
fn server_error_response_keeps_nonzero_latency() {
    let r = classify(Some(503), 37);
    assert!(!r.success);
    assert_eq!(r.latency_ms, 37);
}

#[test]
fn transport_failure_reports_zero_latency() {
    let r = classify(None, 4999);
    assert_eq!(r, PingResult { success: false, latency_ms: 0 });
    let r = classify(None, 0);
    assert_eq!(r, PingResult { success: false, latency_ms: 0 });
}

#[test]
fn success_is_exactly_the_2xx_range() {
    assert!(classify(Some(200), 1).success);
    assert!(classify(Some(226), 1).success);
    assert!(classify(Some(299), 1).success);
    assert!(!classify(Some(199), 1).success);
    assert!(!classify(Some(300), 1).success);
    assert!(!classify(Some(301), 1).success);
    assert!(!classify(Some(404), 1).success);
    assert!(!classify(Some(100), 1).success);
}

#[test]
fn any_response_preserves_the_measured_latency() {
    for code in [200u16, 204, 301, 404, 500, 503] {
        for elapsed in [0u64, 1, 10, 4999, u64::MAX] {
            assert_eq!(classify(Some(code), elapsed).latency_ms, elapsed);
        }
    }
}

#[test]
fn classification_is_deterministic() {
    for _ in 0..3 {
        assert_eq!(classify(Some(204), 12), PingResult { success: true, latency_ms: 12 });
        assert_eq!(classify(None, 12), PingResult { success: false, latency_ms: 0 });
    }
}

#[test]
fn policy_forces_fresh_connections_with_five_second_timeout() {
    let p = ConnectionPolicy::new();
    assert_eq!(p.timeout_ms, 5000);
    assert_eq!(p.timeout_ms, PROBE_TIMEOUT_MS);
    assert!(p.http1_only);
    assert_eq!(p.max_idle_per_host, 0);
    assert_eq!(p.idle_timeout_ms, 0);
    assert!(!p.tcp_keepalive);
}

#[test]
fn allow_list_holds_exactly_the_six_targets() {
    let targets = allowed_targets();
    assert_eq!(targets.len(), 6);
    for t in &targets {
        assert!(is_allowed(t));
        assert!(validate_target(t).is_ok());
    }
    for expected in [
        "8.8.8.8",
        "1.1.1.1",
        "9.9.9.9",
        "208.67.222.222",
        "www.google.com",
        "www.cloudflare.com",
    ] {
        assert!(targets.iter().any(|t| t == expected));
    }
}
