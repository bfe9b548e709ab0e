use qfei_doctor::diagnostics::calendar::{
    civil_from_days, format_iso8601, is_leap, iso8601_at, iso8601_now, month_days, seconds_or_zero,
};
use qfei_doctor::diagnostics::{parse_target, target_from_parts};

#[test]
fn test_parse_target_url() {
    let t = parse_target("https://example.com/api/health");
    assert_eq!(t.domain, "example.com");
    assert_eq!(t.port, 443);
    assert_eq!(t.kind, "url");
    assert_eq!(t.normalized_url, "https://example.com/api/health");
}

#[test]
fn test_parse_target_domain() {
    let t = parse_target("example.com");
    assert_eq!(t.domain, "example.com");
    assert_eq!(t.port, 443);
    assert_eq!(t.kind, "domain");
    assert_eq!(t.normalized_url, "https://example.com");
}

#[test]
fn test_parse_target_http() {
    let t = parse_target("http://example.com");
    assert_eq!(t.domain, "example.com");
    assert_eq!(t.port, 80);
    assert_eq!(t.kind, "url");
}

#[test]
fn target_with_explicit_port_and_whitespace() {
    let t = parse_target("https://example.com:8443/x");
    assert_eq!(t.port, 8443);
    assert_eq!(t.domain, "example.com");
    let d = parse_target("  example.org \n");
    assert_eq!(d.kind, "domain");
    assert_eq!(d.domain, "example.org");
    assert_eq!(d.normalized_url, "https://example.org");
    assert_eq!(d.input, "  example.org \n");
    let bad = parse_target("http://");
    assert_eq!(bad.kind, "url");
    assert_eq!(bad.normalized_url, "http://");
    assert_eq!(bad.domain, "");
    assert_eq!(bad.port, 80);
    let bad_https = parse_target("https://exa mple.com");
    assert_eq!(bad_https.kind, "url");
    assert_eq!(bad_https.port, 443);
}

#[test]
fn target_from_parsed_parts() {
    let t = target_from_parts("https://a.example:9443/x", Some((Some("a.example".to_string()), Some(9443))));
    assert_eq!(t.kind, "url");
    assert_eq!(t.domain, "a.example");
    assert_eq!(t.port, 9443);
    assert_eq!(t.normalized_url, "https://a.example:9443/x");
    let u = target_from_parts("http://[bad", None);
    assert_eq!(u.kind, "url");
    assert_eq!(u.domain, "");
    assert_eq!(u.port, 80);
    let d = target_from_parts(" example.net ", None);
    assert_eq!(d.kind, "domain");
    assert_eq!(d.normalized_url, "https://example.net");
    assert_eq!(d.port, 443);
}

#[test]
fn clock_before_epoch_renders_epoch() {
    assert_eq!(seconds_or_zero(None), 0);
    assert_eq!(seconds_or_zero(Some(42)), 42);
    assert_eq!(iso8601_at(None), "1970-01-01T00:00:00Z");
    assert_eq!(iso8601_at(Some(1775176200)), "2026-04-03T00:30:00Z");
}

#[test]
fn test_iso8601_now() {
    let ts = iso8601_now();
    assert!(ts.ends_with('Z'));
    assert!(ts.contains('T'));
    assert_eq!(ts.len(), 20);
}

#[test]
fn iso8601_exact_values() {
    assert_eq!(format_iso8601(0), "1970-01-01T00:00:00Z");
    assert_eq!(format_iso8601(951868799), "2000-02-29T23:59:59Z");
    assert_eq!(format_iso8601(1775176200), "2026-04-03T00:30:00Z");
    assert_eq!(format_iso8601(1700000000), "2023-11-14T22:13:20Z");
}

#[test]
fn calendar_helpers() {
    assert!(is_leap(2000));
    assert!(!is_leap(1900));
    assert!(is_leap(2024));
    assert_eq!(month_days(2023, 2), 28);
    assert_eq!(month_days(2024, 2), 29);
    assert_eq!(month_days(2024, 4), 30);
    assert_eq!(civil_from_days(0), (1970, 1, 1));
    assert_eq!(civil_from_days(11016), (2000, 2, 29));
}
