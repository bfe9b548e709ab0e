use qfei_doctor::diagnostics::dns::{dns_module, DnsLookup};
use qfei_doctor::diagnostics::http::{http_module, HttpOutcome};
use qfei_doctor::diagnostics::result::{Severity, Status};
use qfei_doctor::diagnostics::system::{detect_proxy, diagnose, Platform, ProxyEnv};
use qfei_doctor::diagnostics::tcp::{tcp_module, TcpOutcome};
use qfei_doctor::diagnostics::tls::{tls_module, TlsOutcome};
use qfei_doctor::diagnostics::{summarize, Diagnosis, PhaseResult, Step};

fn quiet_system(server_date: Option<&str>) -> PhaseResult {
    let env = ProxyEnv { https_proxy: None, https_proxy_upper: None, http_proxy: None, http_proxy_upper: None };
    PhaseResult::System(diagnose(server_date, detect_proxy(Platform::Other, None, env), None, 1))
}

#[test]
fn unresolvable_domain_fails_at_dns() {
    let mut d = Diagnosis::new("this-domain-does-not-exist-qfeidoctor-test.invalid");
    match d.next_step() {
        Step::ResolveDns { domain } => assert_eq!(domain, "this-domain-does-not-exist-qfeidoctor-test.invalid"),
        other => panic!("unexpected step {:?}", other),
    }
    d.record(PhaseResult::Dns(dns_module(DnsLookup::Failed("no such host".to_string()), 5)));
    match d.next_step() {
        Step::InspectSystem { server_date } => assert!(server_date.is_none()),
        other => panic!("unexpected step {:?}", other),
    }
    let tcp = d.tcp.clone().unwrap();
    assert_eq!(tcp.status, Status::Fail);
    assert_eq!(tcp.error.as_deref(), Some("No resolved IP from DNS phase"));
    assert_eq!(tcp.details.port, 443);
    let tls = d.tls.clone().unwrap();
    assert_eq!(tls.status, Status::Fail);
    assert_eq!(tls.error.as_deref(), Some("Skipped: TCP connection failed"));
    let http = d.http.clone().unwrap();
    assert_eq!(http.error.as_deref(), Some("Skipped: TCP connection failed"));
    d.record(quiet_system(None));
    assert!(matches!(d.next_step(), Step::Finished));
    let report = d.finish(120, None);
    assert_eq!(report.version, "v0");
    assert_eq!(report.generated_at.len(), 20);
    assert_eq!(report.summary.failure_stage.as_deref(), Some("dns"));
    assert_eq!(report.summary.status, Status::Fail);
    assert_eq!(report.summary.severity, Severity::Fail);
    assert_eq!(report.summary.total_duration_ms, 120);
    assert!(report.summary.resolved_ip.is_none());
    assert!(!report.recommended_actions.manual_actions.is_empty());
    assert!(report.recommended_actions.quick_actions.iter().any(|q| q.id == "flush_dns"));
    assert!(report.ipinfo.is_none());
}

#[test]
fn plain_http_target_skips_tls() {
    let mut d = Diagnosis::new("http://example.com");
    assert!(matches!(d.next_step(), Step::ResolveDns { .. }));
    d.record(PhaseResult::Dns(dns_module(DnsLookup::Resolved(vec!["93.184.216.34".to_string()]), 5)));
    match d.next_step() {
        Step::ConnectTcp { ip, port } => {
            assert_eq!(ip, "93.184.216.34");
            assert_eq!(port, 80);
        }
        other => panic!("unexpected step {:?}", other),
    }
    d.record(PhaseResult::Tcp(tcp_module("93.184.216.34", 80, TcpOutcome::Connected, 20)));
    match d.next_step() {
        Step::FetchHttp { url } => assert_eq!(url, "http://example.com"),
        other => panic!("unexpected step {:?}", other),
    }
    let tls = d.tls.clone().unwrap();
    assert_eq!(tls.status, Status::Skip);
    assert_eq!(tls.severity, Severity::Info);
    assert_eq!(tls.error.as_deref(), Some("Skipped: non-HTTPS port"));
    let date = "Thu, 03 Apr 2026 00:30:00 GMT";
    d.record(PhaseResult::Http(http_module(
        "http://example.com",
        HttpOutcome::Response {
            status_code: 200,
            final_url: "http://example.com".to_string(),
            headers: vec![("date".to_string(), date.to_string())],
        },
        30,
    )));
    match d.next_step() {
        Step::InspectSystem { server_date } => assert_eq!(server_date.as_deref(), Some(date)),
        other => panic!("unexpected step {:?}", other),
    }
    d.record(quiet_system(Some(date)));
    assert!(matches!(d.next_step(), Step::Finished));
    let report = d.finish(80, None);
    // The fixed `Date` header is compared with the real clock, which may be far from it.
    let skewed = report.system.details.clock_skewed;
    assert!(report.system.details.clock_offset_sec.is_some());
    if skewed {
        assert_eq!(report.summary.status, Status::Warn);
        assert!(report.recommended_actions.quick_actions.iter().any(|q| q.id == "open_datetime"));
    } else {
        assert_eq!(report.summary.status, Status::Pass);
        assert_eq!(report.summary.severity, Severity::Info);
        assert!(report.recommended_actions.manual_actions.is_empty());
        assert!(report.recommended_actions.quick_actions.is_empty());
    }
    assert!(report.summary.failure_stage.is_none());
    assert_eq!(report.summary.resolved_ip.as_deref(), Some("93.184.216.34"));
    assert_eq!(report.target.kind, "url");
}

#[test]
fn refused_connection_fails_at_tcp() {
    let mut d = Diagnosis::new("example.com");
    d.next_step();
    d.record(PhaseResult::Dns(dns_module(DnsLookup::Resolved(vec!["1.2.3.4".to_string()]), 5)));
    assert!(matches!(d.next_step(), Step::ConnectTcp { .. }));
    d.record(PhaseResult::Tcp(tcp_module("1.2.3.4", 443, TcpOutcome::TimedOut, 10000)));
    assert!(matches!(d.next_step(), Step::InspectSystem { server_date: None }));
    d.record(quiet_system(None));
    assert!(matches!(d.next_step(), Step::Finished));
    let report = d.finish(10010, None);
    assert_eq!(report.summary.failure_stage.as_deref(), Some("tcp"));
    assert!(report.recommended_actions.quick_actions.iter().any(|q| q.id == "open_network"));
    assert!(report.recommended_actions.manual_actions.iter().any(|m| m.contains("端口不可达")));
}

#[test]
fn https_target_asks_for_handshake() {
    let mut d = Diagnosis::new("example.com");
    d.next_step();
    d.record(PhaseResult::Dns(dns_module(DnsLookup::Resolved(vec!["1.2.3.4".to_string()]), 5)));
    d.next_step();
    d.record(PhaseResult::Tcp(tcp_module("1.2.3.4", 443, TcpOutcome::Connected, 10)));
    match d.next_step() {
        Step::HandshakeTls { domain, ip, port } => {
            assert_eq!(domain, "example.com");
            assert_eq!(ip, "1.2.3.4");
            assert_eq!(port, 443);
        }
        other => panic!("unexpected step {:?}", other),
    }
    d.record(PhaseResult::Tls(tls_module(
        "example.com",
        TlsOutcome::Established { version: Some("TLSv1_3".to_string()), peer_certs: None },
        15,
    )));
    assert!(matches!(d.next_step(), Step::FetchHttp { .. }));
    d.record(PhaseResult::Http(http_module(
        "https://example.com",
        HttpOutcome::Response { status_code: 503, final_url: "https://example.com".to_string(), headers: Vec::new() },
        30,
    )));
    d.next_step();
    d.record(quiet_system(None));
    let report = d.finish(90, None);
    assert_eq!(report.summary.failure_stage.as_deref(), Some("tls"));
    assert!(report
        .recommended_actions
        .manual_actions
        .iter()
        .any(|m| m.contains("503")));
}

#[test]
fn summary_priorities() {
    let s = summarize(Status::Pass, Status::Pass, Status::Skip, Status::Warn, Status::Pass, 7, None);
    assert_eq!(s.status, Status::Warn);
    assert_eq!(s.severity, Severity::Warn);
    assert!(s.failure_stage.is_none());
    let f = summarize(Status::Pass, Status::Pass, Status::Fail, Status::Fail, Status::Warn, 7, Some("1.1.1.1".to_string()));
    assert_eq!(f.failure_stage.as_deref(), Some("tls"));
    assert_eq!(f.status, Status::Fail);
    assert_eq!(f.resolved_ip.as_deref(), Some("1.1.1.1"));
    let p = summarize(Status::Pass, Status::Pass, Status::Pass, Status::Pass, Status::Skip, 0, None);
    assert_eq!(p.status, Status::Pass);
    assert_eq!(p.severity, Severity::Info);
}

#[test]
fn https_target_on_other_port_gets_handshake() {
    let mut d = Diagnosis::new("https://example.com:8443");
    d.next_step();
    d.record(PhaseResult::Dns(dns_module(DnsLookup::Resolved(vec!["1.2.3.4".to_string()]), 5)));
    match d.next_step() {
        Step::ConnectTcp { port, .. } => assert_eq!(port, 8443),
        other => panic!("unexpected step {:?}", other),
    }
    d.record(PhaseResult::Tcp(tcp_module("1.2.3.4", 8443, TcpOutcome::Connected, 10)));
    match d.next_step() {
        Step::HandshakeTls { port, .. } => assert_eq!(port, 8443),
        other => panic!("unexpected step {:?}", other),
    }
    assert!(d.tls.is_none());
}

#[test]
fn plain_http_on_port_443_skips_tls() {
    let mut d = Diagnosis::new("http://example.com:443");
    d.next_step();
    d.record(PhaseResult::Dns(dns_module(DnsLookup::Resolved(vec!["1.2.3.4".to_string()]), 5)));
    d.next_step();
    d.record(PhaseResult::Tcp(tcp_module("1.2.3.4", 443, TcpOutcome::Connected, 10)));
    assert!(matches!(d.next_step(), Step::FetchHttp { .. }));
    let tls = d.tls.clone().unwrap();
    assert_eq!(tls.status, Status::Skip);
    assert_eq!(tls.error.as_deref(), Some("Skipped: non-HTTPS port"));
}

