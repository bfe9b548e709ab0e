use qfei_doctor::diagnostics::dns::{dns_module, is_private_ip, DnsLookup};
use qfei_doctor::diagnostics::http::{collect_headers, header_value, http_module, HttpOutcome};
use qfei_doctor::diagnostics::ipinfo::{ipinfo_from_json, ipinfo_from_members};
use qfei_doctor::diagnostics::result::{Severity, Status};
use qfei_doctor::diagnostics::tcp::{socket_address, tcp_module, TcpOutcome};
use qfei_doctor::diagnostics::tls::{cert_info_from, extract_cert_info, server_name_outcome, tls_module, TlsOutcome};

/// A self-signed Ed25519 certificate for `www.example.com`, valid from 2021 to 2023.
const SELF_SIGNED_DER: [u8; 268] = [
    0x30, 0x82, 0x01, 0x08, 0x30, 0x81, 0xbb, 0x02, 0x14, 0x77, 0xe5, 0xf4, 0xc0, 0x34, 0x88, 0xa1,
    0x22, 0x6c, 0xf5, 0xcd, 0x45, 0xf3, 0xcd, 0xf0, 0x49, 0x91, 0xf8, 0x15, 0x43, 0x30, 0x05, 0x06,
    0x03, 0x2b, 0x65, 0x70, 0x30, 0x27, 0x31, 0x0b, 0x30, 0x09, 0x06, 0x03, 0x55, 0x04, 0x06, 0x13,
    0x02, 0x44, 0x45, 0x31, 0x18, 0x30, 0x16, 0x06, 0x03, 0x55, 0x04, 0x03, 0x0c, 0x0f, 0x77, 0x77,
    0x77, 0x2e, 0x65, 0x78, 0x61, 0x6d, 0x70, 0x6c, 0x65, 0x2e, 0x63, 0x6f, 0x6d, 0x30, 0x1e, 0x17,
    0x0d, 0x32, 0x31, 0x30, 0x37, 0x32, 0x37, 0x31, 0x32, 0x33, 0x37, 0x31, 0x34, 0x5a, 0x17, 0x0d,
    0x32, 0x33, 0x30, 0x36, 0x32, 0x37, 0x31, 0x32, 0x33, 0x37, 0x31, 0x34, 0x5a, 0x30, 0x27, 0x31,
    0x0b, 0x30, 0x09, 0x06, 0x03, 0x55, 0x04, 0x06, 0x13, 0x02, 0x44, 0x45, 0x31, 0x18, 0x30, 0x16,
    0x06, 0x03, 0x55, 0x04, 0x03, 0x0c, 0x0f, 0x77, 0x77, 0x77, 0x2e, 0x65, 0x78, 0x61, 0x6d, 0x70,
    0x6c, 0x65, 0x2e, 0x63, 0x6f, 0x6d, 0x30, 0x2a, 0x30, 0x05, 0x06, 0x03, 0x2b, 0x65, 0x70, 0x03,
    0x21, 0x00, 0x3e, 0xa4, 0x05, 0xd2, 0xef, 0x19, 0xf5, 0xe0, 0xab, 0xf3, 0x3e, 0x4d, 0xf5, 0x4e,
    0xe5, 0x1d, 0x05, 0x44, 0x79, 0x3d, 0x98, 0xe2, 0x67, 0x25, 0x37, 0xf4, 0xff, 0xca, 0xf8, 0x60,
    0x98, 0x4c, 0x30, 0x05, 0x06, 0x03, 0x2b, 0x65, 0x70, 0x03, 0x41, 0x00, 0x20, 0xdb, 0x7a, 0xe6,
    0xfa, 0xc2, 0x88, 0xe9, 0x59, 0xf4, 0x6a, 0xca, 0xb2, 0xd7, 0x2c, 0x48, 0x0d, 0x55, 0xbc, 0x0f,
    0x27, 0x57, 0x32, 0x52, 0x68, 0x3f, 0xe8, 0x01, 0xaa, 0x9e, 0x83, 0xd2, 0x23, 0xc3, 0xb4, 0x8c,
    0x17, 0x93, 0x70, 0x6b, 0xde, 0x0d, 0xc4, 0xaa, 0x36, 0x71, 0xc8, 0x83, 0x83, 0xb1, 0xe4, 0x1a,
    0x6e, 0x52, 0x8b, 0xd6, 0xbc, 0x02, 0xa6, 0x26, 0xea, 0x8d, 0xd5, 0x02
];

#[test]
fn test_is_private_ip() {
    assert!(is_private_ip("192.168.1.1"));
    assert!(is_private_ip("10.0.0.1"));
    assert!(is_private_ip("127.0.0.1"));
    assert!(!is_private_ip("8.8.8.8"));
    assert!(!is_private_ip("104.18.22.45"));
}

#[test]
fn private_ip_prefixes() {
    assert!(is_private_ip("172.16.0.1"));
    assert!(is_private_ip("172.19.3.4"));
    assert!(is_private_ip("172.25.0.1"));
    assert!(is_private_ip("172.31.255.255"));
    assert!(!is_private_ip("172.15.0.1"));
    assert!(!is_private_ip("172.32.0.1"));
    assert!(!is_private_ip("172.2.0.1"));
    assert!(!is_private_ip("172.3.4.5"));
    assert!(!is_private_ip("172.200.0.1"));
    assert!(!is_private_ip("192.169.0.1"));
    assert!(!is_private_ip("11.0.0.1"));
    assert!(!is_private_ip(""));
    assert!(!is_private_ip("10.0.0"));
    assert!(!is_private_ip("10.0.0.256"));
    assert!(!is_private_ip("10.a.0.1"));
    assert!(!is_private_ip("fd00::1"));
}

#[test]
fn dns_module_resolved_records() {
    let m = dns_module(
        DnsLookup::Resolved(vec!["192.168.1.7".to_string(), "2001:db8::1".to_string()]),
        12,
    );
    assert_eq!(m.status, Status::Pass);
    assert_eq!(m.severity, Severity::Info);
    assert_eq!(m.duration_ms, 12);
    assert!(m.error.is_none());
    assert!(m.details.resolved);
    assert_eq!(m.details.resolved_ip.as_deref(), Some("192.168.1.7"));
    assert!(m.details.private_ip);
    assert!(!m.details.suspected_hijack);
    assert_eq!(m.details.records.len(), 2);
    assert_eq!(m.details.records[0].record_type, "A");
    assert_eq!(m.details.records[1].record_type, "AAAA");
    assert_eq!(m.details.records[1].value, "2001:db8::1");
    assert_eq!(m.details.records[0].ttl, 0);
}

#[test]
fn dns_module_errors() {
    let none = dns_module(DnsLookup::Resolved(Vec::new()), 3);
    assert_eq!(none.status, Status::Fail);
    assert_eq!(none.error.as_deref(), Some("No DNS records found"));
    assert!(none.details.resolved_ip.is_none());
    let failed = dns_module(DnsLookup::Failed("no record".to_string()), 4);
    assert_eq!(failed.error.as_deref(), Some("DNS resolution failed: no record"));
    assert_eq!(failed.severity, Severity::Fail);
    let unavailable = dns_module(DnsLookup::ResolverUnavailable("no config".to_string()), 5);
    assert_eq!(
        unavailable.error.as_deref(),
        Some("Failed to create DNS resolver: no config")
    );
    assert!(!unavailable.details.resolved);
}

#[test]
fn tcp_module_outcomes() {
    assert_eq!(socket_address("1.2.3.4", 8080), "1.2.3.4:8080");
    let ok = tcp_module("1.2.3.4", 443, TcpOutcome::Connected, 7);
    assert_eq!(ok.status, Status::Pass);
    assert!(ok.details.connected);
    assert!(ok.error.is_none());
    assert_eq!(ok.details.ip.as_deref(), Some("1.2.3.4"));
    let timeout = tcp_module("1.2.3.4", 443, TcpOutcome::TimedOut, 10000);
    assert_eq!(timeout.error.as_deref(), Some("TCP connection timed out (10s)"));
    assert_eq!(timeout.status, Status::Fail);
    let refused = tcp_module("1.2.3.4", 80, TcpOutcome::Failed("refused".to_string()), 1);
    assert_eq!(refused.error.as_deref(), Some("TCP connection failed: refused"));
    assert_eq!(refused.details.port, 80);
    let bad = tcp_module("x", 80, TcpOutcome::InvalidAddress("bad".to_string()), 1);
    assert_eq!(bad.error.as_deref(), Some("Invalid address x:80: bad"));
    let unresolved = tcp_module("x", 81, TcpOutcome::Unresolved, 1);
    assert_eq!(unresolved.error.as_deref(), Some("Could not resolve address: x:81"));
}

#[test]
fn tls_failures() {
    let m = tls_module("example.com", TlsOutcome::HandshakeFailed("alert".to_string()), 9);
    assert_eq!(m.status, Status::Fail);
    assert_eq!(m.error.as_deref(), Some("TLS handshake failed: alert"));
    assert!(!m.details.handshake);
    assert!(!m.details.cert.valid);
    let c = tls_module("example.com", TlsOutcome::ConnectFailed("reset".to_string()), 9);
    assert_eq!(c.error.as_deref(), Some("TCP connect for TLS failed: reset"));
}

#[test]
fn server_name_checks() {
    assert!(server_name_outcome("example.com").is_none());
    match server_name_outcome("not a host name!") {
        Some(TlsOutcome::InvalidServerName(e)) => {
            let m = tls_module("not a host name!", TlsOutcome::InvalidServerName(e), 0);
            assert_eq!(m.error.as_deref(), Some("Invalid server name: invalid dns name"));
        }
        _ => panic!("expected an invalid server name"),
    }
}

#[test]
fn cert_info_without_chain_is_empty() {
    let c = extract_cert_info("example.com", None);
    assert!(!c.valid && c.issuer.is_none() && c.days_remaining.is_none());
    let empty: Vec<Vec<u8>> = Vec::new();
    let c = extract_cert_info("example.com", Some(&empty));
    assert!(c.subject.is_none());
    let junk = vec![vec![1u8, 2, 3]];
    let c = extract_cert_info("example.com", Some(&junk));
    assert!(c.not_after.is_none());
    assert!(!c.self_signed);
}

#[test]
fn cert_info_of_expired_self_signed_leaf() {
    let chain = vec![SELF_SIGNED_DER.to_vec()];
    let c = extract_cert_info("www.example.com", Some(&chain));
    assert!(c.expired);
    assert!(!c.valid);
    assert_eq!(c.days_remaining, Some(0));
    assert!(!c.expiring_soon);
    assert!(!c.domain_mismatch);
    assert!(c.self_signed);
    assert!(c.chain_incomplete);
    let unexpired = cert_info_from("www.example.com", &SELF_SIGNED_DER, 2, 1_650_000_000).unwrap();
    assert!(!unexpired.expired);
    assert!(unexpired.valid);
    assert!(!unexpired.chain_incomplete);
    assert!(unexpired.days_remaining.unwrap() > 400);
    let lone = cert_info_from("www.example.com", &SELF_SIGNED_DER, 1, 1_650_000_000).unwrap();
    assert!(lone.chain_incomplete);
    assert!(!lone.valid);
    assert!(cert_info_from("www.example.com", &[1u8, 2, 3], 1, 0).is_none());
    assert_eq!(c.issuer.as_deref(), Some("C=DE, CN=www.example.com"));
    assert_eq!(c.subject, c.issuer);
    assert!(c.not_before.is_some() && c.not_after.is_some());
    let other = extract_cert_info("other.org", Some(&chain));
    assert!(other.domain_mismatch);
    let m = tls_module(
        "www.example.com",
        TlsOutcome::Established { version: Some("TLSv1_3".to_string()), peer_certs: Some(chain) },
        30,
    );
    assert_eq!(m.status, Status::Fail);
    assert!(m.details.handshake);
    assert!(m.error.is_none());
}

#[test]
fn http_response_module() {
    let raw = vec![
        ("Date".to_string(), "Thu, 03 Apr 2026 00:30:00 GMT".to_string()),
        ("content-length".to_string(), "0".to_string()),
        ("x".to_string(), "1".to_string()),
        ("x".to_string(), "2".to_string()),
    ];
    let headers = collect_headers(&raw);
    assert_eq!(headers.len(), 3);
    assert_eq!(header_value(&headers, "x").as_deref(), Some("2"));
    assert_eq!(header_value(&headers, "missing"), None);
    let m = http_module(
        "https://example.com",
        HttpOutcome::Response {
            status_code: 404,
            final_url: "http://example.com/".to_string(),
            headers: raw,
        },
        40,
    );
    assert_eq!(m.status, Status::Warn);
    assert_eq!(m.severity, Severity::Warn);
    assert_eq!(m.details.status_code, Some(404));
    assert!(m.details.empty_body);
    assert!(m.details.downgraded);
    assert_eq!(m.details.redirect_chain, vec!["http://example.com/".to_string()]);
}

#[test]
fn http_status_classes_and_errors() {
    let ok = http_module(
        "https://a.b",
        HttpOutcome::Response { status_code: 301, final_url: "https://a.b".to_string(), headers: Vec::new() },
        1,
    );
    assert_eq!(ok.status, Status::Pass);
    assert!(ok.details.redirect_chain.is_empty());
    assert!(!ok.details.empty_body);
    let bad = http_module(
        "https://a.b",
        HttpOutcome::Response { status_code: 502, final_url: "https://a.b".to_string(), headers: Vec::new() },
        1,
    );
    assert_eq!(bad.status, Status::Fail);
    let t = http_module(
        "https://a.b",
        HttpOutcome::Failed { timed_out: true, connect: false, message: "x".to_string() },
        1,
    );
    assert_eq!(t.error.as_deref(), Some("HTTP request timed out"));
    let c = http_module(
        "https://a.b",
        HttpOutcome::Failed { timed_out: false, connect: true, message: "refused".to_string() },
        1,
    );
    assert_eq!(c.error.as_deref(), Some("HTTP connection error: refused"));
    let o = http_module(
        "https://a.b",
        HttpOutcome::Failed { timed_out: false, connect: false, message: "body".to_string() },
        1,
    );
    assert_eq!(o.error.as_deref(), Some("HTTP request failed: body"));
    let u = http_module("https://a.b", HttpOutcome::ClientUnavailable("tls".to_string()), 1);
    assert_eq!(u.error.as_deref(), Some("Failed to create HTTP client: tls"));
    assert!(u.details.headers.is_empty());
}

#[test]
fn ipinfo_reads_string_members() {
    let body = br#"{"ip":"1.2.3.4","city":"Berlin","country":"DE","loc":"52.5,13.4","postal":5}"#;
    let info = ipinfo_from_json(body).unwrap();
    assert_eq!(info.ip, "1.2.3.4");
    assert_eq!(info.city, "Berlin");
    assert_eq!(info.region, "");
    assert_eq!(info.country, "DE");
    assert_eq!(info.loc, "52.5,13.4");
    assert_eq!(info.postal, "");
    assert_eq!(info.timezone, "");
    assert!(ipinfo_from_json(b"not json").is_none());
}

#[test]
fn ipinfo_from_looked_up_members() {
    let members = vec![
        Some("9.9.9.9".to_string()),
        None,
        Some("Zurich".to_string()),
        Some("CH".to_string()),
    ];
    let info = ipinfo_from_members(Some(members)).unwrap();
    assert_eq!(info.ip, "9.9.9.9");
    assert_eq!(info.city, "");
    assert_eq!(info.region, "Zurich");
    assert_eq!(info.country, "CH");
    assert_eq!(info.timezone, "");
    assert!(ipinfo_from_members(None).is_none());
}
