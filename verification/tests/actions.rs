use qfei_doctor::diagnostics::actions::{generate_actions, has_action};
use qfei_doctor::diagnostics::result::{
    CertInfo, DnsDetails, DnsModule, DnsRecord, HttpDetails, HttpModule, ProxyInfo, Severity,
    Status, SystemDetails, SystemModule, TcpDetails, TcpModule, TlsDetails, TlsModule,
};

fn ok_dns() -> DnsModule {
    DnsModule {
        status: Status::Pass,
        severity: Severity::Info,
        duration_ms: 10,
        error: None,
        details: DnsDetails {
            records: vec![DnsRecord {
                record_type: "A".into(),
                value: "93.184.216.34".into(),
                ttl: 300,
            }],
            resolved: true,
            resolved_ip: Some("93.184.216.34".into()),
            suspected_hijack: false,
            private_ip: false,
        },
    }
}

fn hijack_dns() -> DnsModule {
    DnsModule {
        status: Status::Warn,
        severity: Severity::Warn,
        duration_ms: 10,
        error: None,
        details: DnsDetails {
            records: vec![DnsRecord {
                record_type: "A".into(),
                value: "192.168.1.1".into(),
                ttl: 60,
            }],
            resolved: true,
            resolved_ip: Some("192.168.1.1".into()),
            suspected_hijack: true,
            private_ip: true,
        },
    }
}

fn ok_tcp() -> TcpModule {
    TcpModule {
        status: Status::Pass,
        severity: Severity::Info,
        duration_ms: 20,
        error: None,
        details: TcpDetails {
            connected: true,
            ip: Some("93.184.216.34".into()),
            port: 443,
        },
    }
}

fn fail_tcp() -> TcpModule {
    TcpModule {
        status: Status::Fail,
        severity: Severity::Fail,
        duration_ms: 10000,
        error: Some("TCP connection timed out (10s)".into()),
        details: TcpDetails {
            connected: false,
            ip: Some("93.184.216.34".into()),
            port: 443,
        },
    }
}

fn ok_tls() -> TlsModule {
    TlsModule {
        status: Status::Pass,
        severity: Severity::Info,
        duration_ms: 50,
        error: None,
        details: TlsDetails {
            handshake: true,
            version: Some("TLSv1_3".into()),
            cert: CertInfo {
                valid: true,
                expired: false,
                expiring_soon: false,
                days_remaining: Some(200),
                domain_mismatch: false,
                chain_incomplete: false,
                self_signed: false,
                issuer: Some("CN=R3, O=Let's Encrypt".into()),
                subject: Some("CN=example.com".into()),
                not_before: Some("2026-01-01".into()),
                not_after: Some("2026-10-01".into()),
            },
        },
    }
}

fn fail_tls_self_signed() -> TlsModule {
    TlsModule {
        status: Status::Fail,
        severity: Severity::Fail,
        duration_ms: 50,
        error: Some("TLS handshake failed".into()),
        details: TlsDetails {
            handshake: false,
            version: None,
            cert: CertInfo {
                valid: false,
                expired: false,
                expiring_soon: false,
                days_remaining: Some(100),
                domain_mismatch: false,
                chain_incomplete: true,
                self_signed: true,
                issuer: Some("CN=Corporate Proxy".into()),
                subject: Some("CN=Corporate Proxy".into()),
                not_before: Some("2026-01-01".into()),
                not_after: Some("2027-01-01".into()),
            },
        },
    }
}

fn ok_http() -> HttpModule {
    HttpModule {
        status: Status::Pass,
        severity: Severity::Info,
        duration_ms: 100,
        error: None,
        details: HttpDetails {
            status_code: Some(200),
            redirect_chain: vec![],
            headers: Vec::new(),
            empty_body: false,
            downgraded: false,
        },
    }
}

fn fail_http() -> HttpModule {
    HttpModule {
        status: Status::Fail,
        severity: Severity::Fail,
        duration_ms: 100,
        error: Some("HTTP request failed".into()),
        details: HttpDetails {
            status_code: None,
            redirect_chain: vec![],
            headers: Vec::new(),
            empty_body: true,
            downgraded: false,
        },
    }
}

fn ok_system() -> SystemModule {
    SystemModule {
        status: Status::Pass,
        severity: Severity::Info,
        duration_ms: 1,
        error: None,
        details: SystemDetails {
            proxy: ProxyInfo {
                enabled: false,
                proxy_type: None,
                address: None,
                pac_url: None,
                env_var: None,
                settings_uri: Some("ms-settings:network-proxy".into()),
            },
            clock_skewed: false,
            clock_offset_sec: None,
            hosts_override: false,
        },
    }
}

fn proxy_system() -> SystemModule {
    SystemModule {
        status: Status::Warn,
        severity: Severity::Warn,
        duration_ms: 1,
        error: None,
        details: SystemDetails {
            proxy: ProxyInfo {
                enabled: true,
                proxy_type: Some("system".into()),
                address: Some("10.0.0.1:8080".into()),
                pac_url: None,
                env_var: None,
                settings_uri: Some("ms-settings:network-proxy".into()),
            },
            clock_skewed: false,
            clock_offset_sec: None,
            hosts_override: false,
        },
    }
}

fn clock_skew_system() -> SystemModule {
    SystemModule {
        status: Status::Warn,
        severity: Severity::Warn,
        duration_ms: 1,
        error: Some("系统时钟偏差 3600 秒".into()),
        details: SystemDetails {
            proxy: ProxyInfo {
                enabled: false,
                proxy_type: None,
                address: None,
                pac_url: None,
                env_var: None,
                settings_uri: Some("ms-settings:network-proxy".into()),
            },
            clock_skewed: true,
            clock_offset_sec: Some(3600),
            hosts_override: false,
        },
    }
}

#[test]
fn test_actions_all_pass() {
    let actions = generate_actions(&ok_dns(), &ok_tcp(), &ok_tls(), &ok_http(), &ok_system());
    assert!(actions.manual_actions.is_empty());
    assert!(actions.quick_actions.is_empty());
}

#[test]
fn test_actions_combo_proxy_tls_mitm() {
    let actions = generate_actions(
        &ok_dns(),
        &ok_tcp(),
        &fail_tls_self_signed(),
        &ok_http(),
        &proxy_system(),
    );
    assert!(actions
        .manual_actions
        .iter()
        .any(|a| a.contains("企业代理拦截")));
    assert!(actions.quick_actions.iter().any(|a| a.id == "open_proxy"));
}

#[test]
fn test_actions_combo_dns_hijack() {
    let actions = generate_actions(
        &hijack_dns(),
        &ok_tcp(),
        &ok_tls(),
        &fail_http(),
        &ok_system(),
    );
    assert!(actions
        .manual_actions
        .iter()
        .any(|a| a.contains("DNS 被劫持")));
}

#[test]
fn test_actions_combo_clock_skew_tls() {
    let fail_tls = TlsModule {
        status: Status::Fail,
        severity: Severity::Fail,
        duration_ms: 50,
        error: Some("TLS handshake failed".into()),
        details: TlsDetails {
            handshake: false,
            version: None,
            cert: CertInfo::empty(),
        },
    };
    let actions = generate_actions(
        &ok_dns(),
        &ok_tcp(),
        &fail_tls,
        &ok_http(),
        &clock_skew_system(),
    );
    assert!(actions
        .manual_actions
        .iter()
        .any(|a| a.contains("时钟偏差")));
    assert!(actions
        .quick_actions
        .iter()
        .any(|a| a.id == "open_datetime"));
}

#[test]
fn test_actions_tcp_fail() {
    let actions = generate_actions(&ok_dns(), &fail_tcp(), &ok_tls(), &ok_http(), &ok_system());
    assert!(actions
        .manual_actions
        .iter()
        .any(|a| a.contains("端口不可达")));
    assert!(actions.quick_actions.iter().any(|a| a.id == "open_network"));
}

#[test]
fn test_actions_combo_tcp_ok_http_5xx() {
    let http_5xx = HttpModule {
        status: Status::Fail,
        severity: Severity::Fail,
        duration_ms: 100,
        error: None,
        details: HttpDetails {
            status_code: Some(502),
            redirect_chain: vec![],
            headers: Vec::new(),
            empty_body: false,
            downgraded: false,
        },
    };
    let actions = generate_actions(&ok_dns(), &ok_tcp(), &ok_tls(), &http_5xx, &ok_system());
    assert!(actions
        .manual_actions
        .iter()
        .any(|a| a.contains("站点服务端")));
}

#[test]
fn test_actions_hosts_override() {
    let mut sys = ok_system();
    sys.details.hosts_override = true;
    sys.status = Status::Warn;
    sys.severity = Severity::Warn;
    let actions = generate_actions(&ok_dns(), &ok_tcp(), &ok_tls(), &ok_http(), &sys);
    assert!(actions.manual_actions.iter().any(|a| a.contains("hosts")));
    assert!(actions.quick_actions.iter().any(|a| a.id == "open_hosts"));
}

#[test]
fn test_actions_quick_actions_deduplicated() {
    let actions = generate_actions(
        &ok_dns(),
        &ok_tcp(),
        &fail_tls_self_signed(),
        &ok_http(),
        &proxy_system(),
    );
    let proxy_count = actions
        .quick_actions
        .iter()
        .filter(|a| a.id == "open_proxy")
        .count();
    assert_eq!(proxy_count, 1);
}

#[test]
fn server_error_message_names_the_code() {
    let mut http = ok_http();
    http.status = Status::Fail;
    http.severity = Severity::Fail;
    http.details.status_code = Some(503);
    let actions = generate_actions(&ok_dns(), &ok_tcp(), &ok_tls(), &http, &ok_system());
    assert_eq!(
        actions.manual_actions,
        vec!["TCP 连接正常但 HTTP 返回 503，问题在站点服务端而非客户网络。建议联系站点运维".to_string()]
    );
    assert!(actions.quick_actions.is_empty());
}

#[test]
fn clock_skew_message_uses_absolute_offset() {
    let mut sys = clock_skew_system();
    sys.details.clock_offset_sec = Some(-3600);
    let fail_tls = TlsModule {
        status: Status::Fail,
        severity: Severity::Fail,
        duration_ms: 50,
        error: Some("TLS handshake failed".into()),
        details: TlsDetails { handshake: false, version: None, cert: CertInfo::empty() },
    };
    let actions = generate_actions(&ok_dns(), &ok_tcp(), &fail_tls, &ok_http(), &sys);
    assert_eq!(actions.manual_actions.len(), 1);
    assert_eq!(
        actions.manual_actions[0],
        "系统时钟偏差约 3600 秒，这会导致 TLS 证书验证失败。请校准系统时间后重试"
    );
    assert_eq!(actions.quick_actions.len(), 1);
    assert_eq!(actions.quick_actions[0].id, "open_datetime");
    assert_eq!(actions.quick_actions[0].target, "ms-settings:dateandtime");
}

#[test]
fn hijack_suppresses_separate_dns_warning() {
    let actions = generate_actions(&hijack_dns(), &ok_tcp(), &ok_tls(), &fail_http(), &ok_system());
    assert_eq!(actions.manual_actions.len(), 1);
    let ids: Vec<&str> = actions.quick_actions.iter().map(|a| a.id.as_str()).collect();
    assert_eq!(ids, vec!["flush_dns", "open_hosts"]);
}

#[test]
fn quick_actions_are_open_uri_with_text() {
    let actions = generate_actions(
        &hijack_dns(),
        &fail_tcp(),
        &fail_tls_self_signed(),
        &fail_http(),
        &proxy_system(),
    );
    assert!(!actions.manual_actions.is_empty());
    for a in &actions.manual_actions {
        assert!(!a.is_empty());
    }
    for q in &actions.quick_actions {
        assert_eq!(q.kind, "open_uri");
        assert!(!q.id.is_empty());
        assert!(!q.label.is_empty());
        assert!(!q.target.is_empty());
    }
    let mut ids: Vec<&str> = actions.quick_actions.iter().map(|a| a.id.as_str()).collect();
    let n = ids.len();
    ids.sort();
    ids.dedup();
    assert_eq!(ids.len(), n);
}

#[test]
fn has_action_finds_keyword() {
    let actions = vec!["请检查 hosts 文件".to_string(), "other".to_string()];
    assert!(has_action(&actions, "hosts"));
    assert!(!has_action(&actions, "proxy"));
    assert!(!has_action(&[], "hosts"));
}
