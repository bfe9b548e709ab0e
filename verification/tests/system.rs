use qfei_doctor::diagnostics::result::Status;
use qfei_doctor::diagnostics::system::{
    check_clock_skew, check_hosts_override, clock_skew_at, detect_proxy, diagnose,
    http_date_in_range, parse_http_date, proxy_from_env, proxy_from_registry,
    proxy_settings_uri, system_module, Platform, ProxyEnv, RegistryProxySettings,
};

fn no_proxy_env() -> ProxyEnv {
    ProxyEnv { https_proxy: None, https_proxy_upper: None, http_proxy: None, http_proxy_upper: None }
}

#[test]
fn test_system_diagnose() {
    let proxy = detect_proxy(Platform::Other, None, no_proxy_env());
    let result = diagnose(None, proxy, None, 0);
    assert!(result.status == Status::Pass || result.status == Status::Warn);
}

#[test]
fn test_detect_proxy_env_no_proxy() {
    let proxy = detect_proxy(Platform::Other, None, no_proxy_env());
    assert!(!proxy.enabled || proxy.proxy_type.is_some());
}

#[test]
fn test_parse_http_date() {
    let ts = parse_http_date("Thu, 03 Apr 2026 00:30:00 GMT");
    assert!(ts.is_some());
    let ts = ts.unwrap();
    assert!(ts > 1_700_000_000);
}

#[test]
fn test_parse_http_date_invalid() {
    assert!(parse_http_date("not a date").is_none());
    assert!(parse_http_date("").is_none());
}

#[test]
fn test_clock_skew_no_header() {
    let (skewed, offset) = check_clock_skew(None);
    assert!(!skewed);
    assert!(offset.is_none());
}

#[test]
fn test_clock_skew_within_threshold() {
    let (skewed, offset) = check_clock_skew(Some("Thu, 01 Jan 1970 00:00:00 GMT"));
    assert!(skewed);
    assert!(offset.is_some());
}

#[test]
fn http_date_exact_values() {
    assert_eq!(parse_http_date("Thu, 03 Apr 2026 00:30:00 GMT"), Some(1775176200));
    assert_eq!(parse_http_date("Tue, 29 Feb 2000 23:59:59 GMT"), Some(951868799));
    assert_eq!(parse_http_date("Thu, 01 Jan 1970 00:00:00 GMT"), Some(0));
    assert_eq!(parse_http_date("Thu, 01 Foo 2026 00:30:00 GMT"), None);
    assert_eq!(parse_http_date("Thu, 03 Apr 2026 00:30 GMT"), None);
    assert!(http_date_in_range("Thu, 03 Apr 2026 00:30:00 GMT"));
    assert!(http_date_in_range("not a date"));
}

#[test]
fn clock_skew_against_fixed_now() {
    let date = Some("Thu, 03 Apr 2026 00:30:00 GMT");
    assert_eq!(clock_skew_at(date, 1775176200 + 120), (false, Some(120)));
    assert_eq!(clock_skew_at(date, 1775176200 + 121), (true, Some(121)));
    assert_eq!(clock_skew_at(date, 1775176200 - 3600), (true, Some(-3600)));
    assert_eq!(clock_skew_at(Some("garbage"), 5), (false, None));
    assert_eq!(clock_skew_at(None, 5), (false, None));
}

#[test]
fn hosts_override_detection() {
    assert!(!check_hosts_override(None));
    assert!(!check_hosts_override(Some("# comment\n127.0.0.1 localhost\n\n  \n255.255.255.255 broadcasthost\n")));
    assert!(check_hosts_override(Some("127.0.0.1 localhost\n10.0.0.5 intranet.example\n")));
    assert!(check_hosts_override(Some("  1.2.3.4 a.b  ")));
    assert!(!check_hosts_override(Some("")));
}

#[test]
fn proxy_from_environment() {
    let env = ProxyEnv {
        https_proxy: None,
        https_proxy_upper: Some("http://10.0.0.1:3128".to_string()),
        http_proxy: Some("http://other:1".to_string()),
        http_proxy_upper: None,
    };
    let p = proxy_from_env(env, None);
    assert!(p.enabled);
    assert_eq!(p.proxy_type.as_deref(), Some("env"));
    assert_eq!(p.address.as_deref(), Some("http://10.0.0.1:3128"));
    let none = proxy_from_env(no_proxy_env(), proxy_settings_uri(Platform::MacOs));
    assert!(!none.enabled);
    assert!(none.proxy_type.is_none());
    assert_eq!(
        none.settings_uri.as_deref(),
        Some("x-apple.systempreferences:com.apple.Network-Settings.extension")
    );
}

#[test]
fn proxy_from_windows_registry() {
    let uri = proxy_settings_uri(Platform::Windows);
    assert_eq!(uri.as_deref(), Some("ms-settings:network-proxy"));
    let pac = proxy_from_registry(
        Some(RegistryProxySettings {
            proxy_enable: Some(0),
            proxy_server: None,
            auto_config_url: Some("http://wpad/proxy.pac".to_string()),
        }),
        uri.clone(),
    );
    assert!(pac.enabled);
    assert_eq!(pac.proxy_type.as_deref(), Some("pac"));
    assert_eq!(pac.pac_url.as_deref(), Some("http://wpad/proxy.pac"));
    let manual = proxy_from_registry(
        Some(RegistryProxySettings {
            proxy_enable: Some(1),
            proxy_server: Some("10.0.0.1:8080".to_string()),
            auto_config_url: None,
        }),
        uri.clone(),
    );
    assert!(manual.enabled);
    assert_eq!(manual.proxy_type.as_deref(), Some("system"));
    assert_eq!(manual.address.as_deref(), Some("10.0.0.1:8080"));
    let off = proxy_from_registry(
        Some(RegistryProxySettings { proxy_enable: Some(0), proxy_server: None, auto_config_url: None }),
        uri.clone(),
    );
    assert!(!off.enabled && off.proxy_type.is_none() && off.address.is_none());
    let unreadable = detect_proxy(Platform::Windows, None, no_proxy_env());
    assert!(!unreadable.enabled);
    assert_eq!(unreadable.settings_uri.as_deref(), Some("ms-settings:network-proxy"));
}

#[test]
fn system_module_warns_and_reports_skew() {
    let proxy = detect_proxy(Platform::Other, None, no_proxy_env());
    let calm = system_module(proxy.clone(), false, false, None, 3);
    assert_eq!(calm.status, Status::Pass);
    assert!(calm.error.is_none());
    let skewed = system_module(proxy, false, true, Some(-3600), 3);
    assert_eq!(skewed.status, Status::Warn);
    assert_eq!(
        skewed.error.as_deref(),
        Some("系统时钟偏差 -3600 秒，可能导致 TLS 证书验证失败")
    );
    assert_eq!(skewed.details.clock_offset_sec, Some(-3600));
}
