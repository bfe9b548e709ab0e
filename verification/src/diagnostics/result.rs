//! The diagnostic report: one block per layer, a summary and recommended actions.
use vstd::prelude::*;

verus! {

/// Top-level diagnostic report.
#[derive(Debug, Clone)]
pub struct DiagnosticReport {
    pub version: String,
    pub generated_at: String,
    pub target: Target,
    pub summary: Summary,
    pub dns: DnsModule,
    pub tcp: TcpModule,
    pub tls: TlsModule,
    pub http: HttpModule,
    pub system: SystemModule,
    pub recommended_actions: RecommendedActions,
    pub ipinfo: Option<IpInfo>,
}

/// The target as entered and as normalized.
#[derive(Debug, Clone)]
pub struct Target {
    pub input: String,
    /// `url` or `domain`.
    pub kind: String,
    pub normalized_url: String,
    pub domain: String,
    pub port: u16,
}

#[derive(Debug, Clone)]
pub struct Summary {
    pub status: Status,
    pub severity: Severity,
    pub total_duration_ms: u64,
    pub failure_stage: Option<String>,
    pub resolved_ip: Option<String>,
}

#[derive(Debug, Clone)]
pub struct DnsModule {
    pub status: Status,
    pub severity: Severity,
    pub duration_ms: u64,
    pub error: Option<String>,
    pub details: DnsDetails,
}

#[derive(Debug, Clone)]
pub struct DnsDetails {
    pub records: Vec<DnsRecord>,
    pub resolved: bool,
    pub resolved_ip: Option<String>,
    pub suspected_hijack: bool,
    pub private_ip: bool,
}

#[derive(Debug, Clone)]
pub struct DnsRecord {
    /// `A` or `AAAA`.
    pub record_type: String,
    pub value: String,
    pub ttl: u32,
}

#[derive(Debug, Clone)]
pub struct TcpModule {
    pub status: Status,
    pub severity: Severity,
    pub duration_ms: u64,
    pub error: Option<String>,
    pub details: TcpDetails,
}

#[derive(Debug, Clone)]
pub struct TcpDetails {
    pub connected: bool,
    pub ip: Option<String>,
    pub port: u16,
}

#[derive(Debug, Clone)]
pub struct TlsModule {
    pub status: Status,
    pub severity: Severity,
    pub duration_ms: u64,
    pub error: Option<String>,
    pub details: TlsDetails,
}

#[derive(Debug, Clone)]
pub struct TlsDetails {
    pub handshake: bool,
    pub version: Option<String>,
    pub cert: CertInfo,
}

#[derive(Debug, Clone)]
pub struct CertInfo {
    pub valid: bool,
    pub expired: bool,
    pub expiring_soon: bool,
    pub days_remaining: Option<i64>,
    pub domain_mismatch: bool,
    pub chain_incomplete: bool,
    pub self_signed: bool,
    pub issuer: Option<String>,
    pub subject: Option<String>,
    pub not_before: Option<String>,
    pub not_after: Option<String>,
}

impl CertInfo {
    /// The certificate facts of a connection that presented no readable certificate.
    pub open spec fn is_empty_cert(&self) -> bool {
        &&& !self.valid
        &&& !self.expired
        &&& !self.expiring_soon
        &&& self.days_remaining is None
        &&& !self.domain_mismatch
        &&& !self.chain_incomplete
        &&& !self.self_signed
        &&& self.issuer is None
        &&& self.subject is None
        &&& self.not_before is None
        &&& self.not_after is None
    }

    pub fn empty() -> (r: Self)
        ensures
            r.is_empty_cert(),
    {
        Self {
            valid: false,
            expired: false,
            expiring_soon: false,
            days_remaining: None,
            domain_mismatch: false,
            chain_incomplete: false,
            self_signed: false,
            issuer: None,
            subject: None,
            not_before: None,
            not_after: None,
        }
    }
}

#[derive(Debug, Clone)]
pub struct HttpModule {
    pub status: Status,
    pub severity: Severity,
    pub duration_ms: u64,
    pub error: Option<String>,
    pub details: HttpDetails,
}

#[derive(Debug, Clone)]
pub struct HttpDetails {
    pub status_code: Option<u16>,
    pub redirect_chain: Vec<String>,
    /// Response headers by lower-case name; each name occurs once.
    pub headers: Vec<(String, String)>,
    pub empty_body: bool,
    pub downgraded: bool,
}

#[derive(Debug, Clone)]
pub struct SystemModule {
    pub status: Status,
    pub severity: Severity,
    pub duration_ms: u64,
    pub error: Option<String>,
    pub details: SystemDetails,
}

#[derive(Debug, Clone)]
pub struct SystemDetails {
    pub proxy: ProxyInfo,
    pub clock_skewed: bool,
    pub clock_offset_sec: Option<i64>,
    pub hosts_override: bool,
}

#[derive(Debug, Clone)]
pub struct ProxyInfo {
    pub enabled: bool,
    /// `pac`, `system` or `env`.
    pub proxy_type: Option<String>,
    pub address: Option<String>,
    pub pac_url: Option<String>,
    pub env_var: Option<String>,
    pub settings_uri: Option<String>,
}

#[derive(Debug, Clone)]
pub struct RecommendedActions {
    pub manual_actions: Vec<String>,
    pub quick_actions: Vec<QuickAction>,
}

#[derive(Debug, Clone)]
pub struct QuickAction {
    pub id: String,
    pub label: String,
    /// Always `open_uri`.
    pub kind: String,
    pub target: String,
}

/// The text of a quick action.
pub struct QuickActionView {
    pub id: Seq<char>,
    pub label: Seq<char>,
    pub kind: Seq<char>,
    pub target: Seq<char>,
}

impl View for QuickAction {
    type V = QuickActionView;

    open spec fn view(&self) -> QuickActionView {
        QuickActionView { id: self.id@, label: self.label@, kind: self.kind@, target: self.target@ }
    }
}

#[derive(Debug, Clone)]
pub struct IpInfo {
    pub ip: String,
    pub city: String,
    pub region: String,
    pub country: String,
    pub loc: String,
    pub org: String,
    pub postal: String,
    pub timezone: String,
}

/// The text of an optional string.
pub open spec fn opt_text(o: Option<String>) -> Option<Seq<char>> {
    match o {
        Some(s) => Some(s@),
        None => None,
    }
}

/// Outcome of a phase.
#[derive(Debug, Clone, Copy, PartialEq, Eq, Structural)]
pub enum Status {
    Pass,
    Warn,
    Fail,
    Skip,
}

#[derive(Debug, Clone, Copy, PartialEq, Eq, Structural)]
pub enum Severity {
    Info,
    Warn,
    Fail,
}

/// The severity that goes with a phase status: fail for a failure, warn for a warning,
/// info otherwise.
pub open spec fn severity_of(status: Status) -> Severity {
    match status {
        Status::Fail => Severity::Fail,
        Status::Warn => Severity::Warn,
        _ => Severity::Info,
    }
}

pub fn severity_for(status: Status) -> (r: Severity)
    ensures
        r == severity_of(status),
{
    match status {
        Status::Fail => Severity::Fail,
        Status::Warn => Severity::Warn,
        _ => Severity::Info,
    }
}

} // verus!
