pub mod actions;
pub mod calendar;
pub mod dns;
pub mod http;
pub mod ipinfo;
pub mod result;
pub mod system;
pub mod tcp;
pub mod tls;
pub mod text;

use vstd::prelude::*;
use result::{
    ProxyInfo, opt_text, severity_of, CertInfo, DiagnosticReport, DnsModule, HttpDetails, HttpModule, IpInfo,
    Severity, Status, Summary, SystemModule, Target, TcpDetails, TcpModule, TlsDetails, TlsModule,
};
use text::{owned, starts_with, trim, trim_str};
use actions::{lemma_quick_actions_schema, well_formed_action, combo_messages, mentions, KEYWORD_DNS_HIJACK, MSG_TCP_FAIL, msg_if, dns_messages, tls_messages, http_messages, system_messages, proxy_intercepts, hijack_confirmed, server_error, clock_breaks_tls, dedup_by_id, generate_actions, manual_actions_for, quick_actions_requested, texts, action_views};
use calendar::{iso8601_now, iso8601_text, seconds_or_zero_spec};
use http::{distinct_names, header_map, header_texts, header_value, http_module_spec, HttpOutcome};
use dns::{dns_module_spec, DnsLookup};
use tcp::{tcp_module_spec, TcpOutcome};
use tls::{tls_module_spec, TlsOutcome};
use system::{clock_skew_reading, system_module_spec};

verus! {

/// What `url::Url::parse` makes of the text: `None` where it is no URL, else the host
/// (`Url::host_str`) and the port, explicit or the scheme's default (`Url::port_or_known_default`).
pub uninterp spec fn url_host_port(input: Seq<char>) -> Option<(Option<Seq<char>>, Option<u16>)>;

/// Parse `input` with `url::Url::parse` and read its host and port.
#[verifier::external_body]
fn parse_url(input: &str) -> (r: Option<(Option<String>, Option<u16>)>)
    ensures
        parsed_view(r) == url_host_port(input@),
{
    let url = url::Url::parse(input).ok()?;
    Some((url.host_str().map(|h| h.to_string()), url.port_or_known_default()))
}

pub open spec fn domain_target(input: Seq<char>, t: Target) -> bool {
    let domain = trim(input);
    &&& t.input@ == input
    &&& t.kind@ == "domain"@
    &&& t.normalized_url@ == "https://"@ + domain
    &&& t.domain@ == domain
    &&& t.port == 443
}

/// The default port of the input's scheme: 80 for `http://`, else 443.
pub open spec fn scheme_port(input: Seq<char>) -> u16 {
    if "http://"@.is_prefix_of(input) {
        80
    } else {
        443
    }
}

/// The view of a URL parse result: the host and the port, where the text is a URL.
pub open spec fn parsed_view(parsed: Option<(Option<String>, Option<u16>)>) -> Option<(Option<Seq<char>>, Option<u16>)> {
    match parsed {
        Some((h, p)) => Some((opt_text(h), p)),
        None => None,
    }
}

/// The target an input names, given what URL parsing made of it: text starting with
/// `http://` or `https://` is a URL target with the input as its URL, the parsed host as its
/// domain (empty where there is none) and the parsed port, else the scheme's default;
/// anything else is a domain, trimmed and normalized to `https://<domain>` on port 443.
pub open spec fn target_for(input: Seq<char>, parsed: Option<(Option<Seq<char>>, Option<u16>)>, t: Target) -> bool {
    if "http://"@.is_prefix_of(input) || "https://"@.is_prefix_of(input) {
        let (host, port) = match parsed {
            Some(hp) => hp,
            None => (None, None),
        };
        &&& t.input@ == input
        &&& t.kind@ == "url"@
        &&& t.normalized_url@ == input
        &&& t.domain@ == match host {
            Some(h) => h,
            None => Seq::empty(),
        }
        &&& t.port == match port {
            Some(p) => p,
            None => scheme_port(input),
        }
    } else {
        domain_target(input, t)
    }
}

/// The target an input names, with the text parsed as a URL by `url::Url::parse`.
pub open spec fn target_spec(input: Seq<char>, t: Target) -> bool {
    target_for(input, url_host_port(input), t)
}

/// The target for `input`, given the host and port that URL parsing read from it (`None`
/// where it is no URL).
pub fn target_from_parts(input: &str, parsed: Option<(Option<String>, Option<u16>)>) -> (r: Target)
    ensures
        target_for(input@, parsed_view(parsed), r),
{
    proof {
        reveal_strlit("http://");
    }
    if starts_with(input, "http://") || starts_with(input, "https://") {
        let (host, port) = match parsed {
            Some(hp) => hp,
            None => (None, None),
        };
        let domain = match host {
            Some(h) => h,
            None => String::new(),
        };
        let port = match port {
            Some(p) => p,
            None => if starts_with(input, "http://") {
                80
            } else {
                443
            },
        };
        return Target {
            input: owned(input),
            kind: owned("url"),
            normalized_url: owned(input),
            domain,
            port,
        };
    }
    let domain = trim_str(input);
    let mut normalized_url = owned("https://");
    normalized_url.append(domain.as_str());
    Target { input: owned(input), kind: owned("domain"), normalized_url, domain, port: 443 }
}

/// The target named by a URL or a domain.
pub fn parse_target(input: &str) -> (r: Target)
    ensures
        target_spec(input@, r),
{
    let parsed = if starts_with(input, "http://") || starts_with(input, "https://") {
        parse_url(input)
    } else {
        None
    };
    target_from_parts(input, parsed)
}

/// Law: a target is either a URL or a domain.
pub proof fn lemma_target_kind(input: Seq<char>, t: Target)
    requires
        target_spec(input, t),
    ensures
        t.kind@ == "url"@ || t.kind@ == "domain"@,
        t.input@ == input,
{
}


/// The first phase, in the order dns, tcp, tls, http, system, that failed.
pub open spec fn failure_stage_of(dns: Status, tcp: Status, tls: Status, http: Status, system: Status) -> Option<Seq<char>> {
    if dns == Status::Fail {
        Some("dns"@)
    } else if tcp == Status::Fail {
        Some("tcp"@)
    } else if tls == Status::Fail {
        Some("tls"@)
    } else if http == Status::Fail {
        Some("http"@)
    } else if system == Status::Fail {
        Some("system"@)
    } else {
        None
    }
}

/// The overall status: fail where some phase failed, else warn where some phase warned,
/// else pass.
pub open spec fn overall_status(dns: Status, tcp: Status, tls: Status, http: Status, system: Status) -> Status {
    if failure_stage_of(dns, tcp, tls, http, system) is Some {
        Status::Fail
    } else if dns == Status::Warn || tcp == Status::Warn || tls == Status::Warn || http == Status::Warn
        || system == Status::Warn {
        Status::Warn
    } else {
        Status::Pass
    }
}

pub open spec fn summary_spec(
    dns: Status,
    tcp: Status,
    tls: Status,
    http: Status,
    system: Status,
    total_duration_ms: u64,
    resolved_ip: Option<Seq<char>>,
    r: Summary,
) -> bool {
    &&& r.status == overall_status(dns, tcp, tls, http, system)
    &&& r.severity == severity_of(r.status)
    &&& r.total_duration_ms == total_duration_ms
    &&& opt_text(r.failure_stage) == failure_stage_of(dns, tcp, tls, http, system)
    &&& opt_text(r.resolved_ip) == resolved_ip
}

/// The report summary for the phase statuses.
pub fn summarize(
    dns: Status,
    tcp: Status,
    tls: Status,
    http: Status,
    system: Status,
    total_duration_ms: u64,
    resolved_ip: Option<String>,
) -> (r: Summary)
    ensures
        summary_spec(dns, tcp, tls, http, system, total_duration_ms, opt_text(resolved_ip), r),
{
    let failure_stage = if dns == Status::Fail {
        Some(owned("dns"))
    } else if tcp == Status::Fail {
        Some(owned("tcp"))
    } else if tls == Status::Fail {
        Some(owned("tls"))
    } else if http == Status::Fail {
        Some(owned("http"))
    } else if system == Status::Fail {
        Some(owned("system"))
    } else {
        None
    };
    let status = if failure_stage.is_some() {
        Status::Fail
    } else if dns == Status::Warn || tcp == Status::Warn || tls == Status::Warn || http == Status::Warn
        || system == Status::Warn {
        Status::Warn
    } else {
        Status::Pass
    };
    Summary {
        status,
        severity: result::severity_for(status),
        total_duration_ms,
        failure_stage,
        resolved_ip,
    }
}

/// Law: the summary names a failure stage exactly when the overall status is fail,
/// and its severity follows its status.
pub proof fn lemma_summary_consistent(dns: Status, tcp: Status, tls: Status, http: Status, system: Status)
    ensures
        (failure_stage_of(dns, tcp, tls, http, system) is Some) == (overall_status(dns, tcp, tls, http, system) == Status::Fail),
        overall_status(dns, tcp, tls, http, system) == Status::Pass ==> dns != Status::Fail && dns != Status::Warn
            && tcp != Status::Fail && tcp != Status::Warn && tls != Status::Fail && tls != Status::Warn
            && http != Status::Fail && http != Status::Warn && system != Status::Fail && system != Status::Warn,
{
}

/// A diagnosis in progress: the target and the phase results so far.
#[derive(Debug, Clone)]
pub struct Diagnosis {
    pub target: Target,
    pub dns: Option<DnsModule>,
    pub tcp: Option<TcpModule>,
    pub tls: Option<TlsModule>,
    pub http: Option<HttpModule>,
    pub system: Option<SystemModule>,
}

/// The outside work a diagnosis asks for next.
#[derive(Debug, Clone)]
pub enum Step {
    /// Look up the domain's addresses.
    ResolveDns { domain: String },
    /// Try a TCP connection to `ip:port`.
    ConnectTcp { ip: String, port: u16 },
    /// Perform a TLS handshake with `domain` at `ip:port`.
    HandshakeTls { domain: String, ip: String, port: u16 },
    /// Request the URL.
    FetchHttp { url: String },
    /// Inspect proxy, hosts file and clock, given the server's `Date` header.
    InspectSystem { server_date: Option<String> },
    /// Every phase has its result.
    Finished,
}

/// The result of one phase, as the outside work produced it.
#[derive(Debug, Clone)]
pub enum PhaseResult {
    Dns(DnsModule),
    Tcp(TcpModule),
    Tls(TlsModule),
    Http(HttpModule),
    System(SystemModule),
}

impl Diagnosis {
    /// Phase results are filled in order, each has the shape of its phase, kept response
    /// headers name each header once, and the phases that need no outside work have the
    /// results the plan gives them: TCP without an address, TLS for a target that is not
    /// HTTPS or after a failed connection, HTTP after a failed connection.
    pub open spec fn wf(&self) -> bool {
        let port = self.target.port;
        let https = is_https(self.target);
        &&& self.tcp is Some ==> self.dns is Some
        &&& self.tls is Some ==> self.tcp is Some
        &&& self.http is Some ==> self.tls is Some
        &&& self.system is Some ==> self.http is Some
        &&& self.http matches Some(h) ==> distinct_names(header_texts(h.details.headers@))
        &&& self.dns matches Some(m) ==> dns_shape(m)
        &&& self.tcp matches Some(m) ==> tcp_shape(m)
        &&& self.tls matches Some(m) ==> tls_shape(m)
        &&& self.http matches Some(m) ==> http_shape(m)
        &&& self.system matches Some(m) ==> system_shape(m)
        &&& (self.system is Some && self.http is Some) ==> clock_matches(
            self.system.unwrap(),
            date_header(self.http.unwrap()),
        )
        &&& (self.tcp is Some && resolved_ip_text(*self) is None) ==> tcp_without_address(
            port,
            self.tcp.unwrap(),
        )
        &&& (self.tls is Some && !https) ==> tls_not_attempted(false, self.tls.unwrap())
        &&& (self.tls is Some && https && tcp_failed(*self)) ==> tls_not_attempted(true, self.tls.unwrap())
        &&& (self.http is Some && tcp_failed(*self)) ==> http_not_attempted(self.http.unwrap())
    }

    /// The phase a result is awaited for: the first one without a result, where it needs
    /// outside work (a TCP attempt needs an address; a TLS handshake an HTTPS target and a
    /// connection that did not fail; an HTTP request a connection that did not fail); the
    /// result has the shape of its phase.
    pub open spec fn awaits(&self, r: PhaseResult) -> bool {
        match r {
            PhaseResult::Dns(m) => self.dns is None && dns_shape(m),
            PhaseResult::Tcp(m) => self.dns is Some && self.tcp is None && resolved_ip_text(*self) is Some
                && tcp_shape(m),
            PhaseResult::Tls(m) => self.tcp is Some && self.tls is None && is_https(self.target)
                && !tcp_failed(*self) && tls_shape(m),
            PhaseResult::Http(m) => self.tls is Some && self.http is None && !tcp_failed(*self)
                && distinct_names(header_texts(m.details.headers@)) && http_shape(m),
            PhaseResult::System(m) => self.http is Some && self.system is None && system_shape(m)
                && clock_matches(m, date_header(self.http.unwrap())),
        }
    }

    pub open spec fn complete(&self) -> bool {
        &&& self.dns is Some
        &&& self.tcp is Some
        &&& self.tls is Some
        &&& self.http is Some
        &&& self.system is Some
    }

    /// A new diagnosis of the target that `input` names, with no phase run yet.
    pub fn new(input: &str) -> (r: Self)
        ensures
            target_spec(input@, r.target),
            r.dns is None && r.tcp is None && r.tls is None && r.http is None && r.system is None,
            r.wf(),
    {
        Diagnosis { target: parse_target(input), dns: None, tcp: None, tls: None, http: None, system: None }
    }

    /// Record the result of the phase that was awaited.
    pub fn record(&mut self, result: PhaseResult)
        requires
            old(self).wf(),
            old(self).awaits(result),
        ensures
            final(self).wf(),
            final(self).target == old(self).target,
            final(self).dns == match result {
                PhaseResult::Dns(m) => Some(m),
                _ => old(self).dns,
            },
            final(self).tcp == match result {
                PhaseResult::Tcp(m) => Some(m),
                _ => old(self).tcp,
            },
            final(self).tls == match result {
                PhaseResult::Tls(m) => Some(m),
                _ => old(self).tls,
            },
            final(self).http == match result {
                PhaseResult::Http(m) => Some(m),
                _ => old(self).http,
            },
            final(self).system == match result {
                PhaseResult::System(m) => Some(m),
                _ => old(self).system,
            },
    {
        match result {
            PhaseResult::Dns(m) => self.dns = Some(m),
            PhaseResult::Tcp(m) => self.tcp = Some(m),
            PhaseResult::Tls(m) => self.tls = Some(m),
            PhaseResult::Http(m) => self.http = Some(m),
            PhaseResult::System(m) => self.system = Some(m),
        }
    }
}


/// The TCP result when DNS gave no address to connect to.
pub open spec fn tcp_without_address(port: u16, m: TcpModule) -> bool {
    &&& m.status == Status::Fail
    &&& m.severity == Severity::Fail
    &&& m.duration_ms == 0
    &&& opt_text(m.error) == Some("No resolved IP from DNS phase"@)
    &&& !m.details.connected
    &&& m.details.ip is None
    &&& m.details.port == port
}

/// The clock fields of a system result are those of the clock-skew check against the
/// server's `Date` header, at some reading of the local clock.
pub open spec fn clock_matches(m: SystemModule, server_date: Option<Seq<char>>) -> bool {
    exists|now: i64|
        (m.details.clock_skewed, m.details.clock_offset_sec) == #[trigger] clock_skew_reading(
            server_date,
            now as int,
        )
}

/// The target's URL is an HTTPS URL.
pub open spec fn is_https(t: Target) -> bool {
    "https://"@.is_prefix_of(t.normalized_url@)
}

/// The TLS result when no handshake is attempted: skipped for a target that is not HTTPS,
/// failed for an HTTPS target when the TCP connection failed.
pub open spec fn tls_not_attempted(https: bool, m: TlsModule) -> bool {
    &&& if !https {
        &&& m.status == Status::Skip
        &&& m.severity == Severity::Info
        &&& opt_text(m.error) == Some("Skipped: non-HTTPS port"@)
    } else {
        &&& m.status == Status::Fail
        &&& m.severity == Severity::Fail
        &&& opt_text(m.error) == Some("Skipped: TCP connection failed"@)
    }
    &&& m.duration_ms == 0
    &&& !m.details.handshake
    &&& m.details.version is None
    &&& m.details.cert.is_empty_cert()
}

/// The HTTP result when the TCP connection failed and no request is made.
pub open spec fn http_not_attempted(m: HttpModule) -> bool {
    &&& m.status == Status::Fail
    &&& m.severity == Severity::Fail
    &&& m.duration_ms == 0
    &&& opt_text(m.error) == Some("Skipped: TCP connection failed"@)
    &&& m.details.status_code is None
    &&& m.details.redirect_chain@.len() == 0
    &&& m.details.headers@.len() == 0
    &&& !m.details.empty_body
    &&& !m.details.downgraded
}

/// The `Date` header of an HTTP result, if present.
pub open spec fn date_header(h: HttpModule) -> Option<Seq<char>> {
    let map = header_map(header_texts(h.details.headers@));
    if map.contains_key("date"@) {
        Some(map["date"@])
    } else {
        None
    }
}

pub open spec fn resolved_ip_text(d: Diagnosis) -> Option<Seq<char>> {
    match d.dns {
        Some(m) => opt_text(m.details.resolved_ip),
        None => None,
    }
}

/// The step for a diagnosis: the outside work for its first phase without a result.
pub open spec fn step_for(d: Diagnosis, step: Step) -> bool {
    if d.dns is None {
        step matches Step::ResolveDns { domain } && domain@ == d.target.domain@
    } else if d.tcp is None {
        step matches Step::ConnectTcp { ip, port } && Some(ip@) == resolved_ip_text(d) && port == d.target.port
    } else if d.tls is None {
        step matches Step::HandshakeTls { domain, ip, port } && domain@ == d.target.domain@
            && ip@ == match resolved_ip_text(d) {
            Some(a) => a,
            None => Seq::empty(),
        } && port == d.target.port
    } else if d.http is None {
        step matches Step::FetchHttp { url } && url@ == d.target.normalized_url@
    } else if d.system is None {
        step matches Step::InspectSystem { server_date } && opt_text(server_date) == date_header(d.http.unwrap())
    } else {
        step is Finished
    }
}

/// Whether the TCP phase has a failed result.
pub open spec fn tcp_failed(d: Diagnosis) -> bool {
    d.tcp matches Some(t) && t.status == Status::Fail
}

/// How a diagnosis moves on: phases that need no outside work get their result (TCP without
/// an address; TLS for a target that is not HTTPS or after a failed connection; HTTP after a failed
/// connection), then the step asks for the next outside work.
pub open spec fn plan(o: Diagnosis, f: Diagnosis, step: Step) -> bool {
    let port = o.target.port;
    &&& f.target == o.target
    &&& f.dns == o.dns
    &&& f.system == o.system
    &&& if o.tcp is None && o.dns is Some && resolved_ip_text(o) is None {
        f.tcp matches Some(t) && tcp_without_address(port, t)
    } else {
        f.tcp == o.tcp
    }
    &&& if o.tls is None && f.tcp is Some && !(is_https(o.target) && !tcp_failed(f)) {
        f.tls matches Some(m) && tls_not_attempted(is_https(o.target), m)
    } else {
        f.tls == o.tls
    }
    &&& if o.http is None && f.tls is Some && tcp_failed(f) {
        f.http matches Some(m) && http_not_attempted(m)
    } else {
        f.http == o.http
    }
    &&& step_for(f, step)
}

fn skipped_tls(https: bool) -> (r: TlsModule)
    ensures
        tls_not_attempted(https, r),
{
    if !https {
        TlsModule {
            status: Status::Skip,
            severity: Severity::Info,
            duration_ms: 0,
            error: Some(owned("Skipped: non-HTTPS port")),
            details: TlsDetails { handshake: false, version: None, cert: CertInfo::empty() },
        }
    } else {
        TlsModule {
            status: Status::Fail,
            severity: Severity::Fail,
            duration_ms: 0,
            error: Some(owned("Skipped: TCP connection failed")),
            details: TlsDetails { handshake: false, version: None, cert: CertInfo::empty() },
        }
    }
}

fn copy_opt(o: &Option<String>) -> (r: Option<String>)
    ensures
        opt_text(r) == opt_text(*o),
{
    match o {
        Some(s) => Some(s.clone()),
        None => None,
    }
}

impl Diagnosis {
    /// Fill in the phases that need no outside work and name the next outside work.
    pub fn next_step(&mut self) -> (r: Step)
        requires
            old(self).wf(),
        ensures
            final(self).wf(),
            plan(*old(self), *final(self), r),
    {
        let port = self.target.port;
        let https = starts_with(self.target.normalized_url.as_str(), "https://");
        let resolved_ip: Option<String> = match &self.dns {
            Some(d) => copy_opt(&d.details.resolved_ip),
            None => None,
        };
        if self.dns.is_some() && self.tcp.is_none() && resolved_ip.is_none() {
            self.tcp = Some(TcpModule {
                status: Status::Fail,
                severity: Severity::Fail,
                duration_ms: 0,
                error: Some(owned("No resolved IP from DNS phase")),
                details: TcpDetails { connected: false, ip: None, port },
            });
        }
        let tcp_failed = match &self.tcp {
            Some(t) => t.status == Status::Fail,
            None => false,
        };
        if self.tls.is_none() && self.tcp.is_some() && !(https && !tcp_failed) {
            self.tls = Some(skipped_tls(https));
        }
        if self.http.is_none() && self.tls.is_some() && tcp_failed {
            self.http = Some(HttpModule {
                status: Status::Fail,
                severity: Severity::Fail,
                duration_ms: 0,
                error: Some(owned("Skipped: TCP connection failed")),
                details: HttpDetails {
                    status_code: None,
                    redirect_chain: Vec::new(),
                    headers: Vec::new(),
                    empty_body: false,
                    downgraded: false,
                },
            });
            assert(header_texts(Seq::<(String, String)>::empty()) =~= seq![]);
        }
        if self.dns.is_none() {
            return Step::ResolveDns { domain: self.target.domain.clone() };
        }
        if self.tcp.is_none() {
            let ip = match resolved_ip {
                Some(ip) => ip,
                None => String::new(),
            };
            return Step::ConnectTcp { ip, port };
        }
        if self.tls.is_none() {
            let ip = match resolved_ip {
                Some(ip) => ip,
                None => String::new(),
            };
            return Step::HandshakeTls { domain: self.target.domain.clone(), ip, port };
        }
        match &self.http {
            None => Step::FetchHttp { url: self.target.normalized_url.clone() },
            Some(h) => {
                if self.system.is_none() {
                    Step::InspectSystem { server_date: header_value(&h.details.headers, "date") }
                } else {
                    Step::Finished
                }
            },
        }
    }
}

impl Diagnosis {
    /// The report of a complete diagnosis: version `v0`, the current time, the summary
    /// of the phase statuses, the recommended actions and the public-IP information.
    pub fn finish(self, total_duration_ms: u64, ipinfo: Option<IpInfo>) -> (r: DiagnosticReport)
        requires
            self.wf(),
            self.complete(),
            self.system.unwrap().details.clock_skewed ==> self.system.unwrap().details.clock_offset_sec
                != Some(i64::MIN),
        ensures
            r.version@ == "v0"@,
            exists|since: Option<u64>|
                r.generated_at@ == #[trigger] iso8601_text(seconds_or_zero_spec(since) as nat),
            r.target == self.target,
            r.dns == self.dns.unwrap(),
            r.tcp == self.tcp.unwrap(),
            r.tls == self.tls.unwrap(),
            r.http == self.http.unwrap(),
            r.system == self.system.unwrap(),
            summary_spec(
                r.dns.status,
                r.tcp.status,
                r.tls.status,
                r.http.status,
                r.system.status,
                total_duration_ms,
                resolved_ip_text(self),
                r.summary,
            ),
            texts(r.recommended_actions.manual_actions@) == manual_actions_for(
                r.dns,
                r.tcp,
                r.tls,
                r.http,
                r.system,
            ),
            action_views(r.recommended_actions.quick_actions@) == dedup_by_id(
                quick_actions_requested(r.dns, r.tcp, r.tls, r.http, r.system),
            ),
            r.ipinfo == ipinfo,
            resolved_ip_text(self) is None ==> tcp_without_address(r.target.port, r.tcp),
            clock_matches(r.system, date_header(r.http)),
            !is_https(r.target) ==> tls_not_attempted(false, r.tls),
            r.tcp.status == Status::Fail ==> http_not_attempted(r.http) && (is_https(r.target)
                ==> tls_not_attempted(true, r.tls)),
            r.summary.status != Status::Pass ==> r.recommended_actions.manual_actions@.len() > 0,
            forall|k: int|
                0 <= k < r.recommended_actions.manual_actions@.len() ==> (
                #[trigger] r.recommended_actions.manual_actions@[k])@.len() > 0,
            forall|i: int, j: int|
                0 <= i < j < r.recommended_actions.quick_actions@.len() ==> (
                #[trigger] r.recommended_actions.quick_actions@[i]).id@ != (
                #[trigger] r.recommended_actions.quick_actions@[j]).id@,
            forall|k: int|
                0 <= k < r.recommended_actions.quick_actions@.len() ==> {
                    let q = #[trigger] r.recommended_actions.quick_actions@[k];
                    &&& q.kind@ == "open_uri"@
                    &&& q.id@.len() > 0
                    &&& q.label@.len() > 0
                    &&& q.target@.len() > 0
                },
    {
        proof {
            let (d, t, l, h, y) = (
                self.dns.unwrap(),
                self.tcp.unwrap(),
                self.tls.unwrap(),
                self.http.unwrap(),
                self.system.unwrap(),
            );
            if overall_status(d.status, t.status, l.status, h.status, y.status) != Status::Pass {
                lemma_problems_have_actions(d, t, l, h, y);
            }
            lemma_quick_actions_schema(d, t, l, h, y);
        }
        let Diagnosis { target, dns, tcp, tls, http, system } = self;
        let dns = dns.unwrap();
        let tcp = tcp.unwrap();
        let tls = tls.unwrap();
        let http = http.unwrap();
        let system = system.unwrap();
        let resolved_ip = copy_opt(&dns.details.resolved_ip);
        let summary = summarize(
            dns.status,
            tcp.status,
            tls.status,
            http.status,
            system.status,
            total_duration_ms,
            resolved_ip,
        );
        let recommended_actions = generate_actions(&dns, &tcp, &tls, &http, &system);
        proof {
            let quick = recommended_actions.quick_actions@;
            let d = dedup_by_id(quick_actions_requested(dns, tcp, tls, http, system));
            assert forall|k: int| 0 <= k < quick.len() implies {
                let q = #[trigger] quick[k];
                &&& q.kind@ == "open_uri"@
                &&& q.id@.len() > 0
                &&& q.label@.len() > 0
                &&& q.target@.len() > 0
            } by {
                assert(action_views(quick)[k] == quick[k]@);
                assert(well_formed_action(d[k]));
            }
        }
        DiagnosticReport {
            version: owned("v0"),
            generated_at: iso8601_now(),
            target,
            summary,
            dns,
            tcp,
            tls,
            http,
            system,
            recommended_actions,
            ipinfo,
        }
    }
}

/// Law: the step after `next_step` is `Finished` exactly when every phase has its result.
pub proof fn lemma_finished_iff_complete(o: Diagnosis, f: Diagnosis, step: Step)
    requires
        o.wf(),
        f.wf(),
        plan(o, f, step),
    ensures
        (step is Finished) == f.complete(),
{
}

/// Law: a TLS handshake is only asked for an HTTPS target after a TCP connection that did
/// not fail, and an HTTP request only after a TCP connection that did not fail.
pub proof fn lemma_attempts_follow_connection(o: Diagnosis, f: Diagnosis, step: Step)
    requires
        o.wf(),
        plan(o, f, step),
    ensures
        step is HandshakeTls ==> is_https(f.target) && f.tcp is Some && !tcp_failed(f),
        step is FetchHttp ==> f.tcp is Some && !tcp_failed(f),
{
}

/// Law: when DNS gives no address, TCP fails without a connection attempt, TLS is skipped
/// (for a target that is not HTTPS) or failed, HTTP fails without a request, and the next step is the system
/// inspection with no server `Date` header.
pub proof fn lemma_no_address_cascade(o: Diagnosis, f: Diagnosis, step: Step)
    requires
        o.wf(),
        o.dns is Some,
        o.tcp is None,
        resolved_ip_text(o) is None,
        plan(o, f, step),
    ensures
        f.tcp matches Some(t) && tcp_without_address(o.target.port, t),
        f.tls matches Some(m) && tls_not_attempted(is_https(o.target), m),
        f.http matches Some(m) && http_not_attempted(m),
        step matches Step::InspectSystem { server_date } && server_date is None,
{
    let h = f.http.unwrap();
    assert(header_texts(h.details.headers@) =~= seq![]);
    assert(header_map(header_texts(h.details.headers@)) =~= Map::empty());
}

/// A DNS result warns only on a suspected hijack.
pub open spec fn dns_shape(m: DnsModule) -> bool {
    m.status == Status::Warn ==> m.details.suspected_hijack
}

/// A TCP result passes or fails.
pub open spec fn tcp_shape(m: TcpModule) -> bool {
    m.status == Status::Pass || m.status == Status::Fail
}

/// A TLS warning comes with a flagged certificate.
pub open spec fn tls_shape(m: TlsModule) -> bool {
    let c = m.details.cert;
    m.status == Status::Warn ==> c.expired || c.domain_mismatch || c.self_signed || c.expiring_soon
        || c.chain_incomplete
}

/// An HTTP warning comes with a status code.
pub open spec fn http_shape(m: HttpModule) -> bool {
    m.status == Status::Warn ==> m.details.status_code is Some
}

/// The system phase never fails, warns only with a proxy, a skewed clock or a hosts
/// override, and names no empty proxy settings URI.
pub open spec fn system_shape(m: SystemModule) -> bool {
    &&& m.status != Status::Fail
    &&& m.status == Status::Warn ==> m.details.proxy.enabled || m.details.clock_skewed
        || m.details.hosts_override
    &&& m.details.proxy.settings_uri matches Some(u) ==> u@.len() > 0
}

/// Law: every DNS result that `dns::dns_module` gives has the DNS shape.
pub proof fn lemma_dns_shape(lookup: DnsLookup, duration_ms: u64, r: DnsModule)
    requires
        dns_module_spec(lookup, duration_ms, r),
    ensures
        dns_shape(r),
{
}

/// Law: every TCP result, attempted or not, has the TCP shape.
pub proof fn lemma_tcp_shape(ip: Seq<char>, port: u16, outcome: TcpOutcome, duration_ms: u64, r: TcpModule)
    requires
        tcp_module_spec(ip, port, outcome, duration_ms, r) || tcp_without_address(port, r),
    ensures
        tcp_shape(r),
{
}

/// Law: every TLS result, attempted or not, has the TLS shape.
pub proof fn lemma_tls_shape(domain: Seq<char>, https: bool, outcome: TlsOutcome, duration_ms: u64, r: TlsModule)
    requires
        tls_module_spec(domain, outcome, duration_ms, r) || tls_not_attempted(https, r),
    ensures
        tls_shape(r),
{
}

/// Law: every HTTP result, attempted or not, has the HTTP shape.
pub proof fn lemma_http_shape(url: Seq<char>, outcome: HttpOutcome, duration_ms: u64, r: HttpModule)
    requires
        http_module_spec(url, outcome, duration_ms, r) || http_not_attempted(r),
    ensures
        http_shape(r),
{
}

/// Law: every system result for a proxy configuration with no empty settings URI (as
/// `system::detect_proxy` gives) has the system shape.
pub proof fn lemma_system_shape(
    proxy: ProxyInfo,
    hosts_override: bool,
    clock_skewed: bool,
    clock_offset_sec: Option<i64>,
    duration_ms: u64,
    r: SystemModule,
)
    requires
        system_module_spec(proxy, hosts_override, clock_skewed, clock_offset_sec, duration_ms, r),
        proxy.settings_uri matches Some(u) ==> u@.len() > 0,
    ensures
        system_shape(r),
{
}

/// Law: a diagnosis whose overall status is not pass recommends at least one manual action.
pub proof fn lemma_problems_have_actions(
    dns: DnsModule,
    tcp: TcpModule,
    tls: TlsModule,
    http: HttpModule,
    system: SystemModule,
)
    requires
        dns_shape(dns),
        tcp_shape(tcp),
        tls_shape(tls),
        http_shape(http),
        system_shape(system),
        overall_status(dns.status, tcp.status, tls.status, http.status, system.status) != Status::Pass,
    ensures
        manual_actions_for(dns, tcp, tls, http, system).len() > 0,
{
    let combos = combo_messages(dns, tcp, tls, http, system);
    let dm = dns_messages(dns, combos);
    let tm = msg_if(tcp.status == Status::Fail, MSG_TCP_FAIL@);
    let tl = tls_messages(tls, system);
    let hm = http_messages(dns, http);
    let sm = system_messages(tls, system);
    assert(manual_actions_for(dns, tcp, tls, http, system).len() == combos.len() + dm.len() + tm.len()
        + tl.len() + hm.len() + sm.len());
    if combos.len() == 0 {
        assert(!proxy_intercepts(tls, system));
        assert(!hijack_confirmed(dns, http));
        assert(server_error(tcp, http) is None);
        assert(!clock_breaks_tls(tls, system));
        assert(!mentions(combos, KEYWORD_DNS_HIJACK@));
        if dns.status == Status::Fail || dns.status == Status::Warn {
            assert(dm.len() == 1);
        } else if tcp.status == Status::Fail {
            assert(tm.len() == 1);
        } else if tls.status == Status::Fail || tls.status == Status::Warn {
            assert(tl.len() > 0);
        } else if http.status == Status::Fail || http.status == Status::Warn {
            assert(hm.len() > 0);
        } else {
            assert(sm.len() > 0);
        }
    }
}

} // verus!
