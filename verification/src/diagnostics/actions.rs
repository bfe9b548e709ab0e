//! Recommended actions: the rules that turn phase results into guidance.
use vstd::prelude::*;
use super::result::{
    DnsModule, HttpModule, QuickAction, QuickActionView, RecommendedActions, Status, SystemModule,
    TcpModule, TlsModule,
};
use super::text::{contains, decimal, i64_to_text, owned, seq_contains, signed_decimal, u64_to_text};

verus! {

pub const MSG_PROXY_MITM: &'static str = "检测到系统代理且 TLS 异常，极可能是企业代理拦截 HTTPS 流量（中间人代理）。请关闭代理或联系 IT 部门将目标域名加入代理白名单";
pub const MSG_DNS_HIJACK_HTTP: &'static str = "域名解析到内网地址且 HTTP 响应异常，高度怀疑 DNS 被劫持或 hosts 文件被篡改。建议检查 hosts 文件并尝试更换 DNS 服务器（如 8.8.8.8 或 114.114.114.114）";
pub const MSG_SERVER_ERROR_HEAD: &'static str = "TCP 连接正常但 HTTP 返回 ";
pub const MSG_SERVER_ERROR_TAIL: &'static str = "，问题在站点服务端而非客户网络。建议联系站点运维";
pub const MSG_CLOCK_HEAD: &'static str = "系统时钟偏差约 ";
pub const MSG_CLOCK_TLS_TAIL: &'static str = " 秒，这会导致 TLS 证书验证失败。请校准系统时间后重试";
pub const MSG_DNS_FAIL: &'static str = "DNS 解析失败，检查域名是否正确，或尝试更换 DNS 服务器（如 8.8.8.8）";
pub const MSG_DNS_PRIVATE: &'static str = "域名解析到内网地址，可能存在 DNS 劫持。建议更换 DNS 服务器验证";
pub const KEYWORD_DNS_HIJACK: &'static str = "DNS 被劫持";
pub const MSG_TCP_FAIL: &'static str = "目标端口不可达，检查防火墙设置或确认网络连接正常";
pub const MSG_CERT_EXPIRED: &'static str = "SSL 证书已过期，联系网站管理员更新证书";
pub const MSG_CERT_MISMATCH: &'static str = "SSL 证书域名不匹配，可能存在配置错误或中间人攻击";
pub const MSG_CERT_SELF_SIGNED: &'static str = "检测到自签名证书，可能存在网络劫持";
pub const MSG_CERT_EXPIRING_HEAD: &'static str = "SSL 证书即将过期（剩余 ";
pub const MSG_CERT_EXPIRING_TAIL: &'static str = " 天），建议联系管理员尽快更新";
pub const MSG_CERT_CHAIN: &'static str = "SSL 证书链不完整，可能导致部分客户端无法验证证书";
pub const MSG_TLS_HANDSHAKE: &'static str = "TLS 握手失败，可能是网络设备干扰或协议版本不兼容";
pub const MSG_HTTP_FAIL: &'static str = "HTTP 请求失败，服务端可能存在问题，请稍后重试";
pub const MSG_HTTP_CODE_HEAD: &'static str = "HTTP 返回状态码 ";
pub const MSG_HTTP_CODE_TAIL: &'static str = "，请检查 URL 是否正确";
pub const MSG_HTTP_DOWNGRADE: &'static str = "检测到 HTTPS 被降级为 HTTP，数据可能不安全";
pub const MSG_HTTP_EMPTY: &'static str = "HTTP 响应内容为空，服务端可能未正确响应";
pub const MSG_PROXY_ON: &'static str = "检测到系统代理已开启，如遇问题建议关闭代理后重试";
pub const MSG_CLOCK_TAIL: &'static str = " 秒，建议校准以避免潜在问题";
pub const MSG_HOSTS: &'static str = "检测到 hosts 文件有自定义条目，可能影响域名解析结果";

pub const KIND_OPEN_URI: &'static str = "open_uri";
pub const ID_OPEN_PROXY: &'static str = "open_proxy";
pub const LABEL_OPEN_PROXY: &'static str = "打开代理设置";
pub const ID_FLUSH_DNS: &'static str = "flush_dns";
pub const LABEL_FLUSH_DNS: &'static str = "刷新 DNS 缓存";
pub const TARGET_FLUSH_DNS: &'static str = "ipconfig /flushdns";
pub const ID_OPEN_HOSTS: &'static str = "open_hosts";
pub const LABEL_OPEN_HOSTS: &'static str = "打开 hosts 文件";
pub const TARGET_OPEN_HOSTS: &'static str = "notepad C:\\Windows\\System32\\drivers\\etc\\hosts";
pub const ID_OPEN_DATETIME: &'static str = "open_datetime";
pub const LABEL_OPEN_DATETIME: &'static str = "打开日期和时间设置";
pub const TARGET_OPEN_DATETIME: &'static str = "ms-settings:dateandtime";
pub const ID_OPEN_NETWORK: &'static str = "open_network";
pub const LABEL_OPEN_NETWORK: &'static str = "打开网络状态";
pub const TARGET_OPEN_NETWORK: &'static str = "ms-settings:network-status";

/// The texts of a list of strings.
pub open spec fn texts(v: Seq<String>) -> Seq<Seq<char>> {
    v.map_values(|s: String| s@)
}

/// The views of a list of quick actions.
pub open spec fn action_views(v: Seq<QuickAction>) -> Seq<QuickActionView> {
    v.map_values(|q: QuickAction| q@)
}

pub open spec fn msg_if(c: bool, m: Seq<char>) -> Seq<Seq<char>> {
    if c {
        seq![m]
    } else {
        seq![]
    }
}

pub open spec fn action_if(c: bool, q: QuickActionView) -> Seq<QuickActionView> {
    if c {
        seq![q]
    } else {
        seq![]
    }
}

pub open spec fn open_uri(id: Seq<char>, label: Seq<char>, target: Seq<char>) -> QuickActionView {
    QuickActionView { id, label, kind: KIND_OPEN_URI@, target }
}

pub open spec fn qa_proxy(uri: Seq<char>) -> QuickActionView {
    open_uri(ID_OPEN_PROXY@, LABEL_OPEN_PROXY@, uri)
}

pub open spec fn qa_flush_dns() -> QuickActionView {
    open_uri(ID_FLUSH_DNS@, LABEL_FLUSH_DNS@, TARGET_FLUSH_DNS@)
}

pub open spec fn qa_open_hosts() -> QuickActionView {
    open_uri(ID_OPEN_HOSTS@, LABEL_OPEN_HOSTS@, TARGET_OPEN_HOSTS@)
}

pub open spec fn qa_open_datetime() -> QuickActionView {
    open_uri(ID_OPEN_DATETIME@, LABEL_OPEN_DATETIME@, TARGET_OPEN_DATETIME@)
}

pub open spec fn qa_open_network() -> QuickActionView {
    open_uri(ID_OPEN_NETWORK@, LABEL_OPEN_NETWORK@, TARGET_OPEN_NETWORK@)
}

/// Some message in `actions` contains `keyword`.
pub open spec fn mentions(actions: Seq<Seq<char>>, keyword: Seq<char>) -> bool {
    exists|i: int| 0 <= i < actions.len() && seq_contains(#[trigger] actions[i], keyword)
}

pub open spec fn abs_nat(x: int) -> nat {
    if x < 0 {
        (-x) as nat
    } else {
        x as nat
    }
}

pub open spec fn offset_or_zero(system: SystemModule) -> int {
    match system.details.clock_offset_sec {
        Some(o) => o as int,
        None => 0,
    }
}

/// A system proxy together with a TLS anomaly: a corporate proxy intercepting HTTPS.
pub open spec fn proxy_intercepts(tls: TlsModule, system: SystemModule) -> bool {
    system.details.proxy.enabled && (tls.status == Status::Fail || tls.details.cert.self_signed)
}

/// A suspected DNS hijack together with an HTTP anomaly.
pub open spec fn hijack_confirmed(dns: DnsModule, http: HttpModule) -> bool {
    dns.details.suspected_hijack && (http.status == Status::Fail || http.details.downgraded
        || http.details.empty_body)
}

/// The 5xx status of a site reached over TCP: the fault lies with the server.
pub open spec fn server_error(tcp: TcpModule, http: HttpModule) -> Option<u16> {
    match http.details.status_code {
        Some(c) => if tcp.status == Status::Pass && c >= 500 {
            Some(c)
        } else {
            None
        },
        None => None,
    }
}

/// A skewed clock while TLS failed: the clock makes certificates look invalid.
pub open spec fn clock_breaks_tls(tls: TlsModule, system: SystemModule) -> bool {
    system.details.clock_skewed && tls.status == Status::Fail
}

pub open spec fn is_5xx(http: HttpModule) -> bool {
    match http.details.status_code {
        Some(c) => c >= 500,
        None => false,
    }
}

/// Messages for the combinations of findings that point to a single cause.
pub open spec fn combo_messages(
    dns: DnsModule,
    tcp: TcpModule,
    tls: TlsModule,
    http: HttpModule,
    system: SystemModule,
) -> Seq<Seq<char>> {
    msg_if(proxy_intercepts(tls, system), MSG_PROXY_MITM@) + msg_if(
        hijack_confirmed(dns, http),
        MSG_DNS_HIJACK_HTTP@,
    ) + match server_error(tcp, http) {
        Some(c) => seq![MSG_SERVER_ERROR_HEAD@ + decimal(c as nat) + MSG_SERVER_ERROR_TAIL@],
        None => seq![],
    } + msg_if(
        clock_breaks_tls(tls, system),
        MSG_CLOCK_HEAD@ + decimal(abs_nat(offset_or_zero(system))) + MSG_CLOCK_TLS_TAIL@,
    )
}

pub open spec fn dns_messages(dns: DnsModule, prior: Seq<Seq<char>>) -> Seq<Seq<char>> {
    if dns.status == Status::Fail {
        seq![MSG_DNS_FAIL@]
    } else if dns.details.suspected_hijack && !mentions(prior, KEYWORD_DNS_HIJACK@) {
        seq![MSG_DNS_PRIVATE@]
    } else {
        seq![]
    }
}

pub open spec fn tls_messages(tls: TlsModule, system: SystemModule) -> Seq<Seq<char>> {
    let cert = tls.details.cert;
    if tls.status == Status::Fail || tls.status == Status::Warn {
        msg_if(cert.expired, MSG_CERT_EXPIRED@) + msg_if(cert.domain_mismatch, MSG_CERT_MISMATCH@)
            + msg_if(cert.self_signed && !system.details.proxy.enabled, MSG_CERT_SELF_SIGNED@) + msg_if(
            cert.expiring_soon,
            MSG_CERT_EXPIRING_HEAD@ + signed_decimal(
                match cert.days_remaining {
                    Some(d) => d as int,
                    None => 0,
                },
            ) + MSG_CERT_EXPIRING_TAIL@,
        ) + msg_if(cert.chain_incomplete && !cert.self_signed, MSG_CERT_CHAIN@) + msg_if(
            !cert.expired && !cert.domain_mismatch && !cert.self_signed
                && !system.details.clock_skewed && tls.status == Status::Fail,
            MSG_TLS_HANDSHAKE@,
        )
    } else {
        seq![]
    }
}

pub open spec fn http_messages(dns: DnsModule, http: HttpModule) -> Seq<Seq<char>> {
    msg_if(
        http.status == Status::Fail && !dns.details.suspected_hijack && !is_5xx(http),
        MSG_HTTP_FAIL@,
    ) + match http.details.status_code {
        Some(c) => msg_if(
            http.status == Status::Warn,
            MSG_HTTP_CODE_HEAD@ + decimal(c as nat) + MSG_HTTP_CODE_TAIL@,
        ),
        None => seq![],
    } + msg_if(http.details.downgraded && !dns.details.suspected_hijack, MSG_HTTP_DOWNGRADE@)
        + msg_if(http.details.empty_body && http.status == Status::Pass, MSG_HTTP_EMPTY@)
}

pub open spec fn system_messages(tls: TlsModule, system: SystemModule) -> Seq<Seq<char>> {
    msg_if(
        system.details.proxy.enabled && tls.status != Status::Fail
            && !tls.details.cert.self_signed,
        MSG_PROXY_ON@,
    ) + msg_if(
        system.details.clock_skewed && tls.status != Status::Fail,
        MSG_CLOCK_HEAD@ + decimal(abs_nat(offset_or_zero(system))) + MSG_CLOCK_TAIL@,
    ) + msg_if(system.details.hosts_override, MSG_HOSTS@)
}

/// The manual actions for a set of phase results, in the order they are given.
pub open spec fn manual_actions_for(
    dns: DnsModule,
    tcp: TcpModule,
    tls: TlsModule,
    http: HttpModule,
    system: SystemModule,
) -> Seq<Seq<char>> {
    let combos = combo_messages(dns, tcp, tls, http, system);
    combos + dns_messages(dns, combos) + msg_if(tcp.status == Status::Fail, MSG_TCP_FAIL@)
        + tls_messages(tls, system) + http_messages(dns, http) + system_messages(tls, system)
}

pub open spec fn proxy_action(c: bool, system: SystemModule) -> Seq<QuickActionView> {
    match system.details.proxy.settings_uri {
        Some(u) => action_if(c, qa_proxy(u@)),
        None => seq![],
    }
}

/// The quick actions the rules ask for, before repeated ids are dropped.
pub open spec fn quick_actions_requested(
    dns: DnsModule,
    tcp: TcpModule,
    tls: TlsModule,
    http: HttpModule,
    system: SystemModule,
) -> Seq<QuickActionView> {
    proxy_action(proxy_intercepts(tls, system), system) + (if hijack_confirmed(dns, http) {
        seq![qa_flush_dns(), qa_open_hosts()]
    } else {
        seq![]
    }) + action_if(clock_breaks_tls(tls, system), qa_open_datetime()) + action_if(
        dns.status == Status::Fail,
        qa_flush_dns(),
    ) + action_if(dns.details.private_ip, qa_open_hosts()) + action_if(
        tcp.status == Status::Fail,
        qa_open_network(),
    ) + proxy_action(
        system.details.proxy.enabled && tls.status != Status::Fail
            && !tls.details.cert.self_signed,
        system,
    ) + action_if(system.details.clock_skewed && tls.status != Status::Fail, qa_open_datetime())
        + action_if(system.details.hosts_override, qa_open_hosts())
}

pub open spec fn has_id(s: Seq<QuickActionView>, id: Seq<char>) -> bool {
    exists|j: int| 0 <= j < s.len() && (#[trigger] s[j]).id == id
}

/// `s` without the actions whose id occurred earlier: the first of each id stays, in order.
pub open spec fn dedup_by_id(s: Seq<QuickActionView>) -> Seq<QuickActionView>
    decreases s.len(),
{
    if s.len() == 0 {
        seq![]
    } else {
        let p = dedup_by_id(s.drop_last());
        if has_id(p, s.last().id) {
            p
        } else {
            p.push(s.last())
        }
    }
}


fn push_text(v: &mut Vec<String>, s: String)
    ensures
        texts(final(v)@) == texts(old(v)@).push(s@),
{
    let ghost before = v@;
    v.push(s);
    assert(texts(v@) =~= texts(before).push(s@));
}

fn push_action(v: &mut Vec<QuickAction>, q: QuickAction)
    ensures
        action_views(final(v)@) == action_views(old(v)@).push(q@),
{
    let ghost before = v@;
    v.push(q);
    assert(action_views(v@) =~= action_views(before).push(q@));
}

/// `head`, then `mid`, then `tail`.
fn join3(head: &str, mid: String, tail: &str) -> (r: String)
    ensures
        r@ == head@ + mid@ + tail@,
{
    let mut r = owned(head);
    r.append(mid.as_str());
    r.append(tail);
    r
}

/// A quick action that opens `target`.
fn quick_action(id: &str, label: &str, target: String) -> (r: QuickAction)
    ensures
        r@ == open_uri(id@, label@, target@),
{
    QuickAction { id: owned(id), label: owned(label), kind: owned(KIND_OPEN_URI), target }
}

/// Check if any existing manual action contains a keyword (to avoid duplicates).
pub fn has_action(actions: &[String], keyword: &str) -> (r: bool)
    ensures
        r == mentions(texts(actions@), keyword@),
{
    let mut i: usize = 0;
    while i < actions.len()
        invariant
            i <= actions.len(),
            forall|k: int| 0 <= k < i ==> !seq_contains(#[trigger] texts(actions@)[k], keyword@),
        decreases actions.len() - i,
    {
        if contains(actions[i].as_str(), keyword) {
            assert(seq_contains(texts(actions@)[i as int], keyword@));
            return true;
        }
        i = i + 1;
    }
    false
}

fn offset_magnitude(system: &SystemModule) -> (r: u64)
    requires
        system.details.clock_offset_sec != Some(i64::MIN),
    ensures
        r == abs_nat(offset_or_zero(*system)),
{
    match system.details.clock_offset_sec {
        Some(o) => if o < 0 {
            (-o) as u64
        } else {
            o as u64
        },
        None => 0,
    }
}

fn combo_manual(
    dns: &DnsModule,
    tcp: &TcpModule,
    tls: &TlsModule,
    http: &HttpModule,
    system: &SystemModule,
) -> (r: Vec<String>)
    requires
        system.details.clock_skewed ==> system.details.clock_offset_sec != Some(i64::MIN),
    ensures
        texts(r@) == combo_messages(*dns, *tcp, *tls, *http, *system),
{
    let mut manual: Vec<String> = Vec::new();
    let ghost a = msg_if(proxy_intercepts(*tls, *system), MSG_PROXY_MITM@);
    let ghost b = msg_if(hijack_confirmed(*dns, *http), MSG_DNS_HIJACK_HTTP@);
    let ghost c = match server_error(*tcp, *http) {
        Some(c) => seq![MSG_SERVER_ERROR_HEAD@ + decimal(c as nat) + MSG_SERVER_ERROR_TAIL@],
        None => seq![],
    };
    let ghost d = msg_if(
        clock_breaks_tls(*tls, *system),
        MSG_CLOCK_HEAD@ + decimal(abs_nat(offset_or_zero(*system))) + MSG_CLOCK_TLS_TAIL@,
    );
    if system.details.proxy.enabled && (tls.status == Status::Fail || tls.details.cert.self_signed) {
        push_text(&mut manual, owned(MSG_PROXY_MITM));
    }
    assert(texts(manual@) =~= a);
    if dns.details.suspected_hijack && (http.status == Status::Fail || http.details.downgraded
        || http.details.empty_body) {
        push_text(&mut manual, owned(MSG_DNS_HIJACK_HTTP));
    }
    assert(texts(manual@) =~= a + b);
    if tcp.status == Status::Pass {
        if let Some(code) = http.details.status_code {
            if code >= 500 {
                push_text(
                    &mut manual,
                    join3(MSG_SERVER_ERROR_HEAD, u64_to_text(code as u64), MSG_SERVER_ERROR_TAIL),
                );
            }
        }
    }
    assert(texts(manual@) =~= a + b + c);
    if system.details.clock_skewed && tls.status == Status::Fail {
        let magnitude = offset_magnitude(system);
        push_text(&mut manual, join3(MSG_CLOCK_HEAD, u64_to_text(magnitude), MSG_CLOCK_TLS_TAIL));
    }
    assert(texts(manual@) =~= a + b + c + d);
    manual
}

fn append_dns_messages(manual: &mut Vec<String>, dns: &DnsModule)
    ensures
        texts(final(manual)@) == texts(old(manual)@) + dns_messages(*dns, texts(old(manual)@)),
{
    let ghost before = texts(manual@);
    if dns.status == Status::Fail {
        push_text(manual, owned(MSG_DNS_FAIL));
    } else if dns.details.suspected_hijack && !has_action(manual.as_slice(), KEYWORD_DNS_HIJACK) {
        push_text(manual, owned(MSG_DNS_PRIVATE));
    }
    assert(texts(manual@) =~= before + dns_messages(*dns, before));
}

fn append_tls_messages(manual: &mut Vec<String>, tls: &TlsModule, system: &SystemModule)
    ensures
        texts(final(manual)@) == texts(old(manual)@) + tls_messages(*tls, *system),
{
    let ghost before = texts(manual@);
    if tls.status == Status::Fail || tls.status == Status::Warn {
        let cert = &tls.details.cert;
        let ghost a = msg_if(cert.expired, MSG_CERT_EXPIRED@);
        let ghost b = msg_if(cert.domain_mismatch, MSG_CERT_MISMATCH@);
        let ghost c = msg_if(cert.self_signed && !system.details.proxy.enabled, MSG_CERT_SELF_SIGNED@);
        let ghost d = msg_if(
            cert.expiring_soon,
            MSG_CERT_EXPIRING_HEAD@ + signed_decimal(
                match cert.days_remaining {
                    Some(d) => d as int,
                    None => 0,
                },
            ) + MSG_CERT_EXPIRING_TAIL@,
        );
        let ghost e = msg_if(cert.chain_incomplete && !cert.self_signed, MSG_CERT_CHAIN@);
        let ghost f = msg_if(
            !cert.expired && !cert.domain_mismatch && !cert.self_signed
                && !system.details.clock_skewed && tls.status == Status::Fail,
            MSG_TLS_HANDSHAKE@,
        );
        if cert.expired {
            push_text(manual, owned(MSG_CERT_EXPIRED));
        }
        assert(texts(manual@) =~= before + a);
        if cert.domain_mismatch {
            push_text(manual, owned(MSG_CERT_MISMATCH));
        }
        assert(texts(manual@) =~= before + (a + b));
        if cert.self_signed && !system.details.proxy.enabled {
            push_text(manual, owned(MSG_CERT_SELF_SIGNED));
        }
        assert(texts(manual@) =~= before + (a + b + c));
        if cert.expiring_soon {
            let days = match cert.days_remaining {
                Some(d) => d,
                None => 0,
            };
            push_text(manual, join3(MSG_CERT_EXPIRING_HEAD, i64_to_text(days), MSG_CERT_EXPIRING_TAIL));
        }
        assert(texts(manual@) =~= before + (a + b + c + d));
        if cert.chain_incomplete && !cert.self_signed {
            push_text(manual, owned(MSG_CERT_CHAIN));
        }
        assert(texts(manual@) =~= before + (a + b + c + d + e));
        if !cert.expired && !cert.domain_mismatch && !cert.self_signed
            && !system.details.clock_skewed && tls.status == Status::Fail {
            push_text(manual, owned(MSG_TLS_HANDSHAKE));
        }
        assert(texts(manual@) =~= before + (a + b + c + d + e + f));
    } else {
        assert(texts(manual@) =~= before + tls_messages(*tls, *system));
    }
}

fn append_http_messages(manual: &mut Vec<String>, dns: &DnsModule, http: &HttpModule)
    ensures
        texts(final(manual)@) == texts(old(manual)@) + http_messages(*dns, *http),
{
    let ghost before = texts(manual@);
    let ghost a = msg_if(
        http.status == Status::Fail && !dns.details.suspected_hijack && !is_5xx(*http),
        MSG_HTTP_FAIL@,
    );
    let ghost b = match http.details.status_code {
        Some(c) => msg_if(
            http.status == Status::Warn,
            MSG_HTTP_CODE_HEAD@ + decimal(c as nat) + MSG_HTTP_CODE_TAIL@,
        ),
        None => seq![],
    };
    let ghost c = msg_if(http.details.downgraded && !dns.details.suspected_hijack, MSG_HTTP_DOWNGRADE@);
    let ghost d = msg_if(http.details.empty_body && http.status == Status::Pass, MSG_HTTP_EMPTY@);
    if http.status == Status::Fail && !dns.details.suspected_hijack {
        let server_side = match http.details.status_code {
            Some(c) => c >= 500,
            None => false,
        };
        if !server_side {
            push_text(manual, owned(MSG_HTTP_FAIL));
        }
    }
    assert(texts(manual@) =~= before + a);
    if http.status == Status::Warn {
        if let Some(code) = http.details.status_code {
            push_text(manual, join3(MSG_HTTP_CODE_HEAD, u64_to_text(code as u64), MSG_HTTP_CODE_TAIL));
        }
    }
    assert(texts(manual@) =~= before + (a + b));
    if http.details.downgraded && !dns.details.suspected_hijack {
        push_text(manual, owned(MSG_HTTP_DOWNGRADE));
    }
    assert(texts(manual@) =~= before + (a + b + c));
    if http.details.empty_body && http.status == Status::Pass {
        push_text(manual, owned(MSG_HTTP_EMPTY));
    }
    assert(texts(manual@) =~= before + (a + b + c + d));
}

fn append_system_messages(manual: &mut Vec<String>, tls: &TlsModule, system: &SystemModule)
    requires
        system.details.clock_skewed ==> system.details.clock_offset_sec != Some(i64::MIN),
    ensures
        texts(final(manual)@) == texts(old(manual)@) + system_messages(*tls, *system),
{
    let ghost before = texts(manual@);
    let ghost a = msg_if(
        system.details.proxy.enabled && tls.status != Status::Fail
            && !tls.details.cert.self_signed,
        MSG_PROXY_ON@,
    );
    let ghost b = msg_if(
        system.details.clock_skewed && tls.status != Status::Fail,
        MSG_CLOCK_HEAD@ + decimal(abs_nat(offset_or_zero(*system))) + MSG_CLOCK_TAIL@,
    );
    let ghost c = msg_if(system.details.hosts_override, MSG_HOSTS@);
    if system.details.proxy.enabled && tls.status != Status::Fail && !tls.details.cert.self_signed {
        push_text(manual, owned(MSG_PROXY_ON));
    }
    assert(texts(manual@) =~= before + a);
    if system.details.clock_skewed && tls.status != Status::Fail {
        let magnitude = offset_magnitude(system);
        push_text(manual, join3(MSG_CLOCK_HEAD, u64_to_text(magnitude), MSG_CLOCK_TAIL));
    }
    assert(texts(manual@) =~= before + (a + b));
    if system.details.hosts_override {
        push_text(manual, owned(MSG_HOSTS));
    }
    assert(texts(manual@) =~= before + (a + b + c));
}


fn append_proxy_action(quick: &mut Vec<QuickAction>, c: bool, system: &SystemModule)
    ensures
        action_views(final(quick)@) == action_views(old(quick)@) + proxy_action(c, *system),
{
    let ghost before = action_views(quick@);
    if c {
        if let Some(uri) = &system.details.proxy.settings_uri {
            push_action(quick, quick_action(ID_OPEN_PROXY, LABEL_OPEN_PROXY, uri.clone()));
        }
    }
    assert(action_views(quick@) =~= before + proxy_action(c, *system));
}

fn append_action_when(quick: &mut Vec<QuickAction>, c: bool, id: &str, label: &str, target: &str)
    ensures
        action_views(final(quick)@) == action_views(old(quick)@) + action_if(c, open_uri(id@, label@, target@)),
{
    let ghost before = action_views(quick@);
    if c {
        push_action(quick, quick_action(id, label, owned(target)));
    }
    assert(action_views(quick@) =~= before + action_if(c, open_uri(id@, label@, target@)));
}

fn requested_quick_actions(
    dns: &DnsModule,
    tcp: &TcpModule,
    tls: &TlsModule,
    http: &HttpModule,
    system: &SystemModule,
) -> (r: Vec<QuickAction>)
    ensures
        action_views(r@) == quick_actions_requested(*dns, *tcp, *tls, *http, *system),
{
    let mut quick: Vec<QuickAction> = Vec::new();
    let intercepts = system.details.proxy.enabled && (tls.status == Status::Fail
        || tls.details.cert.self_signed);
    let hijack = dns.details.suspected_hijack && (http.status == Status::Fail
        || http.details.downgraded || http.details.empty_body);
    let ghost p1 = proxy_action(proxy_intercepts(*tls, *system), *system);
    let ghost p2 = if hijack_confirmed(*dns, *http) {
        seq![qa_flush_dns(), qa_open_hosts()]
    } else {
        seq![]
    };
    append_proxy_action(&mut quick, intercepts, system);
    assert(action_views(quick@) =~= p1);
    append_action_when(&mut quick, hijack, ID_FLUSH_DNS, LABEL_FLUSH_DNS, TARGET_FLUSH_DNS);
    append_action_when(&mut quick, hijack, ID_OPEN_HOSTS, LABEL_OPEN_HOSTS, TARGET_OPEN_HOSTS);
    assert(action_views(quick@) =~= p1 + p2);
    let ghost p12 = action_views(quick@);
    append_action_when(
        &mut quick,
        system.details.clock_skewed && tls.status == Status::Fail,
        ID_OPEN_DATETIME,
        LABEL_OPEN_DATETIME,
        TARGET_OPEN_DATETIME,
    );
    append_action_when(&mut quick, dns.status == Status::Fail, ID_FLUSH_DNS, LABEL_FLUSH_DNS, TARGET_FLUSH_DNS);
    append_action_when(&mut quick, dns.details.private_ip, ID_OPEN_HOSTS, LABEL_OPEN_HOSTS, TARGET_OPEN_HOSTS);
    append_action_when(
        &mut quick,
        tcp.status == Status::Fail,
        ID_OPEN_NETWORK,
        LABEL_OPEN_NETWORK,
        TARGET_OPEN_NETWORK,
    );
    append_proxy_action(
        &mut quick,
        system.details.proxy.enabled && tls.status != Status::Fail && !tls.details.cert.self_signed,
        system,
    );
    append_action_when(
        &mut quick,
        system.details.clock_skewed && tls.status != Status::Fail,
        ID_OPEN_DATETIME,
        LABEL_OPEN_DATETIME,
        TARGET_OPEN_DATETIME,
    );
    append_action_when(
        &mut quick,
        system.details.hosts_override,
        ID_OPEN_HOSTS,
        LABEL_OPEN_HOSTS,
        TARGET_OPEN_HOSTS,
    );
    quick
}

fn copy_action(q: &QuickAction) -> (r: QuickAction)
    ensures
        r@ == q@,
{
    QuickAction {
        id: q.id.clone(),
        label: q.label.clone(),
        kind: q.kind.clone(),
        target: q.target.clone(),
    }
}

fn holds_id(kept: &Vec<QuickAction>, id: &String) -> (r: bool)
    ensures
        r == has_id(action_views(kept@), id@),
{
    let mut j: usize = 0;
    while j < kept.len()
        invariant
            j <= kept.len(),
            forall|k: int| 0 <= k < j ==> (#[trigger] action_views(kept@)[k]).id != id@,
        decreases kept.len() - j,
    {
        if kept[j].id == *id {
            assert(action_views(kept@)[j as int].id == id@);
            return true;
        }
        j = j + 1;
    }
    false
}

/// Drop the quick actions whose id occurred earlier in the list.
fn dedup_actions(quick: &Vec<QuickAction>) -> (r: Vec<QuickAction>)
    ensures
        action_views(r@) == dedup_by_id(action_views(quick@)),
{
    let ghost all = action_views(quick@);
    let mut kept: Vec<QuickAction> = Vec::new();
    let mut i: usize = 0;
    assert(all.take(0) =~= seq![]);
    while i < quick.len()
        invariant
            i <= quick.len(),
            all == action_views(quick@),
            action_views(kept@) == dedup_by_id(all.take(i as int)),
        decreases quick.len() - i,
    {
        assert(all.take(i + 1).drop_last() =~= all.take(i as int));
        assert(all.take(i + 1).last() == quick@[i as int]@);
        if !holds_id(&kept, &quick[i].id) {
            push_action(&mut kept, copy_action(&quick[i]));
        }
        i = i + 1;
    }
    assert(all.take(quick.len() as int) =~= all);
    kept
}

/// The manual and quick actions recommended for a set of phase results.
pub fn generate_actions(
    dns: &DnsModule,
    tcp: &TcpModule,
    tls: &TlsModule,
    http: &HttpModule,
    system: &SystemModule,
) -> (r: RecommendedActions)
    requires
        system.details.clock_skewed ==> system.details.clock_offset_sec != Some(i64::MIN),
    ensures
        texts(r.manual_actions@) == manual_actions_for(*dns, *tcp, *tls, *http, *system),
        action_views(r.quick_actions@) == dedup_by_id(
            quick_actions_requested(*dns, *tcp, *tls, *http, *system),
        ),
        forall|i: int, j: int|
            0 <= i < j < r.quick_actions@.len() ==> (#[trigger] r.quick_actions@[i]).id@ != (
            #[trigger] r.quick_actions@[j]).id@,
        forall|k: int| 0 <= k < r.manual_actions@.len() ==> (#[trigger] r.manual_actions@[k])@.len() > 0,
        http.details.downgraded && !dns.details.suspected_hijack ==> texts(r.manual_actions@).contains(
            MSG_HTTP_DOWNGRADE@,
        ),
{
    proof {
        lemma_manual_triggers(*dns, *tcp, *tls, *http, *system);
    }
    let mut manual = combo_manual(dns, tcp, tls, http, system);
    let ghost combos = texts(manual@);
    append_dns_messages(&mut manual, dns);
    let ghost m1 = texts(manual@);
    if tcp.status == Status::Fail {
        push_text(&mut manual, owned(MSG_TCP_FAIL));
    }
    assert(texts(manual@) =~= m1 + msg_if(tcp.status == Status::Fail, MSG_TCP_FAIL@));
    let ghost m2 = texts(manual@);
    append_tls_messages(&mut manual, tls, system);
    let ghost m3 = texts(manual@);
    append_http_messages(&mut manual, dns, http);
    let ghost m4 = texts(manual@);
    append_system_messages(&mut manual, tls, system);
    assert(texts(manual@) =~= manual_actions_for(*dns, *tcp, *tls, *http, *system));
    let requested = requested_quick_actions(dns, tcp, tls, http, system);
    let quick = dedup_actions(&requested);
    proof {
        let d = dedup_by_id(quick_actions_requested(*dns, *tcp, *tls, *http, *system));
        lemma_dedup_unique_ids(quick_actions_requested(*dns, *tcp, *tls, *http, *system));
        assert forall|i: int, j: int| 0 <= i < j < quick@.len() implies (#[trigger] quick@[i]).id@ != (
        #[trigger] quick@[j]).id@ by {
            assert(action_views(quick@)[i] == quick@[i]@);
            assert(action_views(quick@)[j] == quick@[j]@);
            assert(d[i].id != d[j].id);
        }
        lemma_manual_actions_nonempty(*dns, *tcp, *tls, *http, *system);
        assert forall|k: int| 0 <= k < manual@.len() implies (#[trigger] manual@[k])@.len() > 0 by {
            assert(texts(manual@)[k] == manual@[k]@);
        }
    }
    RecommendedActions { manual_actions: manual, quick_actions: quick }
}


/// Every message and quick-action text of this module is nonempty, and quick actions
/// are of the kind `open_uri`.
proof fn lemma_texts_nonempty()
    ensures
        MSG_PROXY_MITM@.len() > 0,
        MSG_DNS_HIJACK_HTTP@.len() > 0,
        MSG_SERVER_ERROR_HEAD@.len() > 0,
        MSG_SERVER_ERROR_TAIL@.len() > 0,
        MSG_CLOCK_HEAD@.len() > 0,
        MSG_CLOCK_TLS_TAIL@.len() > 0,
        MSG_DNS_FAIL@.len() > 0,
        MSG_DNS_PRIVATE@.len() > 0,
        KEYWORD_DNS_HIJACK@.len() > 0,
        MSG_TCP_FAIL@.len() > 0,
        MSG_CERT_EXPIRED@.len() > 0,
        MSG_CERT_MISMATCH@.len() > 0,
        MSG_CERT_SELF_SIGNED@.len() > 0,
        MSG_CERT_EXPIRING_HEAD@.len() > 0,
        MSG_CERT_EXPIRING_TAIL@.len() > 0,
        MSG_CERT_CHAIN@.len() > 0,
        MSG_TLS_HANDSHAKE@.len() > 0,
        MSG_HTTP_FAIL@.len() > 0,
        MSG_HTTP_CODE_HEAD@.len() > 0,
        MSG_HTTP_CODE_TAIL@.len() > 0,
        MSG_HTTP_DOWNGRADE@.len() > 0,
        MSG_HTTP_EMPTY@.len() > 0,
        MSG_PROXY_ON@.len() > 0,
        MSG_CLOCK_TAIL@.len() > 0,
        MSG_HOSTS@.len() > 0,
        KIND_OPEN_URI@.len() > 0,
        ID_OPEN_PROXY@.len() > 0,
        LABEL_OPEN_PROXY@.len() > 0,
        ID_FLUSH_DNS@.len() > 0,
        LABEL_FLUSH_DNS@.len() > 0,
        TARGET_FLUSH_DNS@.len() > 0,
        ID_OPEN_HOSTS@.len() > 0,
        LABEL_OPEN_HOSTS@.len() > 0,
        TARGET_OPEN_HOSTS@.len() > 0,
        ID_OPEN_DATETIME@.len() > 0,
        LABEL_OPEN_DATETIME@.len() > 0,
        TARGET_OPEN_DATETIME@.len() > 0,
        ID_OPEN_NETWORK@.len() > 0,
        LABEL_OPEN_NETWORK@.len() > 0,
        TARGET_OPEN_NETWORK@.len() > 0,
        KIND_OPEN_URI@ == "open_uri"@,
{
    reveal_strlit("检测到系统代理且 TLS 异常，极可能是企业代理拦截 HTTPS 流量（中间人代理）。请关闭代理或联系 IT 部门将目标域名加入代理白名单");
    reveal_strlit("域名解析到内网地址且 HTTP 响应异常，高度怀疑 DNS 被劫持或 hosts 文件被篡改。建议检查 hosts 文件并尝试更换 DNS 服务器（如 8.8.8.8 或 114.114.114.114）");
    reveal_strlit("TCP 连接正常但 HTTP 返回 ");
    reveal_strlit("，问题在站点服务端而非客户网络。建议联系站点运维");
    reveal_strlit("系统时钟偏差约 ");
    reveal_strlit(" 秒，这会导致 TLS 证书验证失败。请校准系统时间后重试");
    reveal_strlit("DNS 解析失败，检查域名是否正确，或尝试更换 DNS 服务器（如 8.8.8.8）");
    reveal_strlit("域名解析到内网地址，可能存在 DNS 劫持。建议更换 DNS 服务器验证");
    reveal_strlit("DNS 被劫持");
    reveal_strlit("目标端口不可达，检查防火墙设置或确认网络连接正常");
    reveal_strlit("SSL 证书已过期，联系网站管理员更新证书");
    reveal_strlit("SSL 证书域名不匹配，可能存在配置错误或中间人攻击");
    reveal_strlit("检测到自签名证书，可能存在网络劫持");
    reveal_strlit("SSL 证书即将过期（剩余 ");
    reveal_strlit(" 天），建议联系管理员尽快更新");
    reveal_strlit("SSL 证书链不完整，可能导致部分客户端无法验证证书");
    reveal_strlit("TLS 握手失败，可能是网络设备干扰或协议版本不兼容");
    reveal_strlit("HTTP 请求失败，服务端可能存在问题，请稍后重试");
    reveal_strlit("HTTP 返回状态码 ");
    reveal_strlit("，请检查 URL 是否正确");
    reveal_strlit("检测到 HTTPS 被降级为 HTTP，数据可能不安全");
    reveal_strlit("HTTP 响应内容为空，服务端可能未正确响应");
    reveal_strlit("检测到系统代理已开启，如遇问题建议关闭代理后重试");
    reveal_strlit(" 秒，建议校准以避免潜在问题");
    reveal_strlit("检测到 hosts 文件有自定义条目，可能影响域名解析结果");
    reveal_strlit("open_uri");
    reveal_strlit("open_proxy");
    reveal_strlit("打开代理设置");
    reveal_strlit("flush_dns");
    reveal_strlit("刷新 DNS 缓存");
    reveal_strlit("ipconfig /flushdns");
    reveal_strlit("open_hosts");
    reveal_strlit("打开 hosts 文件");
    reveal_strlit("notepad C:\\Windows\\System32\\drivers\\etc\\hosts");
    reveal_strlit("open_datetime");
    reveal_strlit("打开日期和时间设置");
    reveal_strlit("ms-settings:dateandtime");
    reveal_strlit("open_network");
    reveal_strlit("打开网络状态");
    reveal_strlit("ms-settings:network-status");
    assert(MSG_PROXY_MITM@.len() > 0);
    assert(MSG_DNS_HIJACK_HTTP@.len() > 0);
    assert(MSG_SERVER_ERROR_HEAD@.len() > 0);
    assert(MSG_SERVER_ERROR_TAIL@.len() > 0);
    assert(MSG_CLOCK_HEAD@.len() > 0);
    assert(MSG_CLOCK_TLS_TAIL@.len() > 0);
    assert(MSG_DNS_FAIL@.len() > 0);
    assert(MSG_DNS_PRIVATE@.len() > 0);
    assert(KEYWORD_DNS_HIJACK@.len() > 0);
    assert(MSG_TCP_FAIL@.len() > 0);
    assert(MSG_CERT_EXPIRED@.len() > 0);
    assert(MSG_CERT_MISMATCH@.len() > 0);
    assert(MSG_CERT_SELF_SIGNED@.len() > 0);
    assert(MSG_CERT_EXPIRING_HEAD@.len() > 0);
    assert(MSG_CERT_EXPIRING_TAIL@.len() > 0);
    assert(MSG_CERT_CHAIN@.len() > 0);
    assert(MSG_TLS_HANDSHAKE@.len() > 0);
    assert(MSG_HTTP_FAIL@.len() > 0);
    assert(MSG_HTTP_CODE_HEAD@.len() > 0);
    assert(MSG_HTTP_CODE_TAIL@.len() > 0);
    assert(MSG_HTTP_DOWNGRADE@.len() > 0);
    assert(MSG_HTTP_EMPTY@.len() > 0);
    assert(MSG_PROXY_ON@.len() > 0);
    assert(MSG_CLOCK_TAIL@.len() > 0);
    assert(MSG_HOSTS@.len() > 0);
    assert(KIND_OPEN_URI@.len() > 0);
    assert(ID_OPEN_PROXY@.len() > 0);
    assert(LABEL_OPEN_PROXY@.len() > 0);
    assert(ID_FLUSH_DNS@.len() > 0);
    assert(LABEL_FLUSH_DNS@.len() > 0);
    assert(TARGET_FLUSH_DNS@.len() > 0);
    assert(ID_OPEN_HOSTS@.len() > 0);
    assert(LABEL_OPEN_HOSTS@.len() > 0);
    assert(TARGET_OPEN_HOSTS@.len() > 0);
    assert(ID_OPEN_DATETIME@.len() > 0);
    assert(LABEL_OPEN_DATETIME@.len() > 0);
    assert(TARGET_OPEN_DATETIME@.len() > 0);
    assert(ID_OPEN_NETWORK@.len() > 0);
    assert(LABEL_OPEN_NETWORK@.len() > 0);
    assert(TARGET_OPEN_NETWORK@.len() > 0);
}

/// Law: after dropping repeated ids, no two quick actions share an id.
pub proof fn lemma_dedup_unique_ids(s: Seq<QuickActionView>)
    ensures
        forall|i: int, j: int|
            0 <= i < j < dedup_by_id(s).len() ==> (#[trigger] dedup_by_id(s)[i]).id != (#[trigger] dedup_by_id(s)[j]).id,
    decreases s.len(),
{
    if s.len() > 0 {
        lemma_dedup_unique_ids(s.drop_last());
        let p = dedup_by_id(s.drop_last());
        if !has_id(p, s.last().id) {
            let d = p.push(s.last());
            assert forall|i: int, j: int| 0 <= i < j < d.len() implies (#[trigger] d[i]).id != (#[trigger] d[j]).id by {
                if j == d.len() - 1 {
                    assert(p[i] == d[i]);
                }
            }
        }
    }
}

/// Law: dropping repeated ids keeps every id and only actions from the list itself.
pub proof fn lemma_dedup_keeps_ids(s: Seq<QuickActionView>)
    ensures
        forall|k: int| 0 <= k < dedup_by_id(s).len() ==> s.contains(#[trigger] dedup_by_id(s)[k]),
        forall|j: int| 0 <= j < s.len() ==> has_id(dedup_by_id(s), (#[trigger] s[j]).id),
    decreases s.len(),
{
    if s.len() > 0 {
        let q = s.drop_last();
        lemma_dedup_keeps_ids(q);
        let p = dedup_by_id(q);
        let d = dedup_by_id(s);
        assert forall|k: int| 0 <= k < d.len() implies s.contains(#[trigger] d[k]) by {
            if k < p.len() {
                assert(q.contains(p[k]));
                let w = choose|w: int| 0 <= w < q.len() && q[w] == p[k];
                assert(s[w] == q[w]);
            } else {
                assert(s[s.len() - 1] == d[k]);
            }
        }
        assert forall|j: int| 0 <= j < s.len() implies has_id(d, (#[trigger] s[j]).id) by {
            if j < s.len() - 1 {
                assert(q[j] == s[j]);
                assert(has_id(p, q[j].id));
                let w = choose|w: int| 0 <= w < p.len() && (#[trigger] p[w]).id == q[j].id;
                assert(d[w] == p[w]);
            } else if !has_id(p, s.last().id) {
                assert(d[d.len() - 1] == s.last());
            }
        }
    }
}

pub open spec fn well_formed_action(q: QuickActionView) -> bool {
    &&& q.kind == "open_uri"@
    &&& q.id.len() > 0
    &&& q.label.len() > 0
    &&& q.target.len() > 0
}

pub open spec fn all_well_formed(s: Seq<QuickActionView>) -> bool {
    forall|k: int| 0 <= k < s.len() ==> well_formed_action(#[trigger] s[k])
}

pub open spec fn all_nonempty(s: Seq<Seq<char>>) -> bool {
    forall|k: int| 0 <= k < s.len() ==> (#[trigger] s[k]).len() > 0
}

proof fn lemma_well_formed_concat(a: Seq<QuickActionView>, b: Seq<QuickActionView>)
    requires
        all_well_formed(a),
        all_well_formed(b),
    ensures
        all_well_formed(a + b),
{
    assert forall|k: int| 0 <= k < (a + b).len() implies well_formed_action(#[trigger] (a + b)[k]) by {
        if k >= a.len() {
            assert((a + b)[k] == b[k - a.len()]);
        }
    }
}

proof fn lemma_nonempty_concat(a: Seq<Seq<char>>, b: Seq<Seq<char>>)
    requires
        all_nonempty(a),
        all_nonempty(b),
    ensures
        all_nonempty(a + b),
{
    assert forall|k: int| 0 <= k < (a + b).len() implies (#[trigger] (a + b)[k]).len() > 0 by {
        if k >= a.len() {
            assert((a + b)[k] == b[k - a.len()]);
        }
    }
}

/// Every action the rules request is an `open_uri` action with nonempty fields,
/// provided the proxy settings URI, where present, is nonempty.
proof fn lemma_requested_well_formed(
    dns: DnsModule,
    tcp: TcpModule,
    tls: TlsModule,
    http: HttpModule,
    system: SystemModule,
)
    requires
        system.details.proxy.settings_uri matches Some(u) ==> u@.len() > 0,
    ensures
        all_well_formed(quick_actions_requested(dns, tcp, tls, http, system)),
{
    lemma_texts_nonempty();
    let a = proxy_action(proxy_intercepts(tls, system), system);
    let b: Seq<QuickActionView> = if hijack_confirmed(dns, http) {
        seq![qa_flush_dns(), qa_open_hosts()]
    } else {
        seq![]
    };
    let c = action_if(clock_breaks_tls(tls, system), qa_open_datetime());
    let d = action_if(dns.status == Status::Fail, qa_flush_dns());
    let e = action_if(dns.details.private_ip, qa_open_hosts());
    let f = action_if(tcp.status == Status::Fail, qa_open_network());
    let g = proxy_action(
        system.details.proxy.enabled && tls.status != Status::Fail
            && !tls.details.cert.self_signed,
        system,
    );
    let h = action_if(system.details.clock_skewed && tls.status != Status::Fail, qa_open_datetime());
    let i = action_if(system.details.hosts_override, qa_open_hosts());
    assert(all_well_formed(a));
    assert(all_well_formed(b));
    assert(all_well_formed(c));
    assert(all_well_formed(d));
    assert(all_well_formed(e));
    assert(all_well_formed(f));
    assert(all_well_formed(g));
    assert(all_well_formed(h));
    assert(all_well_formed(i));
    lemma_well_formed_concat(a, b);
    lemma_well_formed_concat(a + b, c);
    lemma_well_formed_concat(a + b + c, d);
    lemma_well_formed_concat(a + b + c + d, e);
    lemma_well_formed_concat(a + b + c + d + e, f);
    lemma_well_formed_concat(a + b + c + d + e + f, g);
    lemma_well_formed_concat(a + b + c + d + e + f + g, h);
    lemma_well_formed_concat(a + b + c + d + e + f + g + h, i);
}

/// Law: the quick actions follow the report schema: each opens a URI (`kind` is `open_uri`),
/// has a nonempty id, label and target, and no id occurs twice. The proxy settings URI,
/// where present, is assumed nonempty, as every detected proxy configuration has it.
pub proof fn lemma_quick_actions_schema(
    dns: DnsModule,
    tcp: TcpModule,
    tls: TlsModule,
    http: HttpModule,
    system: SystemModule,
)
    requires
        system.details.proxy.settings_uri matches Some(u) ==> u@.len() > 0,
    ensures
        all_well_formed(dedup_by_id(quick_actions_requested(dns, tcp, tls, http, system))),
        ({
            let d = dedup_by_id(quick_actions_requested(dns, tcp, tls, http, system));
            forall|i: int, j: int| 0 <= i < j < d.len() ==> (#[trigger] d[i]).id != (#[trigger] d[j]).id
        }),
{
    let s = quick_actions_requested(dns, tcp, tls, http, system);
    lemma_requested_well_formed(dns, tcp, tls, http, system);
    lemma_dedup_keeps_ids(s);
    lemma_dedup_unique_ids(s);
    let d = dedup_by_id(s);
    assert forall|k: int| 0 <= k < d.len() implies well_formed_action(#[trigger] d[k]) by {
        assert(s.contains(d[k]));
        let w = choose|w: int| 0 <= w < s.len() && s[w] == d[k];
        assert(well_formed_action(s[w]));
    }
}

proof fn lemma_combo_nonempty(
    dns: DnsModule,
    tcp: TcpModule,
    tls: TlsModule,
    http: HttpModule,
    system: SystemModule,
)
    ensures
        all_nonempty(combo_messages(dns, tcp, tls, http, system)),
{
    lemma_texts_nonempty();
    let c1 = msg_if(proxy_intercepts(tls, system), MSG_PROXY_MITM@);
    let c2 = msg_if(hijack_confirmed(dns, http), MSG_DNS_HIJACK_HTTP@);
    let c3: Seq<Seq<char>> = match server_error(tcp, http) {
        Some(c) => seq![MSG_SERVER_ERROR_HEAD@ + decimal(c as nat) + MSG_SERVER_ERROR_TAIL@],
        None => seq![],
    };
    let c4 = msg_if(
        clock_breaks_tls(tls, system),
        MSG_CLOCK_HEAD@ + decimal(abs_nat(offset_or_zero(system))) + MSG_CLOCK_TLS_TAIL@,
    );
    assert(all_nonempty(c1) && all_nonempty(c2) && all_nonempty(c3) && all_nonempty(c4));
    lemma_nonempty_concat(c1, c2);
    lemma_nonempty_concat(c1 + c2, c3);
    lemma_nonempty_concat(c1 + c2 + c3, c4);
}

proof fn lemma_tls_nonempty(tls: TlsModule, system: SystemModule)
    ensures
        all_nonempty(tls_messages(tls, system)),
{
    lemma_texts_nonempty();
    let cert = tls.details.cert;
    let t1 = msg_if(cert.expired, MSG_CERT_EXPIRED@);
    let t2 = msg_if(cert.domain_mismatch, MSG_CERT_MISMATCH@);
    let t3 = msg_if(cert.self_signed && !system.details.proxy.enabled, MSG_CERT_SELF_SIGNED@);
    let t4 = msg_if(
        cert.expiring_soon,
        MSG_CERT_EXPIRING_HEAD@ + signed_decimal(
            match cert.days_remaining {
                Some(d) => d as int,
                None => 0,
            },
        ) + MSG_CERT_EXPIRING_TAIL@,
    );
    let t5 = msg_if(cert.chain_incomplete && !cert.self_signed, MSG_CERT_CHAIN@);
    let t6 = msg_if(
        !cert.expired && !cert.domain_mismatch && !cert.self_signed && !system.details.clock_skewed
            && tls.status == Status::Fail,
        MSG_TLS_HANDSHAKE@,
    );
    assert(all_nonempty(t1) && all_nonempty(t2) && all_nonempty(t3) && all_nonempty(t4)
        && all_nonempty(t5) && all_nonempty(t6));
    lemma_nonempty_concat(t1, t2);
    lemma_nonempty_concat(t1 + t2, t3);
    lemma_nonempty_concat(t1 + t2 + t3, t4);
    lemma_nonempty_concat(t1 + t2 + t3 + t4, t5);
    lemma_nonempty_concat(t1 + t2 + t3 + t4 + t5, t6);
}

proof fn lemma_http_nonempty(dns: DnsModule, http: HttpModule)
    ensures
        all_nonempty(http_messages(dns, http)),
{
    lemma_texts_nonempty();
    let h1 = msg_if(
        http.status == Status::Fail && !dns.details.suspected_hijack && !is_5xx(http),
        MSG_HTTP_FAIL@,
    );
    let h2: Seq<Seq<char>> = match http.details.status_code {
        Some(c) => msg_if(
            http.status == Status::Warn,
            MSG_HTTP_CODE_HEAD@ + decimal(c as nat) + MSG_HTTP_CODE_TAIL@,
        ),
        None => seq![],
    };
    let h3 = msg_if(http.details.downgraded && !dns.details.suspected_hijack, MSG_HTTP_DOWNGRADE@);
    let h4 = msg_if(http.details.empty_body && http.status == Status::Pass, MSG_HTTP_EMPTY@);
    assert(all_nonempty(h1) && all_nonempty(h2) && all_nonempty(h3) && all_nonempty(h4));
    lemma_nonempty_concat(h1, h2);
    lemma_nonempty_concat(h1 + h2, h3);
    lemma_nonempty_concat(h1 + h2 + h3, h4);
}

proof fn lemma_system_nonempty(tls: TlsModule, system: SystemModule)
    ensures
        all_nonempty(system_messages(tls, system)),
{
    lemma_texts_nonempty();
    let s1 = msg_if(
        system.details.proxy.enabled && tls.status != Status::Fail
            && !tls.details.cert.self_signed,
        MSG_PROXY_ON@,
    );
    let s2 = msg_if(
        system.details.clock_skewed && tls.status != Status::Fail,
        MSG_CLOCK_HEAD@ + decimal(abs_nat(offset_or_zero(system))) + MSG_CLOCK_TAIL@,
    );
    let s3 = msg_if(system.details.hosts_override, MSG_HOSTS@);
    assert(all_nonempty(s1) && all_nonempty(s2) && all_nonempty(s3));
    lemma_nonempty_concat(s1, s2);
    lemma_nonempty_concat(s1 + s2, s3);
}

/// Law: every manual action is a nonempty message.
pub proof fn lemma_manual_actions_nonempty(
    dns: DnsModule,
    tcp: TcpModule,
    tls: TlsModule,
    http: HttpModule,
    system: SystemModule,
)
    ensures
        all_nonempty(manual_actions_for(dns, tcp, tls, http, system)),
{
    lemma_texts_nonempty();
    let combos = combo_messages(dns, tcp, tls, http, system);
    let dm = dns_messages(dns, combos);
    let tm = msg_if(tcp.status == Status::Fail, MSG_TCP_FAIL@);
    let tl = tls_messages(tls, system);
    let hm = http_messages(dns, http);
    let sm = system_messages(tls, system);
    lemma_combo_nonempty(dns, tcp, tls, http, system);
    lemma_tls_nonempty(tls, system);
    lemma_http_nonempty(dns, http);
    lemma_system_nonempty(tls, system);
    assert(all_nonempty(dm) && all_nonempty(tm));
    lemma_nonempty_concat(combos, dm);
    lemma_nonempty_concat(combos + dm, tm);
    lemma_nonempty_concat(combos + dm + tm, tl);
    lemma_nonempty_concat(combos + dm + tm + tl, hm);
    lemma_nonempty_concat(combos + dm + tm + tl + hm, sm);
}

/// Every phase passed and nothing anomalous was seen.
pub open spec fn all_clear(
    dns: DnsModule,
    tcp: TcpModule,
    tls: TlsModule,
    http: HttpModule,
    system: SystemModule,
) -> bool {
    &&& dns.status == Status::Pass
    &&& !dns.details.suspected_hijack
    &&& !dns.details.private_ip
    &&& tcp.status == Status::Pass
    &&& tls.status == Status::Pass
    &&& !tls.details.cert.self_signed
    &&& http.status == Status::Pass
    &&& !is_5xx(http)
    &&& !http.details.downgraded
    &&& !http.details.empty_body
    &&& !system.details.proxy.enabled
    &&& !system.details.clock_skewed
    &&& !system.details.hosts_override
}

/// Law: when every phase passes and nothing anomalous was seen, nothing is recommended.
pub proof fn lemma_all_clear_no_actions(
    dns: DnsModule,
    tcp: TcpModule,
    tls: TlsModule,
    http: HttpModule,
    system: SystemModule,
)
    requires
        all_clear(dns, tcp, tls, http, system),
    ensures
        manual_actions_for(dns, tcp, tls, http, system).len() == 0,
        dedup_by_id(quick_actions_requested(dns, tcp, tls, http, system)).len() == 0,
{
    assert(combo_messages(dns, tcp, tls, http, system) =~= seq![]);
    assert(manual_actions_for(dns, tcp, tls, http, system) =~= seq![]);
    assert(quick_actions_requested(dns, tcp, tls, http, system) =~= seq![]);
}

proof fn lemma_has_id_concat(a: Seq<QuickActionView>, b: Seq<QuickActionView>, id: Seq<char>)
    ensures
        has_id(a + b, id) <==> has_id(a, id) || has_id(b, id),
{
    if has_id(a + b, id) {
        let j = choose|j: int| 0 <= j < (a + b).len() && (#[trigger] (a + b)[j]).id == id;
        if j < a.len() {
            assert(a[j] == (a + b)[j]);
        } else {
            assert(b[j - a.len()] == (a + b)[j]);
        }
    }
    if has_id(a, id) {
        let j = choose|j: int| 0 <= j < a.len() && (#[trigger] a[j]).id == id;
        assert((a + b)[j] == a[j]);
    }
    if has_id(b, id) {
        let j = choose|j: int| 0 <= j < b.len() && (#[trigger] b[j]).id == id;
        assert((a + b)[j + a.len()] == b[j]);
    }
}

proof fn lemma_has_id_dedup(s: Seq<QuickActionView>, id: Seq<char>)
    ensures
        has_id(dedup_by_id(s), id) <==> has_id(s, id),
{
    lemma_dedup_keeps_ids(s);
    let d = dedup_by_id(s);
    if has_id(d, id) {
        let k = choose|k: int| 0 <= k < d.len() && (#[trigger] d[k]).id == id;
        assert(s.contains(d[k]));
        let j = choose|j: int| 0 <= j < s.len() && s[j] == d[k];
        assert(s[j].id == id);
    }
    if has_id(s, id) {
        let j = choose|j: int| 0 <= j < s.len() && (#[trigger] s[j]).id == id;
        assert(has_id(d, s[j].id));
    }
}

proof fn lemma_has_id_single(c: bool, q: QuickActionView, id: Seq<char>)
    ensures
        has_id(action_if(c, q), id) <==> c && q.id == id,
{
    if c && q.id == id {
        assert(action_if(c, q)[0] == q);
    }
}

proof fn lemma_has_id_proxy(c: bool, system: SystemModule, id: Seq<char>)
    ensures
        has_id(proxy_action(c, system), id) <==> c && system.details.proxy.settings_uri is Some
            && id == ID_OPEN_PROXY@,
{
    match system.details.proxy.settings_uri {
        Some(u) => lemma_has_id_single(c, qa_proxy(u@), id),
        None => {},
    }
}

proof fn lemma_has_id_pair(s: Seq<QuickActionView>, id: Seq<char>)
    requires
        s.len() == 2,
    ensures
        has_id(s, id) <==> s[0].id == id || s[1].id == id,
{
}

/// Which ids the requested quick actions hold, piece by piece.
proof fn lemma_requested_has_id(
    dns: DnsModule,
    tcp: TcpModule,
    tls: TlsModule,
    http: HttpModule,
    system: SystemModule,
    id: Seq<char>,
)
    ensures
        has_id(dedup_by_id(quick_actions_requested(dns, tcp, tls, http, system)), id) <==> {
            ||| (proxy_intercepts(tls, system) && system.details.proxy.settings_uri is Some
                && id == ID_OPEN_PROXY@)
            ||| (hijack_confirmed(dns, http) && (id == ID_FLUSH_DNS@ || id == ID_OPEN_HOSTS@))
            ||| (clock_breaks_tls(tls, system) && id == ID_OPEN_DATETIME@)
            ||| (dns.status == Status::Fail && id == ID_FLUSH_DNS@)
            ||| (dns.details.private_ip && id == ID_OPEN_HOSTS@)
            ||| (tcp.status == Status::Fail && id == ID_OPEN_NETWORK@)
            ||| (system.details.proxy.enabled && tls.status != Status::Fail
                && !tls.details.cert.self_signed && system.details.proxy.settings_uri is Some
                && id == ID_OPEN_PROXY@)
            ||| (system.details.clock_skewed && tls.status != Status::Fail && id == ID_OPEN_DATETIME@)
            ||| (system.details.hosts_override && id == ID_OPEN_HOSTS@)
        },
{
    let c1 = proxy_intercepts(tls, system);
    let c7 = system.details.proxy.enabled && tls.status != Status::Fail && !tls.details.cert.self_signed;
    let p1 = proxy_action(c1, system);
    let p2: Seq<QuickActionView> = if hijack_confirmed(dns, http) {
        seq![qa_flush_dns(), qa_open_hosts()]
    } else {
        seq![]
    };
    let p3 = action_if(clock_breaks_tls(tls, system), qa_open_datetime());
    let p4 = action_if(dns.status == Status::Fail, qa_flush_dns());
    let p5 = action_if(dns.details.private_ip, qa_open_hosts());
    let p6 = action_if(tcp.status == Status::Fail, qa_open_network());
    let p7 = proxy_action(c7, system);
    let p8 = action_if(system.details.clock_skewed && tls.status != Status::Fail, qa_open_datetime());
    let p9 = action_if(system.details.hosts_override, qa_open_hosts());
    let all = quick_actions_requested(dns, tcp, tls, http, system);
    lemma_has_id_dedup(all, id);
    lemma_has_id_concat(p1, p2, id);
    lemma_has_id_concat(p1 + p2, p3, id);
    lemma_has_id_concat(p1 + p2 + p3, p4, id);
    lemma_has_id_concat(p1 + p2 + p3 + p4, p5, id);
    lemma_has_id_concat(p1 + p2 + p3 + p4 + p5, p6, id);
    lemma_has_id_concat(p1 + p2 + p3 + p4 + p5 + p6, p7, id);
    lemma_has_id_concat(p1 + p2 + p3 + p4 + p5 + p6 + p7, p8, id);
    lemma_has_id_concat(p1 + p2 + p3 + p4 + p5 + p6 + p7 + p8, p9, id);
    lemma_has_id_proxy(c1, system, id);
    lemma_has_id_proxy(c7, system, id);
    if hijack_confirmed(dns, http) {
        lemma_has_id_pair(p2, id);
    }
    lemma_has_id_single(clock_breaks_tls(tls, system), qa_open_datetime(), id);
    lemma_has_id_single(dns.status == Status::Fail, qa_flush_dns(), id);
    lemma_has_id_single(dns.details.private_ip, qa_open_hosts(), id);
    lemma_has_id_single(tcp.status == Status::Fail, qa_open_network(), id);
    lemma_has_id_single(system.details.clock_skewed && tls.status != Status::Fail, qa_open_datetime(), id);
    lemma_has_id_single(system.details.hosts_override, qa_open_hosts(), id);
}

/// The quick-action ids are pairwise distinct texts.
proof fn lemma_ids_distinct()
    ensures
        ID_OPEN_PROXY@ != ID_FLUSH_DNS@,
        ID_OPEN_PROXY@ != ID_OPEN_HOSTS@,
        ID_OPEN_PROXY@ != ID_OPEN_DATETIME@,
        ID_OPEN_PROXY@ != ID_OPEN_NETWORK@,
        ID_FLUSH_DNS@ != ID_OPEN_HOSTS@,
        ID_FLUSH_DNS@ != ID_OPEN_DATETIME@,
        ID_FLUSH_DNS@ != ID_OPEN_NETWORK@,
        ID_OPEN_HOSTS@ != ID_OPEN_DATETIME@,
        ID_OPEN_HOSTS@ != ID_OPEN_NETWORK@,
        ID_OPEN_DATETIME@ != ID_OPEN_NETWORK@,
{
    reveal_strlit("open_proxy");
    reveal_strlit("flush_dns");
    reveal_strlit("open_hosts");
    reveal_strlit("open_datetime");
    reveal_strlit("open_network");
    assert(ID_OPEN_PROXY@[5] != ID_OPEN_HOSTS@[5]);
    assert(ID_OPEN_PROXY@.len() != ID_FLUSH_DNS@.len());
    assert(ID_OPEN_PROXY@.len() != ID_OPEN_DATETIME@.len());
    assert(ID_OPEN_PROXY@.len() != ID_OPEN_NETWORK@.len());
    assert(ID_FLUSH_DNS@.len() != ID_OPEN_HOSTS@.len());
    assert(ID_FLUSH_DNS@.len() != ID_OPEN_DATETIME@.len());
    assert(ID_FLUSH_DNS@.len() != ID_OPEN_NETWORK@.len());
    assert(ID_OPEN_HOSTS@.len() != ID_OPEN_DATETIME@.len());
    assert(ID_OPEN_HOSTS@.len() != ID_OPEN_NETWORK@.len());
    assert(ID_OPEN_DATETIME@.len() != ID_OPEN_NETWORK@.len());
}

/// Law: which quick actions are recommended. Opening the network status: exactly when TCP
/// failed. Opening the date and time settings: exactly when the clock is skewed. Opening the
/// proxy settings: exactly when a proxy is on and the platform has a settings URI. Flushing
/// the DNS cache: exactly when DNS failed or a suspected hijack comes with an HTTP anomaly.
/// Opening the hosts file: exactly on such a hijack, a private resolved address or a hosts
/// override.
pub proof fn lemma_quick_action_triggers(
    dns: DnsModule,
    tcp: TcpModule,
    tls: TlsModule,
    http: HttpModule,
    system: SystemModule,
)
    ensures
        has_id(dedup_by_id(quick_actions_requested(dns, tcp, tls, http, system)), ID_OPEN_NETWORK@)
            <==> tcp.status == Status::Fail,
        has_id(dedup_by_id(quick_actions_requested(dns, tcp, tls, http, system)), ID_OPEN_DATETIME@)
            <==> system.details.clock_skewed,
        has_id(dedup_by_id(quick_actions_requested(dns, tcp, tls, http, system)), ID_OPEN_PROXY@)
            <==> system.details.proxy.enabled && system.details.proxy.settings_uri is Some,
        has_id(dedup_by_id(quick_actions_requested(dns, tcp, tls, http, system)), ID_FLUSH_DNS@)
            <==> hijack_confirmed(dns, http) || dns.status == Status::Fail,
        has_id(dedup_by_id(quick_actions_requested(dns, tcp, tls, http, system)), ID_OPEN_HOSTS@)
            <==> hijack_confirmed(dns, http) || dns.details.private_ip || system.details.hosts_override,
{
    lemma_ids_distinct();
    lemma_requested_has_id(dns, tcp, tls, http, system, ID_OPEN_NETWORK@);
    lemma_requested_has_id(dns, tcp, tls, http, system, ID_OPEN_DATETIME@);
    lemma_requested_has_id(dns, tcp, tls, http, system, ID_OPEN_PROXY@);
    lemma_requested_has_id(dns, tcp, tls, http, system, ID_FLUSH_DNS@);
    lemma_requested_has_id(dns, tcp, tls, http, system, ID_OPEN_HOSTS@);
}

/// Law: a failed DNS, TCP or TLS phase, or a failed HTTP phase over a working TCP
/// connection, always comes with at least one manual action.
pub proof fn lemma_failures_have_actions(
    dns: DnsModule,
    tcp: TcpModule,
    tls: TlsModule,
    http: HttpModule,
    system: SystemModule,
)
    requires
        dns.status == Status::Fail || tcp.status == Status::Fail || tls.status == Status::Fail || (
        http.status == Status::Fail && tcp.status == Status::Pass),
    ensures
        manual_actions_for(dns, tcp, tls, http, system).len() > 0,
{
    let combos = combo_messages(dns, tcp, tls, http, system);
    let dm = dns_messages(dns, combos);
    let tm = msg_if(tcp.status == Status::Fail, MSG_TCP_FAIL@);
    let tl = tls_messages(tls, system);
    let hm = http_messages(dns, http);
    let sm = system_messages(tls, system);
    assert(manual_actions_for(dns, tcp, tls, http, system).len() == combos.len() + dm.len() + tm.len()
        + tl.len() + hm.len() + sm.len());
    if combos.len() == 0 {
        assert(!proxy_intercepts(tls, system));
        assert(!hijack_confirmed(dns, http));
        assert(server_error(tcp, http) is None);
        assert(!clock_breaks_tls(tls, system));
        if dns.status == Status::Fail {
            assert(dm.len() == 1);
        } else if tcp.status == Status::Fail {
            assert(tm.len() == 1);
        } else if tls.status == Status::Fail {
            assert(tl.len() > 0);
        } else {
            assert(hm.len() > 0);
        }
    }
}

proof fn lemma_in_concat(a: Seq<Seq<char>>, b: Seq<Seq<char>>)
    ensures
        forall|x: Seq<char>| a.contains(x) || b.contains(x) ==> #[trigger] (a + b).contains(x),
{
    assert forall|x: Seq<char>| a.contains(x) || b.contains(x) implies #[trigger] (a + b).contains(x) by {
        if a.contains(x) {
            let i = choose|i: int| 0 <= i < a.len() && a[i] == x;
            assert((a + b)[i] == a[i]);
        } else {
            let i = choose|i: int| 0 <= i < b.len() && b[i] == x;
            assert((a + b)[a.len() + i] == b[i]);
        }
    }
}

proof fn lemma_in_msg_if(c: bool, m: Seq<char>)
    ensures
        c ==> msg_if(c, m).contains(m),
{
    if c {
        assert(msg_if(c, m)[0] == m);
    }
}

proof fn lemma_combo_triggers(dns: DnsModule, tcp: TcpModule, tls: TlsModule, http: HttpModule, system: SystemModule)
    ensures
        ({
            let m = combo_messages(dns, tcp, tls, http, system);
            &&& proxy_intercepts(tls, system) ==> m.contains(MSG_PROXY_MITM@)
            &&& hijack_confirmed(dns, http) ==> m.contains(MSG_DNS_HIJACK_HTTP@)
            &&& server_error(tcp, http) is Some ==> m.contains(
                MSG_SERVER_ERROR_HEAD@ + decimal(http.details.status_code.unwrap() as nat)
                    + MSG_SERVER_ERROR_TAIL@,
            )
            &&& clock_breaks_tls(tls, system) ==> m.contains(
                MSG_CLOCK_HEAD@ + decimal(abs_nat(offset_or_zero(system))) + MSG_CLOCK_TLS_TAIL@,
            )
        }),
{
    let k1 = msg_if(proxy_intercepts(tls, system), MSG_PROXY_MITM@);
    let k2 = msg_if(hijack_confirmed(dns, http), MSG_DNS_HIJACK_HTTP@);
    let k3: Seq<Seq<char>> = match server_error(tcp, http) {
        Some(code) => seq![MSG_SERVER_ERROR_HEAD@ + decimal(code as nat) + MSG_SERVER_ERROR_TAIL@],
        None => seq![],
    };
    let k4 = msg_if(
        clock_breaks_tls(tls, system),
        MSG_CLOCK_HEAD@ + decimal(abs_nat(offset_or_zero(system))) + MSG_CLOCK_TLS_TAIL@,
    );
    lemma_in_concat(k1, k2);
    lemma_in_concat(k1 + k2, k3);
    lemma_in_concat(k1 + k2 + k3, k4);
    lemma_in_msg_if(proxy_intercepts(tls, system), MSG_PROXY_MITM@);
    lemma_in_msg_if(hijack_confirmed(dns, http), MSG_DNS_HIJACK_HTTP@);
    if server_error(tcp, http) is Some {
        assert(k3[0] == MSG_SERVER_ERROR_HEAD@ + decimal(http.details.status_code.unwrap() as nat)
            + MSG_SERVER_ERROR_TAIL@);
    }
    lemma_in_msg_if(
        clock_breaks_tls(tls, system),
        MSG_CLOCK_HEAD@ + decimal(abs_nat(offset_or_zero(system))) + MSG_CLOCK_TLS_TAIL@,
    );
}

proof fn lemma_tls_triggers(tls: TlsModule, system: SystemModule)
    ensures
        ({
            let m = tls_messages(tls, system);
            let c = tls.details.cert;
            let tls_bad = tls.status == Status::Fail || tls.status == Status::Warn;
            &&& tls_bad && c.expired ==> m.contains(MSG_CERT_EXPIRED@)
            &&& tls_bad && c.domain_mismatch ==> m.contains(MSG_CERT_MISMATCH@)
            &&& tls_bad && c.self_signed && !system.details.proxy.enabled ==> m.contains(
                MSG_CERT_SELF_SIGNED@,
            )
            &&& tls_bad && c.expiring_soon ==> m.contains(
                MSG_CERT_EXPIRING_HEAD@ + signed_decimal(
                    match c.days_remaining {
                        Some(d) => d as int,
                        None => 0,
                    },
                ) + MSG_CERT_EXPIRING_TAIL@,
            )
            &&& tls_bad && c.chain_incomplete && !c.self_signed ==> m.contains(MSG_CERT_CHAIN@)
            &&& tls.status == Status::Fail && !c.expired && !c.domain_mismatch && !c.self_signed
                && !system.details.clock_skewed ==> m.contains(MSG_TLS_HANDSHAKE@)
        }),
{
    let c = tls.details.cert;
    let t1 = msg_if(c.expired, MSG_CERT_EXPIRED@);
    let t2 = msg_if(c.domain_mismatch, MSG_CERT_MISMATCH@);
    let t3 = msg_if(c.self_signed && !system.details.proxy.enabled, MSG_CERT_SELF_SIGNED@);
    let expiring = MSG_CERT_EXPIRING_HEAD@ + signed_decimal(
        match c.days_remaining {
            Some(d) => d as int,
            None => 0,
        },
    ) + MSG_CERT_EXPIRING_TAIL@;
    let t4 = msg_if(c.expiring_soon, expiring);
    let t5 = msg_if(c.chain_incomplete && !c.self_signed, MSG_CERT_CHAIN@);
    let t6 = msg_if(
        !c.expired && !c.domain_mismatch && !c.self_signed && !system.details.clock_skewed
            && tls.status == Status::Fail,
        MSG_TLS_HANDSHAKE@,
    );
    lemma_in_concat(t1, t2);
    lemma_in_concat(t1 + t2, t3);
    lemma_in_concat(t1 + t2 + t3, t4);
    lemma_in_concat(t1 + t2 + t3 + t4, t5);
    lemma_in_concat(t1 + t2 + t3 + t4 + t5, t6);
    lemma_in_msg_if(c.expired, MSG_CERT_EXPIRED@);
    lemma_in_msg_if(c.domain_mismatch, MSG_CERT_MISMATCH@);
    lemma_in_msg_if(c.self_signed && !system.details.proxy.enabled, MSG_CERT_SELF_SIGNED@);
    lemma_in_msg_if(c.expiring_soon, expiring);
    lemma_in_msg_if(c.chain_incomplete && !c.self_signed, MSG_CERT_CHAIN@);
    lemma_in_msg_if(
        !c.expired && !c.domain_mismatch && !c.self_signed && !system.details.clock_skewed
            && tls.status == Status::Fail,
        MSG_TLS_HANDSHAKE@,
    );
}

proof fn lemma_http_triggers(dns: DnsModule, http: HttpModule)
    ensures
        ({
            let m = http_messages(dns, http);
            &&& http.status == Status::Fail && !dns.details.suspected_hijack && !is_5xx(http)
                ==> m.contains(MSG_HTTP_FAIL@)
            &&& (http.status == Status::Warn && http.details.status_code is Some) ==> m.contains(
                MSG_HTTP_CODE_HEAD@ + decimal(http.details.status_code.unwrap() as nat)
                    + MSG_HTTP_CODE_TAIL@,
            )
            &&& http.details.downgraded && !dns.details.suspected_hijack ==> m.contains(
                MSG_HTTP_DOWNGRADE@,
            )
            &&& http.details.empty_body && http.status == Status::Pass ==> m.contains(MSG_HTTP_EMPTY@)
        }),
{
    let h1 = msg_if(
        http.status == Status::Fail && !dns.details.suspected_hijack && !is_5xx(http),
        MSG_HTTP_FAIL@,
    );
    let h2: Seq<Seq<char>> = match http.details.status_code {
        Some(code) => msg_if(
            http.status == Status::Warn,
            MSG_HTTP_CODE_HEAD@ + decimal(code as nat) + MSG_HTTP_CODE_TAIL@,
        ),
        None => seq![],
    };
    let h3 = msg_if(http.details.downgraded && !dns.details.suspected_hijack, MSG_HTTP_DOWNGRADE@);
    let h4 = msg_if(http.details.empty_body && http.status == Status::Pass, MSG_HTTP_EMPTY@);
    lemma_in_concat(h1, h2);
    lemma_in_concat(h1 + h2, h3);
    lemma_in_concat(h1 + h2 + h3, h4);
    lemma_in_msg_if(
        http.status == Status::Fail && !dns.details.suspected_hijack && !is_5xx(http),
        MSG_HTTP_FAIL@,
    );
    if http.status == Status::Warn && http.details.status_code is Some {
        lemma_in_msg_if(
            true,
            MSG_HTTP_CODE_HEAD@ + decimal(http.details.status_code.unwrap() as nat) + MSG_HTTP_CODE_TAIL@,
        );
    }
    lemma_in_msg_if(http.details.downgraded && !dns.details.suspected_hijack, MSG_HTTP_DOWNGRADE@);
    lemma_in_msg_if(http.details.empty_body && http.status == Status::Pass, MSG_HTTP_EMPTY@);
}

proof fn lemma_system_triggers(tls: TlsModule, system: SystemModule)
    ensures
        ({
            let m = system_messages(tls, system);
            &&& system.details.proxy.enabled && tls.status != Status::Fail && !tls.details.cert.self_signed
                ==> m.contains(MSG_PROXY_ON@)
            &&& system.details.clock_skewed && tls.status != Status::Fail ==> m.contains(
                MSG_CLOCK_HEAD@ + decimal(abs_nat(offset_or_zero(system))) + MSG_CLOCK_TAIL@,
            )
            &&& system.details.hosts_override ==> m.contains(MSG_HOSTS@)
        }),
{
    let s1 = msg_if(
        system.details.proxy.enabled && tls.status != Status::Fail && !tls.details.cert.self_signed,
        MSG_PROXY_ON@,
    );
    let s2 = msg_if(
        system.details.clock_skewed && tls.status != Status::Fail,
        MSG_CLOCK_HEAD@ + decimal(abs_nat(offset_or_zero(system))) + MSG_CLOCK_TAIL@,
    );
    let s3 = msg_if(system.details.hosts_override, MSG_HOSTS@);
    lemma_in_concat(s1, s2);
    lemma_in_concat(s1 + s2, s3);
    lemma_in_msg_if(
        system.details.proxy.enabled && tls.status != Status::Fail && !tls.details.cert.self_signed,
        MSG_PROXY_ON@,
    );
    lemma_in_msg_if(
        system.details.clock_skewed && tls.status != Status::Fail,
        MSG_CLOCK_HEAD@ + decimal(abs_nat(offset_or_zero(system))) + MSG_CLOCK_TAIL@,
    );
    lemma_in_msg_if(system.details.hosts_override, MSG_HOSTS@);
}

/// Law: what each finding makes the manual actions say. A proxy with a TLS anomaly, a
/// suspected hijack with an HTTP anomaly, a 5xx status over a working connection and a
/// skewed clock with a failed handshake each give their combined diagnosis; a failed DNS or
/// TCP phase its own advice; a failed or warned TLS phase one message per certificate
/// problem; a failed request, a 4xx status, an HTTPS-to-HTTP downgrade and an empty body
/// theirs (a downgrade or failure under a suspected hijack is covered by the hijack
/// diagnosis); and a proxy, a skewed clock and a hosts override theirs.
pub proof fn lemma_manual_triggers(
    dns: DnsModule,
    tcp: TcpModule,
    tls: TlsModule,
    http: HttpModule,
    system: SystemModule,
)
    ensures
        ({
            let m = manual_actions_for(dns, tcp, tls, http, system);
            let c = tls.details.cert;
            let tls_bad = tls.status == Status::Fail || tls.status == Status::Warn;
            &&& system.details.proxy.enabled && (tls.status == Status::Fail || c.self_signed)
                ==> m.contains(MSG_PROXY_MITM@)
            &&& dns.details.suspected_hijack && (http.status == Status::Fail || http.details.downgraded
                || http.details.empty_body) ==> m.contains(MSG_DNS_HIJACK_HTTP@)
            &&& (tcp.status == Status::Pass && http.details.status_code is Some
                && http.details.status_code.unwrap() >= 500)
                ==> m.contains(MSG_SERVER_ERROR_HEAD@ + decimal(http.details.status_code.unwrap() as nat)
                + MSG_SERVER_ERROR_TAIL@)
            &&& system.details.clock_skewed && tls.status == Status::Fail ==> m.contains(
                MSG_CLOCK_HEAD@ + decimal(abs_nat(offset_or_zero(system))) + MSG_CLOCK_TLS_TAIL@,
            )
            &&& dns.status == Status::Fail ==> m.contains(MSG_DNS_FAIL@)
            &&& tcp.status == Status::Fail ==> m.contains(MSG_TCP_FAIL@)
            &&& tls_bad && c.expired ==> m.contains(MSG_CERT_EXPIRED@)
            &&& tls_bad && c.domain_mismatch ==> m.contains(MSG_CERT_MISMATCH@)
            &&& tls_bad && c.self_signed && !system.details.proxy.enabled ==> m.contains(
                MSG_CERT_SELF_SIGNED@,
            )
            &&& tls_bad && c.expiring_soon ==> m.contains(
                MSG_CERT_EXPIRING_HEAD@ + signed_decimal(
                    match c.days_remaining {
                        Some(d) => d as int,
                        None => 0,
                    },
                ) + MSG_CERT_EXPIRING_TAIL@,
            )
            &&& tls_bad && c.chain_incomplete && !c.self_signed ==> m.contains(MSG_CERT_CHAIN@)
            &&& tls.status == Status::Fail && !c.expired && !c.domain_mismatch && !c.self_signed
                && !system.details.clock_skewed ==> m.contains(MSG_TLS_HANDSHAKE@)
            &&& http.status == Status::Fail && !dns.details.suspected_hijack && !is_5xx(http)
                ==> m.contains(MSG_HTTP_FAIL@)
            &&& (http.status == Status::Warn && http.details.status_code is Some) ==> m.contains(
                MSG_HTTP_CODE_HEAD@ + decimal(http.details.status_code.unwrap() as nat)
                    + MSG_HTTP_CODE_TAIL@,
            )
            &&& http.details.downgraded && !dns.details.suspected_hijack ==> m.contains(
                MSG_HTTP_DOWNGRADE@,
            )
            &&& http.details.empty_body && http.status == Status::Pass ==> m.contains(MSG_HTTP_EMPTY@)
            &&& system.details.proxy.enabled && tls.status != Status::Fail && !c.self_signed
                ==> m.contains(MSG_PROXY_ON@)
            &&& system.details.clock_skewed && tls.status != Status::Fail ==> m.contains(
                MSG_CLOCK_HEAD@ + decimal(abs_nat(offset_or_zero(system))) + MSG_CLOCK_TAIL@,
            )
            &&& system.details.hosts_override ==> m.contains(MSG_HOSTS@)
        }),
{
    let combos = combo_messages(dns, tcp, tls, http, system);
    let dm = dns_messages(dns, combos);
    let tm = msg_if(tcp.status == Status::Fail, MSG_TCP_FAIL@);
    let tl = tls_messages(tls, system);
    let hm = http_messages(dns, http);
    let sm = system_messages(tls, system);
    lemma_combo_triggers(dns, tcp, tls, http, system);
    lemma_tls_triggers(tls, system);
    lemma_http_triggers(dns, http);
    lemma_system_triggers(tls, system);
    if dns.status == Status::Fail {
        assert(dm[0] == MSG_DNS_FAIL@);
    }
    lemma_in_msg_if(tcp.status == Status::Fail, MSG_TCP_FAIL@);
    lemma_in_concat(combos, dm);
    lemma_in_concat(combos + dm, tm);
    lemma_in_concat(combos + dm + tm, tl);
    lemma_in_concat(combos + dm + tm + tl, hm);
    lemma_in_concat(combos + dm + tm + tl + hm, sm);
}

} // verus!
