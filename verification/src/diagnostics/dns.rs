//! The DNS phase: from the addresses a lookup returned to the phase result.
use vstd::prelude::*;
use super::result::{opt_text, DnsDetails, DnsModule, DnsRecord, Severity, Status};
use super::text::{
    all_digits, chars_of, contains, deep, digits_value, is_digit, owned, split_char, split_on,
};

verus! {

/// The value of one decimal octet: one to three digits, at most 255.
pub open spec fn octet_value(s: Seq<char>) -> Option<int> {
    if 1 <= s.len() <= 3 && all_digits(s) && digits_value(s) <= 255 {
        Some(digits_value(s))
    } else {
        None
    }
}

/// The four octets of a dotted-quad IPv4 address, `None` for any other text.
pub open spec fn ipv4_octets(ip: Seq<char>) -> Option<(int, int, int, int)> {
    let parts = split_on(ip, '.');
    if parts.len() == 4 && octet_value(parts[0]) is Some && octet_value(parts[1]) is Some
        && octet_value(parts[2]) is Some && octet_value(parts[3]) is Some {
        Some(
            (
                octet_value(parts[0]).unwrap(),
                octet_value(parts[1]).unwrap(),
                octet_value(parts[2]).unwrap(),
                octet_value(parts[3]).unwrap(),
            ),
        )
    } else {
        None
    }
}

/// A dotted-quad IPv4 address in 10.0.0.0/8, 172.16.0.0/12, 192.168.0.0/16 or the loopback
/// range 127.0.0.0/8.
pub open spec fn private_ip_text(ip: Seq<char>) -> bool {
    match ipv4_octets(ip) {
        Some((a, b, _c, _d)) => a == 10 || (a == 172 && 16 <= b <= 31) || (a == 192 && b == 168)
            || a == 127,
        None => false,
    }
}

/// A bound on the value of `i` decimal digits, for `i` up to 3.
spec fn octet_bound(i: int) -> int {
    if i == 0 {
        1
    } else if i == 1 {
        10
    } else if i == 2 {
        100
    } else {
        1000
    }
}

/// The value of a decimal octet.
fn octet(v: &Vec<char>) -> (r: Option<u64>)
    ensures
        r is None <==> octet_value(v@) is None,
        r matches Some(x) ==> octet_value(v@) == Some(x as int),
{
    if v.len() == 0 || v.len() > 3 {
        return None;
    }
    let mut value: u64 = 0;
    let mut i: usize = 0;
    while i < v.len()
        invariant
            1 <= v.len() <= 3,
            i <= v.len(),
            all_digits(v@.take(i as int)),
            value == digits_value(v@.take(i as int)),
            value < octet_bound(i as int),
        decreases v.len() - i,
    {
        let c = v[i];
        if !('0' <= c && c <= '9') {
            assert(!all_digits(v@)) by {
                assert(!is_digit(v@[i as int]));
            }
            return None;
        }
        assert(v@.take(i as int + 1).drop_last() =~= v@.take(i as int));
        assert(all_digits(v@.take(i as int + 1))) by {
            assert forall|k: int| 0 <= k < i + 1 implies is_digit(#[trigger] v@.take(i as int + 1)[k]) by {
                if k < i {
                    assert(v@.take(i as int + 1)[k] == v@.take(i as int)[k]);
                }
            }
        }
        value = value * 10 + (c as u64 - '0' as u64);
        i = i + 1;
    }
    assert(v@.take(v@.len() as int) =~= v@);
    if value <= 255 {
        Some(value)
    } else {
        None
    }
}

/// Whether a textual IPv4 address lies in a private or loopback range.
pub fn is_private_ip(ip: &str) -> (r: bool)
    ensures
        r == private_ip_text(ip@),
{
    let parts = split_char(&chars_of(ip), '.');
    let ghost sp = split_on(ip@, '.');
    assert(deep(parts@) =~= sp);
    if parts.len() != 4 {
        return false;
    }
    assert(parts@[0]@ == sp[0] && parts@[1]@ == sp[1] && parts@[2]@ == sp[2] && parts@[3]@ == sp[3]);
    let a = match octet(&parts[0]) {
        Some(x) => x,
        None => return false,
    };
    let b = match octet(&parts[1]) {
        Some(x) => x,
        None => return false,
    };
    let c = octet(&parts[2]);
    let d = octet(&parts[3]);
    if c.is_none() || d.is_none() {
        return false;
    }
    assert(octet_value(sp[0]) == Some(a as int));
    assert(octet_value(sp[1]) == Some(b as int));
    assert(octet_value(sp[2]) is Some);
    assert(octet_value(sp[3]) is Some);
    assert(ipv4_octets(ip@).unwrap().0 == a && ipv4_octets(ip@).unwrap().1 == b);
    a == 10 || (a == 172 && 16 <= b && b <= 31) || (a == 192 && b == 168) || a == 127
}

/// What the resolver gave for the domain.
#[derive(Debug, Clone)]
pub enum DnsLookup {
    /// No resolver could be built; the resolver's error text.
    ResolverUnavailable(String),
    /// The lookup failed; the resolver's error text.
    Failed(String),
    /// The addresses found, in the resolver's order, as text.
    Resolved(Vec<String>),
}

pub struct DnsRecordView {
    pub record_type: Seq<char>,
    pub value: Seq<char>,
    pub ttl: u32,
}

impl View for DnsRecord {
    type V = DnsRecordView;

    open spec fn view(&self) -> DnsRecordView {
        DnsRecordView { record_type: self.record_type@, value: self.value@, ttl: self.ttl }
    }
}

/// The record for a resolved address: `AAAA` for IPv6 text (holding `:`), else `A`;
/// the lookup reports no TTL, so it is 0.
pub open spec fn record_for(ip: Seq<char>) -> DnsRecordView {
    DnsRecordView {
        record_type: if ip.contains(':') {
            "AAAA"@
        } else {
            "A"@
        },
        value: ip,
        ttl: 0,
    }
}

pub open spec fn failed_dns(r: DnsModule, duration_ms: u64, error: Seq<char>) -> bool {
    &&& r.status == Status::Fail
    &&& r.severity == Severity::Fail
    &&& r.duration_ms == duration_ms
    &&& opt_text(r.error) == Some(error)
    &&& r.details.records@.len() == 0
    &&& !r.details.resolved
    &&& r.details.resolved_ip is None
    &&& !r.details.suspected_hijack
    &&& !r.details.private_ip
}

/// The DNS phase result for a lookup outcome.
pub open spec fn dns_module_spec(lookup: DnsLookup, duration_ms: u64, r: DnsModule) -> bool {
    match lookup {
        DnsLookup::ResolverUnavailable(e) => failed_dns(
            r,
            duration_ms,
            "Failed to create DNS resolver: "@ + e@,
        ),
        DnsLookup::Failed(e) => failed_dns(r, duration_ms, "DNS resolution failed: "@ + e@),
        DnsLookup::Resolved(ips) => if ips@.len() == 0 {
            failed_dns(r, duration_ms, "No DNS records found"@)
        } else {
            &&& r.status == Status::Pass
            &&& r.severity == Severity::Info
            &&& r.duration_ms == duration_ms
            &&& r.error is None
            &&& r.details.records@.len() == ips@.len()
            &&& forall|i: int|
                0 <= i < ips@.len() ==> (#[trigger] r.details.records@[i])@ == record_for(ips@[i]@)
            &&& r.details.resolved
            &&& opt_text(r.details.resolved_ip) == Some(ips@[0]@)
            &&& !r.details.suspected_hijack
            &&& r.details.private_ip == private_ip_text(ips@[0]@)
        },
    }
}

fn failed(duration_ms: u64, error: String) -> (r: DnsModule)
    ensures
        failed_dns(r, duration_ms, error@),
{
    DnsModule {
        status: Status::Fail,
        severity: Severity::Fail,
        duration_ms,
        error: Some(error),
        details: DnsDetails {
            records: Vec::new(),
            resolved: false,
            resolved_ip: None,
            suspected_hijack: false,
            private_ip: false,
        },
    }
}

fn prefixed(head: &str, tail: &str) -> (r: String)
    ensures
        r@ == head@ + tail@,
{
    let mut r = owned(head);
    r.append(tail);
    r
}

fn record_of(ip: &String) -> (r: DnsRecord)
    ensures
        r@ == record_for(ip@),
{
    proof {
        reveal_strlit(":");
        assert(ip@.contains(':') == super::text::seq_contains(ip@, ":"@)) by {
            if ip@.contains(':') {
                let k = choose|k: int| 0 <= k < ip@.len() && ip@[k] == ':';
                assert(ip@.subrange(k, k + 1) =~= ":"@);
            }
            if super::text::seq_contains(ip@, ":"@) {
                let k = choose|k: int| 0 <= k <= ip@.len() - 1 && #[trigger] ip@.subrange(k, k + 1) == ":"@;
                assert(ip@.subrange(k, k + 1)[0] == ip@[k]);
            }
        }
    }
    let record_type = if contains(ip.as_str(), ":") {
        owned("AAAA")
    } else {
        owned("A")
    };
    DnsRecord { record_type, value: ip.clone(), ttl: 0 }
}

/// The DNS phase result for what the resolver gave.
pub fn dns_module(lookup: DnsLookup, duration_ms: u64) -> (r: DnsModule)
    ensures
        dns_module_spec(lookup, duration_ms, r),
{
    let ips = match lookup {
        DnsLookup::ResolverUnavailable(e) => {
            return failed(duration_ms, prefixed("Failed to create DNS resolver: ", e.as_str()));
        },
        DnsLookup::Failed(e) => {
            return failed(duration_ms, prefixed("DNS resolution failed: ", e.as_str()));
        },
        DnsLookup::Resolved(ips) => ips,
    };
    if ips.len() == 0 {
        return failed(duration_ms, owned("No DNS records found"));
    }
    let resolved_ip = ips[0].clone();
    let private_ip = is_private_ip(resolved_ip.as_str());
    let mut records: Vec<DnsRecord> = Vec::new();
    let mut i: usize = 0;
    while i < ips.len()
        invariant
            i <= ips.len(),
            records@.len() == i,
            forall|k: int| 0 <= k < i ==> (#[trigger] records@[k])@ == record_for(ips@[k]@),
        decreases ips.len() - i,
    {
        records.push(record_of(&ips[i]));
        i = i + 1;
    }
    DnsModule {
        status: Status::Pass,
        severity: Severity::Info,
        duration_ms,
        error: None,
        details: DnsDetails {
            records,
            resolved: true,
            resolved_ip: Some(resolved_ip),
            suspected_hijack: false,
            private_ip,
        },
    }
}

} // verus!
