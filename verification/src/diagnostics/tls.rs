//! The TLS phase: certificate facts and the phase result of a handshake.
use vstd::prelude::*;
use super::calendar::unix_time_secs;
use super::result::{opt_text, severity_of, CertInfo, Severity, Status, TlsDetails, TlsModule};
use super::text::{contains, owned, seq_contains};

verus! {

/// Whether `rustls::pki_types::ServerName::try_from` accepts the text as a DNS name or an
/// IP address.
pub uninterp spec fn server_name_accepted(domain: Seq<char>) -> bool;

/// `ServerName::try_from(domain.to_string())`: `None` where it accepts the name, else the
/// `Display` text of its error, `invalid dns name`.
#[verifier::external_body]
fn server_name_error(domain: &str) -> (r: Option<String>)
    ensures
        r is None <==> server_name_accepted(domain@),
        r matches Some(e) ==> e@ == "invalid dns name"@,
{
    match rustls::pki_types::ServerName::try_from(domain.to_string()) {
        Ok(_) => None,
        Err(e) => Some(e.to_string()),
    }
}

/// What `x509_parser::parse_x509_certificate` reads from DER bytes: `None` where they are no
/// certificate; else the `Display` texts of `not_before` and `not_after`, their Unix
/// timestamps, the `Display` texts of issuer and subject, whether the two names are equal,
/// and the `Display` texts of the subject alternative names (none where the extension is
/// absent or unreadable).
pub uninterp spec fn x509_fields(der: Seq<u8>) -> Option<(Seq<char>, Seq<char>, i64, i64, Seq<char>, Seq<char>, bool, Seq<Seq<char>>)>;

pub open spec fn texts(v: Seq<String>) -> Seq<Seq<char>> {
    v.map_values(|s: String| s@)
}

/// The fields of a certificate that the checks read.
struct X509Fields {
    not_before: String,
    not_after: String,
    not_before_ts: i64,
    not_after_ts: i64,
    issuer: String,
    subject: String,
    same_names: bool,
    alt_names: Vec<String>,
}

/// Parse a DER certificate with `x509_parser` and read its validity period and names.
#[verifier::external_body]
fn read_certificate(der: &[u8]) -> (r: Option<X509Fields>)
    ensures
        x509_fields(der@) == match r {
            Some(f) => Some(
                (
                    f.not_before@,
                    f.not_after@,
                    f.not_before_ts,
                    f.not_after_ts,
                    f.issuer@,
                    f.subject@,
                    f.same_names,
                    texts(f.alt_names@),
                ),
            ),
            None => None,
        },
{
    let (_, cert) = x509_parser::parse_x509_certificate(der).ok()?;
    let v = cert.validity();
    let alt_names = match cert.subject_alternative_name() {
        Ok(Some(ext)) => ext.value.general_names.iter().map(|n| format!("{}", n)).collect(),
        _ => Vec::new(),
    };
    Some(X509Fields {
        not_before: v.not_before.to_string(), not_after: v.not_after.to_string(),
        not_before_ts: v.not_before.timestamp(), not_after_ts: v.not_after.timestamp(),
        issuer: cert.issuer().to_string(), subject: cert.subject().to_string(),
        same_names: cert.issuer() == cert.subject(), alt_names,
    })
}

/// Some subject alternative name mentions the domain.
pub open spec fn san_mentions(names: Seq<Seq<char>>, domain: Seq<char>) -> bool {
    exists|i: int| 0 <= i < names.len() && seq_contains(#[trigger] names[i], domain)
}

/// The certificate facts for the leaf certificate `der` of a chain of `chain_len`
/// certificates, checked against `domain` at Unix time `now`. The certificate is valid when
/// it has not expired, names the domain, comes with a chain of at least two certificates and
/// is already in force.
pub open spec fn cert_info_at(domain: Seq<char>, der: Seq<u8>, chain_len: nat, now: int, c: CertInfo) -> bool {
    let (not_before, not_after, not_before_ts, not_after_ts, issuer, subject, same_names, san) =
        x509_fields(der).unwrap();
    let expired = not_after_ts < now;
    let days = if not_after_ts > now {
        (not_after_ts - now) / 86400
    } else {
        0
    };
    let matched = seq_contains(subject, domain) || san_mentions(san, domain);
    &&& c.expired == expired
    &&& c.days_remaining == Some(days as i64)
    &&& c.expiring_soon == (0 < days <= 30)
    &&& c.domain_mismatch == !matched
    &&& c.self_signed == same_names
    &&& c.chain_incomplete == (chain_len < 2)
    &&& c.valid == (!expired && matched && chain_len >= 2 && not_before_ts <= now)
    &&& opt_text(c.issuer) == Some(issuer)
    &&& opt_text(c.subject) == Some(subject)
    &&& opt_text(c.not_before) == Some(not_before)
    &&& opt_text(c.not_after) == Some(not_after)
}

/// The certificate facts of a peer chain (leaf first): empty without a readable leaf,
/// else those of the leaf at some moment of the wall clock.
pub open spec fn extracted_cert(domain: Seq<char>, peer_certs: Option<Seq<Vec<u8>>>, c: CertInfo) -> bool {
    match peer_certs {
        Some(certs) => if certs.len() > 0 && x509_fields(certs[0]@) is Some {
            exists|now: int| i64::MIN <= now <= i64::MAX && #[trigger] cert_info_at(domain, certs[0]@, certs.len(), now, c)
        } else {
            c.is_empty_cert()
        },
        None => c.is_empty_cert(),
    }
}

fn any_mentions(names: &Vec<String>, domain: &str) -> (r: bool)
    ensures
        r == san_mentions(texts(names@), domain@),
{
    let mut i: usize = 0;
    while i < names.len()
        invariant
            i <= names.len(),
            forall|k: int| 0 <= k < i ==> !seq_contains(#[trigger] texts(names@)[k], domain@),
        decreases names.len() - i,
    {
        if contains(names[i].as_str(), domain) {
            assert(seq_contains(texts(names@)[i as int], domain@));
            return true;
        }
        i = i + 1;
    }
    false
}

/// Certificate facts for the leaf `der` of a chain of `chain_len` certificates at Unix time
/// `now`; `None` where the leaf cannot be parsed.
pub fn cert_info_from(domain: &str, der: &[u8], chain_len: usize, now: i64) -> (r: Option<CertInfo>)
    ensures
        r is Some <==> x509_fields(der@) is Some,
        r matches Some(c) ==> cert_info_at(domain@, der@, chain_len as nat, now as int, c),
{
    let fields = match read_certificate(der) {
        Some(f) => f,
        None => return None,
    };
    let X509Fields {
        not_before,
        not_after,
        not_before_ts,
        not_after_ts,
        issuer,
        subject,
        same_names,
        alt_names: san,
    } = fields;
    let expired = not_after_ts < now;
    let days: i64 = if not_after_ts > now {
        ((not_after_ts as i128 - now as i128) / 86400) as i64
    } else {
        0
    };
    let expiring_soon = days <= 30 && days > 0;
    let domain_matched = contains(subject.as_str(), domain) || any_mentions(&san, domain);
    let valid = !expired && domain_matched && chain_len >= 2 && not_before_ts <= now;
    Some(CertInfo {
        valid,
        expired,
        expiring_soon,
        days_remaining: Some(days),
        domain_mismatch: !domain_matched,
        chain_incomplete: chain_len < 2,
        self_signed: same_names,
        issuer: Some(issuer),
        subject: Some(subject),
        not_before: Some(not_before),
        not_after: Some(not_after),
    })
}

/// Certificate facts of the peer's chain (leaf first), checked against the domain at the
/// current wall-clock time.
pub fn extract_cert_info(domain: &str, peer_certs: Option<&Vec<Vec<u8>>>) -> (r: CertInfo)
    ensures
        extracted_cert(
            domain@,
            match peer_certs {
                Some(c) => Some(c@),
                None => None,
            },
            r,
        ),
{
    let certs = match peer_certs {
        Some(c) => if c.len() > 0 {
            c
        } else {
            return CertInfo::empty();
        },
        None => return CertInfo::empty(),
    };
    let now_secs = unix_time_secs() as i64;
    match cert_info_from(domain, certs[0].as_slice(), certs.len(), now_secs) {
        Some(c) => c,
        None => CertInfo::empty(),
    }
}


/// The phase status for the certificate of an established connection: failed when it is
/// expired, issued for another domain or otherwise invalid; a warning when it expires soon
/// or is self-signed.
pub open spec fn cert_status(c: CertInfo) -> Status {
    if c.expired || c.domain_mismatch || !c.valid {
        Status::Fail
    } else if c.expiring_soon || c.self_signed {
        Status::Warn
    } else {
        Status::Pass
    }
}

/// What became of the TLS handshake with the target.
#[derive(Debug, Clone)]
pub enum TlsOutcome {
    /// The domain is no valid TLS server name; the error text.
    InvalidServerName(String),
    /// The TCP connection for the handshake failed; the error text.
    ConnectFailed(String),
    /// The handshake failed; the error text.
    HandshakeFailed(String),
    /// The handshake succeeded with the given protocol version and peer chain (DER, leaf first).
    Established { version: Option<String>, peer_certs: Option<Vec<Vec<u8>>> },
}

pub open spec fn failed_tls(r: TlsModule, duration_ms: u64, error: Seq<char>) -> bool {
    &&& r.status == Status::Fail
    &&& r.severity == Severity::Fail
    &&& r.duration_ms == duration_ms
    &&& opt_text(r.error) == Some(error)
    &&& !r.details.handshake
    &&& r.details.version is None
    &&& r.details.cert.is_empty_cert()
}

/// The TLS phase result for a handshake with `domain`.
pub open spec fn tls_module_spec(domain: Seq<char>, outcome: TlsOutcome, duration_ms: u64, r: TlsModule) -> bool {
    match outcome {
        TlsOutcome::InvalidServerName(e) => failed_tls(r, duration_ms, "Invalid server name: "@ + e@),
        TlsOutcome::ConnectFailed(e) => failed_tls(r, duration_ms, "TCP connect for TLS failed: "@ + e@),
        TlsOutcome::HandshakeFailed(e) => failed_tls(r, duration_ms, "TLS handshake failed: "@ + e@),
        TlsOutcome::Established { version, peer_certs } => {
            &&& extracted_cert(
                domain,
                match peer_certs {
                    Some(c) => Some(c@),
                    None => None,
                },
                r.details.cert,
            )
            &&& r.status == cert_status(r.details.cert)
            &&& r.severity == severity_of(r.status)
            &&& r.duration_ms == duration_ms
            &&& r.error is None
            &&& r.details.handshake
            &&& r.details.version == version
        },
    }
}

fn failed(duration_ms: u64, head: &str, e: String) -> (r: TlsModule)
    ensures
        failed_tls(r, duration_ms, head@ + e@),
{
    let mut msg = owned(head);
    msg.append(e.as_str());
    TlsModule {
        status: Status::Fail,
        severity: Severity::Fail,
        duration_ms,
        error: Some(msg),
        details: TlsDetails { handshake: false, version: None, cert: CertInfo::empty() },
    }
}

/// The outcome for a domain that rustls does not accept as a server name, if it does not.
pub fn server_name_outcome(domain: &str) -> (r: Option<TlsOutcome>)
    ensures
        r is None <==> server_name_accepted(domain@),
        r matches Some(o) ==> o matches TlsOutcome::InvalidServerName(e) && e@ == "invalid dns name"@,
{
    match server_name_error(domain) {
        Some(e) => Some(TlsOutcome::InvalidServerName(e)),
        None => None,
    }
}

/// The TLS phase result for a handshake with `domain`.
pub fn tls_module(domain: &str, outcome: TlsOutcome, duration_ms: u64) -> (r: TlsModule)
    ensures
        tls_module_spec(domain@, outcome, duration_ms, r),
{
    match outcome {
        TlsOutcome::InvalidServerName(e) => failed(duration_ms, "Invalid server name: ", e),
        TlsOutcome::ConnectFailed(e) => failed(duration_ms, "TCP connect for TLS failed: ", e),
        TlsOutcome::HandshakeFailed(e) => failed(duration_ms, "TLS handshake failed: ", e),
        TlsOutcome::Established { version, peer_certs } => {
            let cert = match &peer_certs {
                Some(c) => extract_cert_info(domain, Some(c)),
                None => extract_cert_info(domain, None),
            };
            let status = if cert.expired || cert.domain_mismatch || !cert.valid {
                Status::Fail
            } else if cert.expiring_soon || cert.self_signed {
                Status::Warn
            } else {
                Status::Pass
            };
            TlsModule {
                status,
                severity: super::result::severity_for(status),
                duration_ms,
                error: None,
                details: TlsDetails { handshake: true, version, cert },
            }
        },
    }
}

} // verus!
