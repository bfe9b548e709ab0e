//! The TCP phase: from the outcome of a connection attempt to the phase result.
use vstd::prelude::*;
use super::result::{opt_text, Severity, Status, TcpDetails, TcpModule};
use super::text::{decimal, owned, u64_to_text};

verus! {

/// How long a connection attempt may take, in seconds.
pub const TCP_TIMEOUT_SECS: u64 = 10;

/// What became of the attempt to connect to `ip:port`.
#[derive(Debug, Clone)]
pub enum TcpOutcome {
    /// `ip:port` is no socket address; the parser's error text.
    InvalidAddress(String),
    /// `ip:port` named no socket address at all.
    Unresolved,
    Connected,
    /// The connection failed; the error text.
    Failed(String),
    /// No connection within `TCP_TIMEOUT_SECS`.
    TimedOut,
}

/// `ip:port`.
pub open spec fn socket_text(ip: Seq<char>, port: u16) -> Seq<char> {
    ip + ":"@ + decimal(port as nat)
}

/// The TCP phase result for a connection attempt to `ip:port`.
pub open spec fn tcp_module_spec(ip: Seq<char>, port: u16, outcome: TcpOutcome, duration_ms: u64, r: TcpModule) -> bool {
    let connected = outcome is Connected;
    &&& r.status == if connected {
        Status::Pass
    } else {
        Status::Fail
    }
    &&& r.severity == if connected {
        Severity::Info
    } else {
        Severity::Fail
    }
    &&& r.duration_ms == duration_ms
    &&& opt_text(r.error) == match outcome {
        TcpOutcome::InvalidAddress(e) => Some("Invalid address "@ + socket_text(ip, port) + ": "@ + e@),
        TcpOutcome::Unresolved => Some("Could not resolve address: "@ + socket_text(ip, port)),
        TcpOutcome::Connected => None,
        TcpOutcome::Failed(e) => Some("TCP connection failed: "@ + e@),
        TcpOutcome::TimedOut => Some(
            "TCP connection timed out ("@ + decimal(TCP_TIMEOUT_SECS as nat) + "s)"@,
        ),
    }
    &&& r.details.connected == connected
    &&& opt_text(r.details.ip) == Some(ip)
    &&& r.details.port == port
}

/// `ip:port` as text.
pub fn socket_address(ip: &str, port: u16) -> (r: String)
    ensures
        r@ == socket_text(ip@, port),
{
    let mut r = owned(ip);
    r.append(":");
    r.append(u64_to_text(port as u64).as_str());
    r
}

/// The TCP phase result for a connection attempt to `ip:port`.
pub fn tcp_module(ip: &str, port: u16, outcome: TcpOutcome, duration_ms: u64) -> (r: TcpModule)
    ensures
        tcp_module_spec(ip@, port, outcome, duration_ms, r),
{
    let connected = match outcome {
        TcpOutcome::Connected => true,
        _ => false,
    };
    let error = match outcome {
        TcpOutcome::InvalidAddress(e) => {
            let mut m = owned("Invalid address ");
            m.append(socket_address(ip, port).as_str());
            m.append(": ");
            m.append(e.as_str());
            Some(m)
        },
        TcpOutcome::Unresolved => {
            let mut m = owned("Could not resolve address: ");
            m.append(socket_address(ip, port).as_str());
            Some(m)
        },
        TcpOutcome::Connected => None,
        TcpOutcome::Failed(e) => {
            let mut m = owned("TCP connection failed: ");
            m.append(e.as_str());
            Some(m)
        },
        TcpOutcome::TimedOut => {
            let mut m = owned("TCP connection timed out (");
            m.append(u64_to_text(TCP_TIMEOUT_SECS).as_str());
            m.append("s)");
            Some(m)
        },
    };
    TcpModule {
        status: if connected {
            Status::Pass
        } else {
            Status::Fail
        },
        severity: if connected {
            Severity::Info
        } else {
            Severity::Fail
        },
        duration_ms,
        error,
        details: TcpDetails { connected, ip: Some(owned(ip)), port },
    }
}

} // verus!
