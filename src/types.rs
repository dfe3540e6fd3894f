//! Plain data shared between the daemon and its front-ends.

use vstd::prelude::*;

verus! {

/// A wall-clock instant, as seconds and nanoseconds since the Unix epoch.
#[derive(Clone, Copy, Debug, PartialEq, Eq, Structural)]
pub struct Timestamp {
    pub secs: u64,
    pub nanos: u32,
}

impl Timestamp {
    /// `self` is not later than `other`.
    pub open spec fn le(self, other: Timestamp) -> bool {
        self.secs < other.secs || (self.secs == other.secs && self.nanos <= other.nanos)
    }

    /// The later of two instants (`self` when they are equal).
    pub open spec fn max(self, other: Timestamp) -> Timestamp {
        if self.le(other) && self != other { other } else { self }
    }

    pub fn later(self, other: Timestamp) -> (r: Timestamp)
        ensures
            r == self.max(other),
            self.le(r),
            other.le(r),
    {
        if self.secs < other.secs || (self.secs == other.secs && self.nanos < other.nanos) {
            other
        } else {
            self
        }
    }
}

/// Everything needed to bring one tunnel up. Addresses are held in their
/// usual text form (`"203.0.113.1:51820"`, `"10.0.0.2"`).
#[derive(Clone, Debug)]
pub struct VpnConfig {
    /// Remote server endpoint, `ip:port`.
    pub server_addr: String,
    /// The server's static public key (base64).
    pub server_public_key: String,
    /// This client's static private key (base64).
    pub client_private_key: String,
    /// Address assigned to this end of the tunnel.
    pub client_ip: String,
    /// Resolvers to use inside the tunnel.
    pub dns_servers: Vec<String>,
    /// CIDR ranges routed through the tunnel, e.g. `0.0.0.0/0`.
    pub allowed_ips: Vec<String>,
}

/// Transfer counters of the active tunnel.
#[derive(Clone, Copy, Debug, PartialEq, Eq, Structural)]
pub struct TunnelStats {
    pub bytes_sent: u64,
    pub bytes_received: u64,
    pub last_handshake: Option<Timestamp>,
}

impl TunnelStats {
    /// The record reported while no tunnel exists.
    pub open spec fn absent() -> TunnelStats {
        TunnelStats { bytes_sent: 0, bytes_received: 0, last_handshake: None }
    }

    /// The record of a tunnel that was just brought up at `now`.
    pub open spec fn fresh(now: Timestamp) -> TunnelStats {
        TunnelStats { bytes_sent: 0, bytes_received: 0, last_handshake: Some(now) }
    }
}

/// The connection state as front-ends see it.
#[derive(Clone, Debug)]
pub enum TunnelStatus {
    Disconnected,
    Connecting,
    Connected { since: Timestamp, server: String },
    Error(String),
}

impl PartialEq for TunnelStatus {
    fn eq(&self, o: &TunnelStatus) -> (r: bool) {
        match (self, o) {
            (TunnelStatus::Disconnected, TunnelStatus::Disconnected) => true,
            (TunnelStatus::Connecting, TunnelStatus::Connecting) => true,
            (
                TunnelStatus::Connected { since: a, server: s },
                TunnelStatus::Connected { since: b, server: t },
            ) => *a == *b && *s == *t,
            (TunnelStatus::Error(m), TunnelStatus::Error(n)) => *m == *n,
            _ => false,
        }
    }
}

impl vstd::std_specs::cmp::PartialEqSpecImpl for TunnelStatus {
    open spec fn obeys_eq_spec() -> bool {
        true
    }

    open spec fn eq_spec(&self, o: &TunnelStatus) -> bool {
        match (*self, *o) {
            (TunnelStatus::Disconnected, TunnelStatus::Disconnected) => true,
            (TunnelStatus::Connecting, TunnelStatus::Connecting) => true,
            (
                TunnelStatus::Connected { since: a, server: s },
                TunnelStatus::Connected { since: b, server: t },
            ) => a == b && s@ == t@,
            (TunnelStatus::Error(m), TunnelStatus::Error(n)) => m@ == n@,
            _ => false,
        }
    }
}

/// A lifecycle request sent by a front-end to the daemon.
#[derive(Clone, Debug)]
pub enum VpnCommand {
    Connect(VpnConfig),
    Disconnect,
    GetStatus,
    GetStats,
}

/// The daemon's answer to one request.
#[derive(Clone, Debug)]
pub enum VpnResponse {
    /// The request succeeded.
    Done,
    Status(TunnelStatus),
    Stats(TunnelStats),
    Error(String),
}

/// A server offered in the front-ends' server list.
#[derive(Clone, Debug)]
pub struct ServerInfo {
    pub id: String,
    pub country: String,
    pub country_flag: String,
    pub city: String,
    pub address: String,
    pub public_key: String,
    /// Round-trip latency in milliseconds, once measured.
    pub ping_ms: Option<u32>,
}

} // verus!
