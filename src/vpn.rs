//! The tunnel state manager: the single record of whether a tunnel exists,
//! with its configuration, start time and transfer counters.
//!
//! The state is an owned value handed to whoever serves the control channel;
//! callers that share it between tasks put it behind one lock and hold that
//! lock only for the duration of one call here.

use crate::types::{Timestamp, TunnelStats, TunnelStatus, VpnConfig};
use vstd::prelude::*;

verus! {

/// The active tunnel: its configuration, when it came up, and its counters.
pub struct TunnelHandle {
    pub config: VpnConfig,
    pub connected_at: Timestamp,
    pub stats: TunnelStats,
}

impl TunnelHandle {
    /// The handle installed by a connect at `now`.
    pub open spec fn fresh(config: VpnConfig, now: Timestamp) -> TunnelHandle {
        TunnelHandle { config, connected_at: now, stats: TunnelStats::fresh(now) }
    }
}

/// Where the lifecycle stands. A handle exists exactly in `Connected`, so
/// there is never more than one.
pub enum Phase {
    Idle,
    /// Resources are being provisioned; no handle exists yet.
    Connecting,
    Connected(TunnelHandle),
}

/// Why a lifecycle request was refused, or why provisioning failed.
#[derive(Clone, Debug, PartialEq, Eq)]
pub enum VpnError {
    AlreadyConnected,
    NotConnected,
    /// The virtual interface or the transport could not be set up.
    Provisioning(String),
}

/// The text a front-end is shown for an error.
pub open spec fn error_text(e: VpnError) -> Seq<char> {
    match e {
        VpnError::AlreadyConnected => "already connected"@,
        VpnError::NotConnected => "not connected"@,
        VpnError::Provisioning(m) => m@,
    }
}

impl VpnError {
    /// The text a front-end is shown for this error.
    pub fn message(&self) -> (r: String)
        ensures
            r@ == error_text(*self),
    {
        match self {
            VpnError::AlreadyConnected => String::from_str("already connected"),
            VpnError::NotConnected => String::from_str("not connected"),
            VpnError::Provisioning(m) => m.clone(),
        }
    }
}

/// The counter after adding `delta`, stopping at the largest `u64`.
pub open spec fn bump(count: u64, delta: u64) -> u64 {
    if count + delta > u64::MAX { u64::MAX } else { (count + delta) as u64 }
}

impl Phase {
    /// No connect has begun or completed.
    pub open spec fn is_idle(self) -> bool {
        self is Idle
    }

    /// After a request to begin connecting.
    pub open spec fn after_begin(self) -> Phase {
        if self is Idle { Phase::Connecting } else { self }
    }

    /// After provisioning ends, successfully or not.
    pub open spec fn after_finish(self, config: VpnConfig, now: Timestamp, provisioned: bool) -> Phase {
        if self is Connecting {
            if provisioned { Phase::Connected(TunnelHandle::fresh(config, now)) } else { Phase::Idle }
        } else {
            self
        }
    }

    /// After a connect whose provisioning succeeds at once.
    pub open spec fn after_connect(self, config: VpnConfig, now: Timestamp) -> Phase {
        if self is Idle { Phase::Connected(TunnelHandle::fresh(config, now)) } else { self }
    }

    /// What a connect returns from this phase.
    pub open spec fn connect_result(self) -> Result<(), VpnError> {
        if self is Idle { Ok(()) } else { Err(VpnError::AlreadyConnected) }
    }

    /// After a disconnect.
    pub open spec fn after_disconnect(self) -> Phase {
        if self is Connected { Phase::Idle } else { self }
    }

    /// What a disconnect returns from this phase.
    pub open spec fn disconnect_result(self) -> Result<(), VpnError> {
        if self is Connected { Ok(()) } else { Err(VpnError::NotConnected) }
    }

    /// The status reported in this phase.
    pub open spec fn status(self) -> TunnelStatus {
        match self {
            Phase::Idle => TunnelStatus::Disconnected,
            Phase::Connecting => TunnelStatus::Connecting,
            Phase::Connected(h) => TunnelStatus::Connected {
                since: h.connected_at,
                server: h.config.server_addr,
            },
        }
    }

    /// The counters reported in this phase.
    pub open spec fn stats(self) -> TunnelStats {
        match self {
            Phase::Connected(h) => h.stats,
            _ => TunnelStats::absent(),
        }
    }

    /// After the forwarding loop reports `sent` and `received` bytes at `now`.
    pub open spec fn after_transfer(self, sent: u64, received: u64, now: Timestamp) -> Phase {
        match self {
            Phase::Connected(h) => {
                let last = match h.stats.last_handshake {
                    Some(t) => t.max(now),
                    None => now,
                };
                Phase::Connected(TunnelHandle {
                    stats: TunnelStats {
                        bytes_sent: bump(h.stats.bytes_sent, sent),
                        bytes_received: bump(h.stats.bytes_received, received),
                        last_handshake: Some(last),
                    },
                    ..h
                })
            },
            _ => self,
        }
    }
}

/// The tunnel state of one daemon.
pub struct TunnelState {
    phase: Phase,
}

impl View for TunnelState {
    type V = Phase;

    closed spec fn view(&self) -> Phase {
        self.phase
    }
}

impl TunnelState {
    /// A state with no tunnel.
    pub fn new() -> (r: TunnelState)
        ensures
            r@ is Idle,
    {
        TunnelState { phase: Phase::Idle }
    }

    /// A tunnel handle exists.
    pub fn is_connected(&self) -> (r: bool)
        ensures
            r == self@ is Connected,
    {
        matches!(self.phase, Phase::Connected(_))
    }

    /// Provisioning is under way.
    pub fn is_connecting(&self) -> (r: bool)
        ensures
            r == self@ is Connecting,
    {
        matches!(self.phase, Phase::Connecting)
    }
}

/// Claims the single tunnel slot before provisioning begins: `Idle` becomes
/// `Connecting`. Fails with `AlreadyConnected`, changing nothing, when a
/// tunnel exists or is being provisioned.
pub fn begin_connect(state: &mut TunnelState) -> (r: Result<(), VpnError>)
    ensures
        final(state)@ == old(state)@.after_begin(),
        r == old(state)@.connect_result(),
{
    if matches!(state.phase, Phase::Idle) {
        state.phase = Phase::Connecting;
        Ok(())
    } else {
        Err(VpnError::AlreadyConnected)
    }
}

/// Ends provisioning. On success the handle is installed with zeroed
/// counters and its last handshake at `now`; on failure no handle is
/// installed, the state returns to `Idle` and the failure is handed back.
pub fn finish_connect(
    state: &mut TunnelState,
    config: VpnConfig,
    now: Timestamp,
    provisioned: Result<(), String>,
) -> (r: Result<(), VpnError>)
    requires
        old(state)@ is Connecting,
    ensures
        final(state)@ == old(state)@.after_finish(config, now, provisioned is Ok),
        match provisioned {
            Ok(_) => r == Ok::<(), VpnError>(()),
            Err(m) => r == Err::<(), VpnError>(VpnError::Provisioning(m)),
        },
{
    match provisioned {
        Ok(()) => {
            state.phase = Phase::Connected(TunnelHandle {
                config,
                connected_at: now,
                stats: TunnelStats { bytes_sent: 0, bytes_received: 0, last_handshake: Some(now) },
            });
            Ok(())
        },
        Err(m) => {
            state.phase = Phase::Idle;
            Err(VpnError::Provisioning(m))
        },
    }
}

/// Brings a tunnel up at `now` whose resources need no provisioning step.
/// Fails with `AlreadyConnected`, changing nothing, when a tunnel exists or
/// is being provisioned.
pub fn connect(state: &mut TunnelState, config: VpnConfig, now: Timestamp) -> (r: Result<(), VpnError>)
    ensures
        final(state)@ == old(state)@.after_connect(config, now),
        r == old(state)@.connect_result(),
{
    match begin_connect(state) {
        Ok(()) => finish_connect(state, config, now, Ok(())),
        Err(e) => Err(e),
    }
}

/// Tears the tunnel down: the handle and its counters are dropped. Fails
/// with `NotConnected`, changing nothing, when no handle exists.
pub fn disconnect(state: &mut TunnelState) -> (r: Result<(), VpnError>)
    ensures
        final(state)@ == old(state)@.after_disconnect(),
        r == old(state)@.disconnect_result(),
{
    if matches!(state.phase, Phase::Connected(_)) {
        state.phase = Phase::Idle;
        Ok(())
    } else {
        Err(VpnError::NotConnected)
    }
}

/// A snapshot of the connection status.
pub fn get_status(state: &TunnelState) -> (r: TunnelStatus)
    ensures
        r == state@.status(),
{
    match &state.phase {
        Phase::Idle => TunnelStatus::Disconnected,
        Phase::Connecting => TunnelStatus::Connecting,
        Phase::Connected(h) => TunnelStatus::Connected {
            since: h.connected_at,
            server: h.config.server_addr.clone(),
        },
    }
}

/// A snapshot of the transfer counters; all zero and no handshake time when
/// no tunnel exists.
pub fn get_stats(state: &TunnelState) -> (r: TunnelStats)
    ensures
        r == state@.stats(),
{
    match &state.phase {
        Phase::Connected(h) => h.stats,
        _ => TunnelStats { bytes_sent: 0, bytes_received: 0, last_handshake: None },
    }
}

/// Records one exchange of the forwarding loop: adds to the counters (which
/// stop at the largest `u64`) and moves the last handshake forward to `now`,
/// never back. Does nothing when no tunnel exists.
pub fn update_stats(state: &mut TunnelState, bytes_sent: u64, bytes_received: u64, now: Timestamp)
    ensures
        final(state)@ == old(state)@.after_transfer(bytes_sent, bytes_received, now),
{
    match &mut state.phase {
        Phase::Connected(h) => {
            let last = match h.stats.last_handshake {
                Some(t) => t.later(now),
                None => now,
            };
            h.stats = TunnelStats {
                bytes_sent: h.stats.bytes_sent.saturating_add(bytes_sent),
                bytes_received: h.stats.bytes_received.saturating_add(bytes_received),
                last_handshake: Some(last),
            };
        },
        _ => {},
    }
}

/// The phase after a run of connect requests, applied in order.
pub open spec fn after_connects(p: Phase, requests: Seq<(VpnConfig, Timestamp)>) -> Phase
    decreases requests.len(),
{
    if requests.len() == 0 {
        p
    } else {
        after_connects(p.after_connect(requests[0].0, requests[0].1), requests.drop_first())
    }
}

/// The phase after a run of counter reports `(sent, received, at)`, applied
/// in order.
pub open spec fn after_transfers(p: Phase, reports: Seq<(u64, u64, Timestamp)>) -> Phase
    decreases reports.len(),
{
    if reports.len() == 0 {
        p
    } else {
        after_transfers(p.after_transfer(reports[0].0, reports[0].1, reports[0].2), reports.drop_first())
    }
}

/// Total bytes reported as sent.
pub open spec fn total_sent(reports: Seq<(u64, u64, Timestamp)>) -> int
    decreases reports.len(),
{
    if reports.len() == 0 { 0 } else { reports[0].0 + total_sent(reports.drop_first()) }
}

/// Total bytes reported as received.
pub open spec fn total_received(reports: Seq<(u64, u64, Timestamp)>) -> int
    decreases reports.len(),
{
    if reports.len() == 0 { 0 } else { reports[0].1 + total_received(reports.drop_first()) }
}

/// A lifecycle request, as applied in a run of requests.
pub enum Request {
    Connect(VpnConfig, Timestamp),
    Disconnect,
}

/// The phase after one request.
pub open spec fn step(p: Phase, r: Request) -> Phase {
    match r {
        Request::Connect(config, now) => p.after_connect(config, now),
        Request::Disconnect => p.after_disconnect(),
    }
}

/// The request succeeds from this phase.
pub open spec fn succeeds(p: Phase, r: Request) -> bool {
    match r {
        Request::Connect(_, _) => p.connect_result() is Ok,
        Request::Disconnect => p.disconnect_result() is Ok,
    }
}

/// The phase after a run of requests, applied in order.
pub open spec fn run(p: Phase, requests: Seq<Request>) -> Phase
    decreases requests.len(),
{
    if requests.len() == 0 { p } else { run(step(p, requests[0]), requests.drop_first()) }
}

/// The requests of a run that succeeded, in order: `true` for a connect,
/// `false` for a disconnect.
pub open spec fn successes(p: Phase, requests: Seq<Request>) -> Seq<bool>
    decreases requests.len(),
{
    if requests.len() == 0 {
        Seq::empty()
    } else {
        let head: Seq<bool> = if succeeds(p, requests[0]) {
            seq![requests[0] is Connect]
        } else {
            Seq::empty()
        };
        head + successes(step(p, requests[0]), requests.drop_first())
    }
}

/// Over any run of connect and disconnect requests starting without a
/// tunnel, the successful ones alternate, a connect first: no connect
/// succeeds while a tunnel exists, so there is never more than one. A tunnel
/// exists at the end exactly when the last success was a connect.
pub proof fn lemma_one_tunnel_at_a_time(requests: Seq<Request>)
    ensures
        forall|i: int| 0 <= i < successes(Phase::Idle, requests).len()
            ==> #[trigger] successes(Phase::Idle, requests)[i] == (i % 2 == 0),
        run(Phase::Idle, requests) is Connected <==> successes(Phase::Idle, requests).len() % 2 == 1,
{
    lemma_runs_alternate(Phase::Idle, requests);
}

proof fn lemma_runs_alternate(p: Phase, requests: Seq<Request>)
    requires
        p is Idle || p is Connected,
    ensures
        run(p, requests) is Idle || run(p, requests) is Connected,
        forall|i: int| 0 <= i < successes(p, requests).len()
            ==> #[trigger] successes(p, requests)[i] == ((i % 2 == 0) == (p is Idle)),
        run(p, requests) is Connected <==> ((successes(p, requests).len() % 2 == 1) == (p is Idle)),
    decreases requests.len(),
{
    if requests.len() > 0 {
        let r = requests[0];
        let q = step(p, r);
        let rest = requests.drop_first();
        lemma_runs_alternate(q, rest);
        let all = successes(p, requests);
        let tail = successes(q, rest);
        if succeeds(p, r) {
            assert(q is Idle <==> p is Connected);
            assert(all =~= seq![r is Connect] + tail);
            assert forall|i: int| 0 <= i < all.len() implies #[trigger] all[i] == ((i % 2 == 0) == (p is Idle)) by {
                if i > 0 {
                    assert(all[i] == tail[i - 1]);
                }
            }
        } else {
            assert(q == p);
            assert(all =~= tail);
        }
    }
}

/// While a tunnel exists or is being provisioned, any number of further
/// connect requests each fail with `AlreadyConnected`, and the state,
/// including the existing handle, is left exactly as it was.
pub proof fn lemma_connect_is_guarded(p: Phase, requests: Seq<(VpnConfig, Timestamp)>)
    requires
        !(p is Idle),
    ensures
        p.connect_result() == Err::<(), VpnError>(VpnError::AlreadyConnected),
        p.after_begin() == p,
        after_connects(p, requests) == p,
    decreases requests.len(),
{
    if requests.len() > 0 {
        lemma_connect_is_guarded(p, requests.drop_first());
    }
}

/// A second connect with no disconnect in between fails with
/// `AlreadyConnected` and leaves the handle installed by the first untouched.
pub proof fn lemma_second_connect_fails(p: Phase, a: VpnConfig, at: Timestamp, b: VpnConfig, bt: Timestamp)
    ensures
        p.after_connect(a, at).connect_result() == Err::<(), VpnError>(VpnError::AlreadyConnected),
        p.after_connect(a, at).after_connect(b, bt) == p.after_connect(a, at),
{
}

/// Without a tunnel, a disconnect fails with `NotConnected`, changes nothing,
/// and the counters read as absent.
pub proof fn lemma_disconnect_needs_tunnel(p: Phase)
    requires
        !(p is Connected),
    ensures
        p.disconnect_result() == Err::<(), VpnError>(VpnError::NotConnected),
        p.after_disconnect() == p,
        p.stats() == TunnelStats::absent(),
{
}

/// Tearing a tunnel down resets the counters to absent.
pub proof fn lemma_disconnect_resets_counters(p: Phase)
    ensures
        p.after_disconnect().stats() == TunnelStats::absent(),
{
}

/// After a run of reports on a tunnel, each counter is its value before plus
/// the bytes reported in its direction, as long as that sum fits in a `u64`.
pub proof fn lemma_counters_add_up(p: Phase, reports: Seq<(u64, u64, Timestamp)>)
    requires
        p is Connected,
        p.stats().bytes_sent + total_sent(reports) <= u64::MAX,
        p.stats().bytes_received + total_received(reports) <= u64::MAX,
    ensures
        after_transfers(p, reports) is Connected,
        after_transfers(p, reports).stats().bytes_sent == p.stats().bytes_sent + total_sent(reports),
        after_transfers(p, reports).stats().bytes_received == p.stats().bytes_received + total_received(reports),
    decreases reports.len(),
{
    if reports.len() > 0 {
        let q = p.after_transfer(reports[0].0, reports[0].1, reports[0].2);
        lemma_totals_nonnegative(reports.drop_first());
        assert(q.stats().bytes_sent == p.stats().bytes_sent + reports[0].0);
        assert(q.stats().bytes_received == p.stats().bytes_received + reports[0].1);
        lemma_counters_add_up(q, reports.drop_first());
    }
}

proof fn lemma_totals_nonnegative(reports: Seq<(u64, u64, Timestamp)>)
    ensures
        total_sent(reports) >= 0,
        total_received(reports) >= 0,
    decreases reports.len(),
{
    if reports.len() > 0 {
        lemma_totals_nonnegative(reports.drop_first());
    }
}

/// A tunnel just brought up, after a run of reports, counts exactly the
/// bytes reported in each direction.
pub proof fn lemma_counters_from_connect(config: VpnConfig, now: Timestamp, reports: Seq<(u64, u64, Timestamp)>)
    requires
        total_sent(reports) <= u64::MAX,
        total_received(reports) <= u64::MAX,
    ensures
        after_transfers(Phase::Idle.after_connect(config, now), reports).stats().bytes_sent == total_sent(reports),
        after_transfers(Phase::Idle.after_connect(config, now), reports).stats().bytes_received == total_received(reports),
{
    lemma_counters_add_up(Phase::Idle.after_connect(config, now), reports);
}

/// A report never moves the last handshake back, never lowers a counter,
/// and keeps the tunnel's configuration and start time.
pub proof fn lemma_report_is_monotone(p: Phase, sent: u64, received: u64, now: Timestamp)
    requires
        p is Connected,
    ensures
        p.after_transfer(sent, received, now) matches Phase::Connected(h) && {
            &&& h.config == p->Connected_0.config
            &&& h.connected_at == p->Connected_0.connected_at
            &&& h.stats.bytes_sent >= p.stats().bytes_sent
            &&& h.stats.bytes_received >= p.stats().bytes_received
            &&& h.stats.last_handshake matches Some(u) && now.le(u)
                && (p.stats().last_handshake matches Some(t) ==> t.le(u))
        },
{
}

} // verus!
