//! Serving the control channel: each decoded request is turned into the
//! response owed to the front-end, or, for a connect, into a request to
//! provision the tunnel's resources, whose outcome is then turned into the
//! response.

use crate::types::{Timestamp, VpnCommand, VpnConfig, VpnResponse};
use crate::vpn::{
    begin_connect, disconnect, error_text, finish_connect, get_stats, get_status, Phase,
    TunnelState, VpnError,
};
use vstd::prelude::*;

verus! {

/// What the channel server does next with a request.
pub enum Action {
    /// Send this response.
    Reply(VpnResponse),
    /// Create the virtual interface and the transport for this
    /// configuration, then report the outcome to `complete_connect`.
    Provision(VpnConfig),
}

/// `response` is the one owed for the outcome `result`.
pub open spec fn answers(result: Result<(), VpnError>, response: VpnResponse) -> bool {
    match result {
        Ok(()) => response is Done,
        Err(e) => response matches VpnResponse::Error(m) && m@ == error_text(e),
    }
}

/// The response for a lifecycle outcome.
fn reply_for(result: Result<(), VpnError>) -> (r: VpnResponse)
    ensures
        answers(result, r),
{
    match result {
        Ok(()) => VpnResponse::Done,
        Err(e) => VpnResponse::Error(e.message()),
    }
}

/// `r` is what `dispatch` decides for `cmd`, taking the state from `before`
/// to `after`.
pub open spec fn dispatched(before: Phase, after: Phase, cmd: VpnCommand, r: Action) -> bool {
    match cmd {
        VpnCommand::Connect(config) => {
            &&& after == before.after_begin()
            &&& before is Idle ==> r == Action::Provision(config)
            &&& !(before is Idle) ==> (r matches Action::Reply(resp)
                && answers(Err(VpnError::AlreadyConnected), resp))
        },
        VpnCommand::Disconnect => {
            &&& after == before.after_disconnect()
            &&& r matches Action::Reply(resp) && answers(before.disconnect_result(), resp)
        },
        VpnCommand::GetStatus => {
            &&& after == before
            &&& r == Action::Reply(VpnResponse::Status(before.status()))
        },
        VpnCommand::GetStats => {
            &&& after == before
            &&& r == Action::Reply(VpnResponse::Stats(before.stats()))
        },
    }
}

/// Decides what to do with one request. A connect claims the tunnel slot and
/// asks for provisioning, or is refused at once; the other requests are
/// answered from the state directly.
pub fn dispatch(state: &mut TunnelState, cmd: VpnCommand) -> (r: Action)
    ensures
        dispatched(old(state)@, final(state)@, cmd, r),
{
    match cmd {
        VpnCommand::Connect(config) => match begin_connect(state) {
            Ok(()) => Action::Provision(config),
            Err(e) => Action::Reply(reply_for(Err(e))),
        },
        VpnCommand::Disconnect => Action::Reply(reply_for(disconnect(state))),
        VpnCommand::GetStatus => Action::Reply(VpnResponse::Status(get_status(state))),
        VpnCommand::GetStats => Action::Reply(VpnResponse::Stats(get_stats(state))),
    }
}

/// Reports the outcome of provisioning asked for by `dispatch` and gives the
/// response owed to the front-end that asked to connect.
pub fn complete_connect(
    state: &mut TunnelState,
    config: VpnConfig,
    now: Timestamp,
    provisioned: Result<(), String>,
) -> (r: VpnResponse)
    requires
        old(state)@ is Connecting,
    ensures
        final(state)@ == old(state)@.after_finish(config, now, provisioned is Ok),
        match provisioned {
            Ok(_) => r is Done,
            Err(m) => r matches VpnResponse::Error(t) && t@ == m@,
        },
{
    reply_for(finish_connect(state, config, now, provisioned))
}

/// Handles one line of the control channel, already decoded: a request, or
/// the decoder's description of why the line is not one. The latter is
/// answered with `"parse error: "` and that description, and changes nothing.
pub fn handle_request(state: &mut TunnelState, request: Result<VpnCommand, String>) -> (r: Action)
    ensures
        match request {
            Ok(cmd) => dispatched(old(state)@, final(state)@, cmd, r),
            Err(detail) => {
                &&& final(state)@ == old(state)@
                &&& r matches Action::Reply(VpnResponse::Error(m)) && m@ == "parse error: "@ + detail@
            },
        },
{
    match request {
        Ok(cmd) => dispatch(state, cmd),
        Err(detail) => {
            let mut m = String::from_str("parse error: ");
            m.append(detail.as_str());
            Action::Reply(VpnResponse::Error(m))
        },
    }
}

} // verus!
