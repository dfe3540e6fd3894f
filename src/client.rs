//! What a front-end makes of the daemon's response to each of its requests.

use crate::types::{TunnelStats, TunnelStatus, VpnResponse};
use vstd::prelude::*;

verus! {

/// Why a request to the daemon did not give what was asked for.
#[derive(Clone, Debug)]
pub enum ReplyError {
    /// The daemon refused the request with this message.
    Daemon(String),
    /// The daemon answered with a response of the wrong kind.
    Unexpected(VpnResponse),
}

/// The failure owed for a response that is not the one asked for.
pub open spec fn refusal(resp: VpnResponse, e: ReplyError) -> bool {
    match resp {
        VpnResponse::Error(m) => e matches ReplyError::Daemon(n) && n@ == m@,
        _ => e == ReplyError::Unexpected(resp),
    }
}

fn refuse(resp: VpnResponse) -> (e: ReplyError)
    ensures
        refusal(resp, e),
{
    match resp {
        VpnResponse::Error(m) => ReplyError::Daemon(m),
        other => ReplyError::Unexpected(other),
    }
}

/// The outcome of a connect or disconnect request.
pub fn expect_done(resp: VpnResponse) -> (r: Result<(), ReplyError>)
    ensures
        resp is Done ==> r is Ok,
        !(resp is Done) ==> (r matches Err(e) && refusal(resp, e)),
{
    match resp {
        VpnResponse::Done => Ok(()),
        other => Err(refuse(other)),
    }
}

/// The outcome of a status request.
pub fn expect_status(resp: VpnResponse) -> (r: Result<TunnelStatus, ReplyError>)
    ensures
        match resp {
            VpnResponse::Status(s) => r == Ok::<TunnelStatus, ReplyError>(s),
            _ => r matches Err(e) && refusal(resp, e),
        },
{
    match resp {
        VpnResponse::Status(s) => Ok(s),
        other => Err(refuse(other)),
    }
}

/// The outcome of a statistics request.
pub fn expect_stats(resp: VpnResponse) -> (r: Result<TunnelStats, ReplyError>)
    ensures
        match resp {
            VpnResponse::Stats(s) => r == Ok::<TunnelStats, ReplyError>(s),
            _ => r matches Err(e) && refusal(resp, e),
        },
{
    match resp {
        VpnResponse::Stats(s) => Ok(s),
        other => Err(refuse(other)),
    }
}

} // verus!
