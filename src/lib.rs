//! A personal VPN tunnel daemon's verified core: the connection-lifecycle
//! state machine, the encrypted datagram framing, and the control-channel
//! request handling that front-ends talk to.

pub mod cipher;
pub mod client;
pub mod daemon;
pub mod servers;
pub mod frame;
pub mod types;
pub mod uptime;
pub mod vpn;
