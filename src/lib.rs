//! A loopback HTTPS forward proxy that tunnels CONNECT sessions through an
//! onion-routed overlay: admission control, destination keys for isolated
//! sub-clients, and the per-connection CONNECT handshake.
use vstd::prelude::*;

pub mod barrier;
pub mod proxy;
pub mod settings;
pub mod tunnel;

verus! {

/// The only destination port that the proxy tunnels to.
pub const HTTPS_PORT: u16 = 443;

} // verus!
