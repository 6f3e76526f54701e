//! Control core of a VPN client: the tunnel state machine and its
//! security-policy enforcement contract.
//!
//! The machine owns exactly one active tunnel state (disconnected,
//! connecting, connected, disconnecting, or blocked) and drives every
//! transition together with the host traffic policy that must protect the
//! machine while the tunnel is not up. Host-level side effects (firewall
//! programming, routing priority, interface queries) are performed by the
//! embedder, which reports their outcomes back as plain values; the
//! transition logic here is verified for every possible combination of
//! those outcomes, so no platform failure can drive the machine into an
//! unprotected state.

pub mod blocked_state;
pub mod commands;
pub mod connected_state;
pub mod connecting_state;
pub mod disconnected_state;
pub mod disconnecting_state;
pub mod laws;
pub mod platform;
pub mod policy;
pub mod state_machine;
pub mod tunnel;
