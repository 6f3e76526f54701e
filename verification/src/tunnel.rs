//! Externally observable tunnel state notifications and the reasons for
//! entering the fail-safe blocking state.

use vstd::prelude::*;
use vstd::string::StringExecFns;

verus! {

/// Event resulting from a transition to a new tunnel state.
///
/// Exactly one of these is published per state change, in the order the
/// changes occur.
#[derive(Clone, Debug, PartialEq)]
pub enum TunnelStateTransition {
    /// No connection is established and network is unsecured.
    Disconnected,
    /// Network is secured but tunnel is still connecting.
    Connecting,
    /// Tunnel is connected.
    Connected,
    /// Disconnecting tunnel.
    Disconnecting,
    /// Tunnel is disconnected but secured by blocking all connections.
    Blocked(BlockReason),
}

/// Reason for entering the blocked state.
#[derive(Clone, Debug, PartialEq)]
pub enum BlockReason {
    /// Authentication with remote server failed.
    AuthFailed(String),
    /// Failed to set security policy.
    SetSecurityPolicyError,
    /// Failed to start connection to remote server.
    StartTunnelError,
    /// No relay server matching the current filter parameters.
    NoMatchingRelay,
    /// No account token configured.
    NoAccountToken,
}

impl TunnelStateTransition {
    /// The stable tag under which this transition is published on the wire
    /// (snake-case name of the state).
    pub fn state_name(&self) -> (name: &'static str)
        ensures
            self is Disconnected ==> name@ == "disconnected"@,
            self is Connecting ==> name@ == "connecting"@,
            self is Connected ==> name@ == "connected"@,
            self is Disconnecting ==> name@ == "disconnecting"@,
            self is Blocked ==> name@ == "blocked"@,
    {
        match self {
            TunnelStateTransition::Disconnected => "disconnected",
            TunnelStateTransition::Connecting => "connecting",
            TunnelStateTransition::Connected => "connected",
            TunnelStateTransition::Disconnecting => "disconnecting",
            TunnelStateTransition::Blocked(_) => "blocked",
        }
    }
}

impl BlockReason {
    /// The stable tag under which this reason is published on the wire
    /// (snake-case name of the variant).
    pub fn reason_name(&self) -> (name: &'static str)
        ensures
            self is AuthFailed ==> name@ == "auth_failed"@,
            self is SetSecurityPolicyError ==> name@ == "set_security_policy_error"@,
            self is StartTunnelError ==> name@ == "start_tunnel_error"@,
            self is NoMatchingRelay ==> name@ == "no_matching_relay"@,
            self is NoAccountToken ==> name@ == "no_account_token"@,
    {
        match self {
            BlockReason::AuthFailed(_) => "auth_failed",
            BlockReason::SetSecurityPolicyError => "set_security_policy_error",
            BlockReason::StartTunnelError => "start_tunnel_error",
            BlockReason::NoMatchingRelay => "no_matching_relay",
            BlockReason::NoAccountToken => "no_account_token",
        }
    }

    /// Human-readable description of the reason, suitable for direct
    /// presentation to the user.
    pub fn description(&self) -> (text: String)
        ensures
            self matches BlockReason::AuthFailed(m) ==> text@ == "Authentication with remote server failed: "@ + m@,
            self is SetSecurityPolicyError ==> text@ == "Failed to set security policy"@,
            self is StartTunnelError ==> text@ == "Failed to start connection to remote server"@,
            self is NoMatchingRelay ==> text@ == "No relay server matches the current settings"@,
            self is NoAccountToken ==> text@ == "No account token configured"@,
    {
        match self {
            BlockReason::AuthFailed(m) => {
                let prefix: String = String::from_str("Authentication with remote server failed: ");
                prefix.concat(m.as_str())
            },
            BlockReason::SetSecurityPolicyError => String::from_str("Failed to set security policy"),
            BlockReason::StartTunnelError => String::from_str("Failed to start connection to remote server"),
            BlockReason::NoMatchingRelay => String::from_str("No relay server matches the current settings"),
            BlockReason::NoAccountToken => String::from_str("No account token configured"),
        }
    }

    /// An owned copy of this reason, equal to the original.
    pub fn duplicate(&self) -> (copy: BlockReason)
        ensures
            copy == *self,
    {
        match self {
            BlockReason::AuthFailed(m) => BlockReason::AuthFailed(m.clone()),
            BlockReason::SetSecurityPolicyError => BlockReason::SetSecurityPolicyError,
            BlockReason::StartTunnelError => BlockReason::StartTunnelError,
            BlockReason::NoMatchingRelay => BlockReason::NoMatchingRelay,
            BlockReason::NoAccountToken => BlockReason::NoAccountToken,
        }
    }
}

} // verus!
