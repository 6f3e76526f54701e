//! The security policy engine: the machine's handle on the host-level
//! traffic policy, and the shared values threaded through every state.

use vstd::prelude::*;

verus! {

/// A host-level traffic policy. `AllowAll` is the permissive default; every
/// other variant restricts which traffic may leave the machine outside the
/// tunnel.
#[derive(Clone, Copy, Debug, PartialEq, Eq, Structural)]
pub enum SecurityPolicy {
    /// No restrictive entries: all traffic is allowed.
    AllowAll,
    /// Only traffic needed to establish the tunnel (DNS and the relay
    /// endpoint) is allowed.
    RelayOnly,
    /// Only traffic through the tunnel interface is allowed.
    ThroughTunnel,
    /// All traffic is blocked.
    BlockAll,
}

/// Failure to apply or reset the host policy.
#[derive(Clone, Copy, Debug, PartialEq, Eq, Structural)]
pub enum PolicyError {
    /// The host refused or failed the policy operation.
    ApplicationFailed,
}

/// Handle on the host's traffic policy. It records the policy the machine
/// knows to be active on the host.
///
/// The host-level programming itself (firewall rules) is performed by the
/// embedder, which reports through `host_ok` whether the operation took
/// effect. The engine never retries silently: a failure is returned to the
/// caller, which decides whether to fail safe.
#[derive(Clone, Copy, Debug, PartialEq, Eq, Structural)]
pub struct SecurityPolicyEngine {
    /// The policy currently in force on the host, as far as the machine
    /// knows. A failed operation leaves it unchanged.
    pub active: SecurityPolicy,
}

impl SecurityPolicyEngine {
    /// A fresh engine: the host starts with the permissive default policy.
    pub fn new() -> (engine: SecurityPolicyEngine)
        ensures
            engine.active == SecurityPolicy::AllowAll,
    {
        SecurityPolicyEngine { active: SecurityPolicy::AllowAll }
    }

    /// Apply `policy` on the host. `host_ok` is the outcome the embedder
    /// observed for the host-level operation. Applying the policy that is
    /// already active is an observable no-op.
    pub fn apply_policy(&mut self, policy: SecurityPolicy, host_ok: bool) -> (result: Result<(), PolicyError>)
        ensures
            host_ok ==> final(self).active == policy && result is Ok,
            !host_ok ==> final(self).active == old(self).active && result is Err,
            result is Err ==> result == Err::<(), PolicyError>(PolicyError::ApplicationFailed),
    {
        if host_ok {
            self.active = policy;
            Ok(())
        } else {
            Err(PolicyError::ApplicationFailed)
        }
    }

    /// Restore the permissive default policy.
    pub fn reset_policy(&mut self, host_ok: bool) -> (result: Result<(), PolicyError>)
        ensures
            host_ok ==> final(self).active == SecurityPolicy::AllowAll && result is Ok,
            !host_ok ==> final(self).active == old(self).active && result is Err,
    {
        self.apply_policy(SecurityPolicy::AllowAll, host_ok)
    }
}

/// Mutable context threaded through every state: the security policy engine
/// handle and cross-cutting runtime configuration. Exclusively owned by the
/// state machine; states borrow it mutably for the duration of a single
/// `enter` or `handle_event` call.
#[derive(Clone, Copy, Debug, PartialEq, Eq, Structural)]
pub struct SharedTunnelStateValues {
    /// Handle on the host traffic policy.
    pub security: SecurityPolicyEngine,
    /// Whether traffic to the local network is allowed beside the tunnel.
    pub allow_lan: bool,
}

impl SharedTunnelStateValues {
    /// Fresh shared values for a machine that has not applied any policy yet.
    pub fn new(allow_lan: bool) -> (shared: SharedTunnelStateValues)
        ensures
            shared.security.active == SecurityPolicy::AllowAll,
            shared.allow_lan == allow_lan,
    {
        SharedTunnelStateValues { security: SecurityPolicyEngine::new(), allow_lan }
    }
}

} // verus!
