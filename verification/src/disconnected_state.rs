//! No tunnel is running: the host is unsecured on purpose, with the
//! permissive default policy in force.

use vstd::prelude::*;
use crate::commands::{MachineInput, TunnelCommand};
use crate::platform::PlatformOutcomes;
use crate::policy::{SecurityPolicy, SecurityPolicyEngine, SharedTunnelStateValues};
use crate::tunnel::TunnelStateTransition;
use crate::blocked_state::{spec_enter_blocked, BlockedState};
use crate::connecting_state::{spec_enter_connecting, ConnectingState};
use crate::state_machine::{EventConsequence, TunnelStateWrapper};

verus! {

/// No tunnel is running.
pub struct DisconnectedState;

/// Entry into the disconnected state: the policy is reset to the permissive
/// default. A failed reset is tolerated (there is nothing more restrictive
/// to fall back to from here); the engine then keeps its previous record.
pub open spec fn spec_enter_disconnected(shared: SharedTunnelStateValues, host_ok: bool) -> (
    SharedTunnelStateValues,
    TunnelStateWrapper,
    TunnelStateTransition,
) {
    let active = if host_ok {
        SecurityPolicy::AllowAll
    } else {
        shared.security.active
    };
    (
        SharedTunnelStateValues {
            security: SecurityPolicyEngine { active },
            allow_lan: shared.allow_lan,
        },
        TunnelStateWrapper::Disconnected(DisconnectedState),
        TunnelStateTransition::Disconnected,
    )
}

/// How the disconnected state answers one input.
pub open spec fn spec_handle_disconnected(
    shared: SharedTunnelStateValues,
    input: MachineInput,
    outcomes: PlatformOutcomes,
) -> (SharedTunnelStateValues, EventConsequence) {
    match input {
        MachineInput::Command(TunnelCommand::Connect(parameters)) => {
            let step = spec_enter_connecting(shared, parameters, outcomes);
            (step.0, EventConsequence::NewState(step.1, step.2))
        },
        MachineInput::Command(TunnelCommand::Block(reason, allow_lan)) => {
            let step = spec_enter_blocked(shared, reason, Some(allow_lan), outcomes.block_policy_ok);
            (step.0, EventConsequence::NewState(step.1, step.2))
        },
        MachineInput::Command(TunnelCommand::AllowLan(allow_lan)) => (
            SharedTunnelStateValues { security: shared.security, allow_lan },
            EventConsequence::SameState(TunnelStateWrapper::Disconnected(DisconnectedState)),
        ),
        MachineInput::Command(TunnelCommand::Disconnect) => (
            shared,
            EventConsequence::SameState(TunnelStateWrapper::Disconnected(DisconnectedState)),
        ),
        MachineInput::Monitor(_) => (
            shared,
            EventConsequence::SameState(TunnelStateWrapper::Disconnected(DisconnectedState)),
        ),
        MachineInput::ChannelClosed => (shared, EventConsequence::Finished),
    }
}

impl DisconnectedState {
    /// Best-effort reset of the security policy: a failure is reported by
    /// the embedder's log, never escalated, because no tunnel is wanted
    /// here and re-blocking has no clear benefit.
    pub fn reset_security_policy(shared_values: &mut SharedTunnelStateValues, host_ok: bool)
        ensures
            host_ok ==> final(shared_values).security.active == SecurityPolicy::AllowAll,
            !host_ok ==> final(shared_values).security == old(shared_values).security,
            final(shared_values).allow_lan == old(shared_values).allow_lan,
    {
        let _ = shared_values.security.reset_policy(host_ok);
    }

    /// Enter the disconnected state, resetting the policy best-effort.
    /// Entry succeeds as disconnected even when the reset fails.
    pub fn enter(shared_values: &mut SharedTunnelStateValues, host_ok: bool) -> (entered: (
        TunnelStateWrapper,
        TunnelStateTransition,
    ))
        ensures
            *final(shared_values) == spec_enter_disconnected(*old(shared_values), host_ok).0,
            entered.0 == spec_enter_disconnected(*old(shared_values), host_ok).1,
            entered.1 == spec_enter_disconnected(*old(shared_values), host_ok).2,
    {
        Self::reset_security_policy(shared_values, host_ok);
        (
            TunnelStateWrapper::Disconnected(DisconnectedState),
            TunnelStateTransition::Disconnected,
        )
    }

    /// Answer one input: `Connect` starts a connection attempt, `Block`
    /// enters the fail-safe state, a closed channel finishes the machine,
    /// and everything else leaves the state as it is.
    pub fn handle_event(
        self,
        input: MachineInput,
        shared_values: &mut SharedTunnelStateValues,
        outcomes: PlatformOutcomes,
    ) -> (consequence: EventConsequence)
        ensures
            *final(shared_values) == spec_handle_disconnected(*old(shared_values), input, outcomes).0,
            consequence == spec_handle_disconnected(*old(shared_values), input, outcomes).1,
    {
        match input {
            MachineInput::Command(TunnelCommand::Connect(parameters)) => {
                let (state, transition) = ConnectingState::enter(shared_values, parameters, outcomes);
                EventConsequence::NewState(state, transition)
            },
            MachineInput::Command(TunnelCommand::Block(reason, allow_lan)) => {
                let (state, transition) =
                    BlockedState::enter(shared_values, reason, Some(allow_lan), outcomes.block_policy_ok);
                EventConsequence::NewState(state, transition)
            },
            MachineInput::Command(TunnelCommand::AllowLan(allow_lan)) => {
                shared_values.allow_lan = allow_lan;
                EventConsequence::SameState(TunnelStateWrapper::Disconnected(self))
            },
            MachineInput::Command(TunnelCommand::Disconnect) => {
                EventConsequence::SameState(TunnelStateWrapper::Disconnected(self))
            },
            MachineInput::Monitor(_) => {
                EventConsequence::SameState(TunnelStateWrapper::Disconnected(self))
            },
            MachineInput::ChannelClosed => EventConsequence::Finished,
        }
    }
}

} // verus!
