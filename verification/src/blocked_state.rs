//! The fail-safe state: the tunnel is down and the host is secured by
//! blocking all connections.

use vstd::prelude::*;
use crate::commands::{MachineInput, TunnelCommand};
use crate::platform::PlatformOutcomes;
use crate::policy::{SecurityPolicy, SecurityPolicyEngine, SharedTunnelStateValues};
use crate::tunnel::{BlockReason, TunnelStateTransition};
use crate::connecting_state::ConnectingState;
use crate::disconnected_state::DisconnectedState;
use crate::state_machine::{EventConsequence, TunnelStateWrapper};

verus! {

/// All connections are blocked; the recorded reason says why.
pub struct BlockedState {
    /// Why the machine entered the blocked state.
    pub reason: BlockReason,
}

/// Entry into the blocked state: the allow-LAN setting is updated when the
/// triggering command carried one, the block-all policy is applied, and the
/// reason is recorded. A failed block-all application is reported by the
/// embedder's log and leaves the engine's record unchanged; the machine
/// still stays blocked, which starts no traffic.
pub open spec fn spec_enter_blocked(
    shared: SharedTunnelStateValues,
    reason: BlockReason,
    allow_lan: Option<bool>,
    host_ok: bool,
) -> (SharedTunnelStateValues, TunnelStateWrapper, TunnelStateTransition) {
    let lan = match allow_lan {
        Some(setting) => setting,
        None => shared.allow_lan,
    };
    let active = if host_ok {
        SecurityPolicy::BlockAll
    } else {
        shared.security.active
    };
    (
        SharedTunnelStateValues { security: SecurityPolicyEngine { active }, allow_lan: lan },
        TunnelStateWrapper::Blocked(BlockedState { reason }),
        TunnelStateTransition::Blocked(reason),
    )
}

/// How the blocked state answers one input: `Connect` attempts recovery,
/// `Disconnect` returns to the unsecured state, a new `Block` replaces the
/// reason without any intermediate unblocking, and nothing else changes the
/// state.
pub open spec fn spec_handle_blocked(
    state: BlockedState,
    shared: SharedTunnelStateValues,
    input: MachineInput,
    outcomes: PlatformOutcomes,
) -> (SharedTunnelStateValues, EventConsequence) {
    match input {
        MachineInput::Command(TunnelCommand::Connect(parameters)) => {
            let step = crate::connecting_state::spec_enter_connecting(shared, parameters, outcomes);
            (step.0, EventConsequence::NewState(step.1, step.2))
        },
        MachineInput::Command(TunnelCommand::Disconnect) => {
            let step = crate::disconnected_state::spec_enter_disconnected(shared, outcomes.policy_ok);
            (step.0, EventConsequence::NewState(step.1, step.2))
        },
        MachineInput::Command(TunnelCommand::Block(reason, allow_lan)) => {
            let step = spec_enter_blocked(shared, reason, Some(allow_lan), outcomes.block_policy_ok);
            (step.0, EventConsequence::NewState(step.1, step.2))
        },
        MachineInput::Command(TunnelCommand::AllowLan(allow_lan)) => (
            SharedTunnelStateValues { security: shared.security, allow_lan },
            EventConsequence::SameState(TunnelStateWrapper::Blocked(state)),
        ),
        MachineInput::Monitor(_) => (
            shared,
            EventConsequence::SameState(TunnelStateWrapper::Blocked(state)),
        ),
        MachineInput::ChannelClosed => (shared, EventConsequence::Finished),
    }
}

impl BlockedState {
    /// Enter the blocked state with the given reason. Entering from an
    /// already blocked state merely replaces the reason: the block-all
    /// policy is re-applied, never lifted in between.
    pub fn enter(
        shared_values: &mut SharedTunnelStateValues,
        reason: BlockReason,
        allow_lan: Option<bool>,
        host_ok: bool,
    ) -> (entered: (TunnelStateWrapper, TunnelStateTransition))
        ensures
            *final(shared_values) == spec_enter_blocked(*old(shared_values), reason, allow_lan, host_ok).0,
            entered.0 == spec_enter_blocked(*old(shared_values), reason, allow_lan, host_ok).1,
            entered.1 == spec_enter_blocked(*old(shared_values), reason, allow_lan, host_ok).2,
    {
        if let Some(setting) = allow_lan {
            shared_values.allow_lan = setting;
        }
        let _ = shared_values.security.apply_policy(SecurityPolicy::BlockAll, host_ok);
        let transition = TunnelStateTransition::Blocked(reason.duplicate());
        (TunnelStateWrapper::Blocked(BlockedState { reason }), transition)
    }

    /// Answer one input while blocked.
    pub fn handle_event(
        self,
        input: MachineInput,
        shared_values: &mut SharedTunnelStateValues,
        outcomes: PlatformOutcomes,
    ) -> (consequence: EventConsequence)
        ensures
            *final(shared_values) == spec_handle_blocked(self, *old(shared_values), input, outcomes).0,
            consequence == spec_handle_blocked(self, *old(shared_values), input, outcomes).1,
    {
        match input {
            MachineInput::Command(TunnelCommand::Connect(parameters)) => {
                let (state, transition) = ConnectingState::enter(shared_values, parameters, outcomes);
                EventConsequence::NewState(state, transition)
            },
            MachineInput::Command(TunnelCommand::Disconnect) => {
                let (state, transition) = DisconnectedState::enter(shared_values, outcomes.policy_ok);
                EventConsequence::NewState(state, transition)
            },
            MachineInput::Command(TunnelCommand::Block(reason, allow_lan)) => {
                let (state, transition) =
                    BlockedState::enter(shared_values, reason, Some(allow_lan), outcomes.block_policy_ok);
                EventConsequence::NewState(state, transition)
            },
            MachineInput::Command(TunnelCommand::AllowLan(allow_lan)) => {
                shared_values.allow_lan = allow_lan;
                EventConsequence::SameState(TunnelStateWrapper::Blocked(self))
            },
            MachineInput::Monitor(_) => {
                EventConsequence::SameState(TunnelStateWrapper::Blocked(self))
            },
            MachineInput::ChannelClosed => EventConsequence::Finished,
        }
    }
}

} // verus!
