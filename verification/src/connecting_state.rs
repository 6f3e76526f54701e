//! The tunnel is being established: the host is secured by a policy that
//! only lets the establishment traffic through, and the tunnel monitor has
//! been asked to start with the recorded parameters.

use vstd::prelude::*;
use crate::commands::{block_reason_for, MachineInput, TunnelCommand, TunnelMonitorEvent, TunnelParameters};
use crate::platform::PlatformOutcomes;
use crate::policy::{SecurityPolicy, SecurityPolicyEngine, SharedTunnelStateValues};
use crate::tunnel::{BlockReason, TunnelStateTransition};
use crate::blocked_state::{spec_enter_blocked, BlockedState};
use crate::connected_state::ConnectedState;
use crate::disconnecting_state::DisconnectingState;
use crate::state_machine::{EventConsequence, TunnelStateWrapper};

verus! {

/// A connection attempt is in progress with these parameters; the embedder
/// starts the tunnel monitor for them on observing the transition.
pub struct ConnectingState {
    /// Parameters the tunnel monitor was started with.
    pub parameters: TunnelParameters,
}

/// Entry into the connecting state: the restrictive establishment policy is
/// applied first; only when it is in force does the attempt proceed. A
/// policy failure escalates to the blocked state instead — the host is
/// never left open while a tunnel is wanted.
pub open spec fn spec_enter_connecting(
    shared: SharedTunnelStateValues,
    parameters: TunnelParameters,
    outcomes: PlatformOutcomes,
) -> (SharedTunnelStateValues, TunnelStateWrapper, TunnelStateTransition) {
    if outcomes.policy_ok {
        (
            SharedTunnelStateValues {
                security: SecurityPolicyEngine { active: SecurityPolicy::RelayOnly },
                allow_lan: shared.allow_lan,
            },
            TunnelStateWrapper::Connecting(ConnectingState { parameters }),
            TunnelStateTransition::Connecting,
        )
    } else {
        spec_enter_blocked(shared, BlockReason::SetSecurityPolicyError, None, outcomes.block_policy_ok)
    }
}

/// How the connecting state answers one input.
pub open spec fn spec_handle_connecting(
    state: ConnectingState,
    shared: SharedTunnelStateValues,
    input: MachineInput,
    outcomes: PlatformOutcomes,
) -> (SharedTunnelStateValues, EventConsequence) {
    match input {
        MachineInput::Monitor(TunnelMonitorEvent::Connected) => {
            let step = crate::connected_state::spec_enter_connected(shared, outcomes);
            (step.0, EventConsequence::NewState(step.1, step.2))
        },
        MachineInput::Monitor(TunnelMonitorEvent::Closed) => {
            let step = spec_enter_blocked(shared, BlockReason::StartTunnelError, None, outcomes.block_policy_ok);
            (step.0, EventConsequence::NewState(step.1, step.2))
        },
        MachineInput::Monitor(TunnelMonitorEvent::Failed(error)) => {
            let step = spec_enter_blocked(shared, block_reason_for(error), None, outcomes.block_policy_ok);
            (step.0, EventConsequence::NewState(step.1, step.2))
        },
        MachineInput::Command(TunnelCommand::Disconnect) => {
            let step = crate::disconnecting_state::spec_enter_disconnecting(shared, None);
            (step.0, EventConsequence::NewState(step.1, step.2))
        },
        MachineInput::Command(TunnelCommand::Connect(parameters)) => {
            let step = crate::disconnecting_state::spec_enter_disconnecting(shared, Some(parameters));
            (step.0, EventConsequence::NewState(step.1, step.2))
        },
        MachineInput::Command(TunnelCommand::Block(reason, allow_lan)) => {
            let step = spec_enter_blocked(shared, reason, Some(allow_lan), outcomes.block_policy_ok);
            (step.0, EventConsequence::NewState(step.1, step.2))
        },
        MachineInput::Command(TunnelCommand::AllowLan(allow_lan)) => (
            SharedTunnelStateValues { security: shared.security, allow_lan },
            EventConsequence::SameState(TunnelStateWrapper::Connecting(state)),
        ),
        MachineInput::ChannelClosed => (shared, EventConsequence::Finished),
    }
}

impl ConnectingState {
    /// Enter the connecting state for the given parameters.
    pub fn enter(
        shared_values: &mut SharedTunnelStateValues,
        parameters: TunnelParameters,
        outcomes: PlatformOutcomes,
    ) -> (entered: (TunnelStateWrapper, TunnelStateTransition))
        ensures
            *final(shared_values) == spec_enter_connecting(*old(shared_values), parameters, outcomes).0,
            entered.0 == spec_enter_connecting(*old(shared_values), parameters, outcomes).1,
            entered.1 == spec_enter_connecting(*old(shared_values), parameters, outcomes).2,
    {
        match shared_values.security.apply_policy(SecurityPolicy::RelayOnly, outcomes.policy_ok) {
            Ok(()) => (
                TunnelStateWrapper::Connecting(ConnectingState { parameters }),
                TunnelStateTransition::Connecting,
            ),
            Err(_) => BlockedState::enter(
                shared_values,
                BlockReason::SetSecurityPolicyError,
                None,
                outcomes.block_policy_ok,
            ),
        }
    }

    /// Answer one input while connecting: a successful monitor report moves
    /// on to the connected state, a failure escalates to the blocked state,
    /// `Disconnect` cancels the attempt through the disconnecting state, and
    /// a new `Connect` restarts through it with the new parameters queued.
    pub fn handle_event(
        self,
        input: MachineInput,
        shared_values: &mut SharedTunnelStateValues,
        outcomes: PlatformOutcomes,
    ) -> (consequence: EventConsequence)
        ensures
            *final(shared_values) == spec_handle_connecting(self, *old(shared_values), input, outcomes).0,
            consequence == spec_handle_connecting(self, *old(shared_values), input, outcomes).1,
    {
        match input {
            MachineInput::Monitor(TunnelMonitorEvent::Connected) => {
                let (state, transition) = ConnectedState::enter(shared_values, outcomes);
                EventConsequence::NewState(state, transition)
            },
            MachineInput::Monitor(TunnelMonitorEvent::Closed) => {
                let (state, transition) = BlockedState::enter(
                    shared_values,
                    BlockReason::StartTunnelError,
                    None,
                    outcomes.block_policy_ok,
                );
                EventConsequence::NewState(state, transition)
            },
            MachineInput::Monitor(TunnelMonitorEvent::Failed(error)) => {
                let (state, transition) = BlockedState::enter(
                    shared_values,
                    error.into_block_reason(),
                    None,
                    outcomes.block_policy_ok,
                );
                EventConsequence::NewState(state, transition)
            },
            MachineInput::Command(TunnelCommand::Disconnect) => {
                let (state, transition) = DisconnectingState::enter(shared_values, None);
                EventConsequence::NewState(state, transition)
            },
            MachineInput::Command(TunnelCommand::Connect(parameters)) => {
                let (state, transition) = DisconnectingState::enter(shared_values, Some(parameters));
                EventConsequence::NewState(state, transition)
            },
            MachineInput::Command(TunnelCommand::Block(reason, allow_lan)) => {
                let (state, transition) =
                    BlockedState::enter(shared_values, reason, Some(allow_lan), outcomes.block_policy_ok);
                EventConsequence::NewState(state, transition)
            },
            MachineInput::Command(TunnelCommand::AllowLan(allow_lan)) => {
                shared_values.allow_lan = allow_lan;
                EventConsequence::SameState(TunnelStateWrapper::Connecting(self))
            },
            MachineInput::ChannelClosed => EventConsequence::Finished,
        }
    }
}

} // verus!
