//! The tunnel is up: only traffic through the tunnel is allowed, the tunnel
//! interface has top routing priority, and its IPv6 status has been read
//! and reconciled.

use vstd::prelude::*;
use crate::commands::{MachineInput, TunnelCommand, TunnelMonitorEvent};
use crate::platform::PlatformOutcomes;
use crate::policy::{SecurityPolicy, SecurityPolicyEngine, SharedTunnelStateValues};
use crate::tunnel::{BlockReason, TunnelStateTransition};
use crate::blocked_state::{spec_enter_blocked, BlockedState};
use crate::disconnecting_state::DisconnectingState;
use crate::state_machine::{EventConsequence, TunnelStateWrapper};

verus! {

/// The tunnel is connected and the host only speaks through it.
pub struct ConnectedState {
    /// Whether IPv6 is enabled on the tunnel interface, as the platform
    /// adapter reported on entry.
    pub ipv6_enabled: bool,
}

/// Entry into the connected state: the tunnel-only policy is applied, the
/// tunnel interface is given top routing priority, and its IPv6 status is
/// read. Any failure in that sequence escalates to the blocked state with
/// the matching reason — the machine never reports connected over an
/// unsecured or misrouted host.
pub open spec fn spec_enter_connected(
    shared: SharedTunnelStateValues,
    outcomes: PlatformOutcomes,
) -> (SharedTunnelStateValues, TunnelStateWrapper, TunnelStateTransition) {
    if !outcomes.policy_ok {
        spec_enter_blocked(shared, BlockReason::SetSecurityPolicyError, None, outcomes.block_policy_ok)
    } else {
        let secured = SharedTunnelStateValues {
            security: SecurityPolicyEngine { active: SecurityPolicy::ThroughTunnel },
            allow_lan: shared.allow_lan,
        };
        match (outcomes.routing, outcomes.ipv6) {
            (Ok(_), Ok(ipv6_enabled)) => (
                secured,
                TunnelStateWrapper::Connected(ConnectedState { ipv6_enabled }),
                TunnelStateTransition::Connected,
            ),
            _ => spec_enter_blocked(secured, BlockReason::StartTunnelError, None, outcomes.block_policy_ok),
        }
    }
}

/// How the connected state answers one input.
pub open spec fn spec_handle_connected(
    state: ConnectedState,
    shared: SharedTunnelStateValues,
    input: MachineInput,
    outcomes: PlatformOutcomes,
) -> (SharedTunnelStateValues, EventConsequence) {
    match input {
        MachineInput::Monitor(TunnelMonitorEvent::Closed) => {
            let step = spec_enter_blocked(shared, BlockReason::StartTunnelError, None, outcomes.block_policy_ok);
            (step.0, EventConsequence::NewState(step.1, step.2))
        },
        MachineInput::Monitor(TunnelMonitorEvent::Failed(error)) => {
            let step = spec_enter_blocked(
                shared,
                crate::commands::block_reason_for(error),
                None,
                outcomes.block_policy_ok,
            );
            (step.0, EventConsequence::NewState(step.1, step.2))
        },
        MachineInput::Monitor(TunnelMonitorEvent::Connected) => (
            shared,
            EventConsequence::SameState(TunnelStateWrapper::Connected(state)),
        ),
        MachineInput::Command(TunnelCommand::Disconnect) => {
            let step = crate::disconnecting_state::spec_enter_disconnecting(shared, None);
            (step.0, EventConsequence::NewState(step.1, step.2))
        },
        MachineInput::Command(TunnelCommand::Connect(parameters)) => {
            let step = crate::disconnecting_state::spec_enter_disconnecting(shared, Some(parameters));
            (step.0, EventConsequence::NewState(step.1, step.2))
        },
        MachineInput::Command(TunnelCommand::Block(reason, allow_lan)) => {
            let step = spec_enter_blocked(shared, reason, Some(allow_lan), outcomes.block_policy_ok);
            (step.0, EventConsequence::NewState(step.1, step.2))
        },
        MachineInput::Command(TunnelCommand::AllowLan(allow_lan)) => (
            SharedTunnelStateValues { security: shared.security, allow_lan },
            EventConsequence::SameState(TunnelStateWrapper::Connected(state)),
        ),
        MachineInput::ChannelClosed => (shared, EventConsequence::Finished),
    }
}

impl ConnectedState {
    /// Enter the connected state, securing policy and routing first.
    pub fn enter(
        shared_values: &mut SharedTunnelStateValues,
        outcomes: PlatformOutcomes,
    ) -> (entered: (TunnelStateWrapper, TunnelStateTransition))
        ensures
            *final(shared_values) == spec_enter_connected(*old(shared_values), outcomes).0,
            entered.0 == spec_enter_connected(*old(shared_values), outcomes).1,
            entered.1 == spec_enter_connected(*old(shared_values), outcomes).2,
    {
        match shared_values.security.apply_policy(SecurityPolicy::ThroughTunnel, outcomes.policy_ok) {
            Err(_) => BlockedState::enter(
                shared_values,
                BlockReason::SetSecurityPolicyError,
                None,
                outcomes.block_policy_ok,
            ),
            Ok(()) => match (outcomes.routing, outcomes.ipv6) {
                (Ok(_), Ok(ipv6_enabled)) => (
                    TunnelStateWrapper::Connected(ConnectedState { ipv6_enabled }),
                    TunnelStateTransition::Connected,
                ),
                _ => BlockedState::enter(
                    shared_values,
                    BlockReason::StartTunnelError,
                    None,
                    outcomes.block_policy_ok,
                ),
            },
        }
    }

    /// Answer one input while connected: an unexpected close or failure
    /// escalates to the blocked state, `Disconnect` tears down through the
    /// disconnecting state, and a new `Connect` reconnects through it with
    /// the new parameters queued.
    pub fn handle_event(
        self,
        input: MachineInput,
        shared_values: &mut SharedTunnelStateValues,
        outcomes: PlatformOutcomes,
    ) -> (consequence: EventConsequence)
        ensures
            *final(shared_values) == spec_handle_connected(self, *old(shared_values), input, outcomes).0,
            consequence == spec_handle_connected(self, *old(shared_values), input, outcomes).1,
    {
        match input {
            MachineInput::Monitor(TunnelMonitorEvent::Closed) => {
                let (state, transition) = BlockedState::enter(
                    shared_values,
                    BlockReason::StartTunnelError,
                    None,
                    outcomes.block_policy_ok,
                );
                EventConsequence::NewState(state, transition)
            },
            MachineInput::Monitor(TunnelMonitorEvent::Failed(error)) => {
                let (state, transition) = BlockedState::enter(
                    shared_values,
                    error.into_block_reason(),
                    None,
                    outcomes.block_policy_ok,
                );
                EventConsequence::NewState(state, transition)
            },
            MachineInput::Monitor(TunnelMonitorEvent::Connected) => {
                EventConsequence::SameState(TunnelStateWrapper::Connected(self))
            },
            MachineInput::Command(TunnelCommand::Disconnect) => {
                let (state, transition) = DisconnectingState::enter(shared_values, None);
                EventConsequence::NewState(state, transition)
            },
            MachineInput::Command(TunnelCommand::Connect(parameters)) => {
                let (state, transition) = DisconnectingState::enter(shared_values, Some(parameters));
                EventConsequence::NewState(state, transition)
            },
            MachineInput::Command(TunnelCommand::Block(reason, allow_lan)) => {
                let (state, transition) =
                    BlockedState::enter(shared_values, reason, Some(allow_lan), outcomes.block_policy_ok);
                EventConsequence::NewState(state, transition)
            },
            MachineInput::Command(TunnelCommand::AllowLan(allow_lan)) => {
                shared_values.allow_lan = allow_lan;
                EventConsequence::SameState(TunnelStateWrapper::Connected(self))
            },
            MachineInput::ChannelClosed => EventConsequence::Finished,
        }
    }
}

} // verus!
