//! The tunnel is being torn down: the monitor has been asked to close, and
//! the current restrictive policy stays in force until the closure is
//! confirmed — the policy is never opened while the tunnel may still be up.

use vstd::prelude::*;
use crate::commands::{MachineInput, TunnelCommand, TunnelMonitorEvent, TunnelParameters};
use crate::platform::PlatformOutcomes;
use crate::policy::SharedTunnelStateValues;
use crate::tunnel::TunnelStateTransition;
use crate::blocked_state::{spec_enter_blocked, BlockedState};
use crate::disconnected_state::DisconnectedState;
use crate::state_machine::{EventConsequence, TunnelStateWrapper};

verus! {

/// Waiting for the tunnel monitor to confirm closure. A `Connect` received
/// meanwhile is queued, not lost: once the tunnel is down the machine goes
/// straight back to connecting with the queued parameters.
pub struct DisconnectingState {
    /// Parameters of a connection requested while tearing down.
    pub queued_connect: Option<TunnelParameters>,
}

/// Entry into the disconnecting state: the monitor is signalled to close on
/// the transition, and neither the policy nor any shared value changes.
pub open spec fn spec_enter_disconnecting(
    shared: SharedTunnelStateValues,
    queued_connect: Option<TunnelParameters>,
) -> (SharedTunnelStateValues, TunnelStateWrapper, TunnelStateTransition) {
    (
        shared,
        TunnelStateWrapper::Disconnecting(DisconnectingState { queued_connect }),
        TunnelStateTransition::Disconnecting,
    )
}

/// How the disconnecting state answers one input. A monitor report that the
/// tunnel ended — closed or failed — confirms the closure.
pub open spec fn spec_handle_disconnecting(
    state: DisconnectingState,
    shared: SharedTunnelStateValues,
    input: MachineInput,
    outcomes: PlatformOutcomes,
) -> (SharedTunnelStateValues, EventConsequence) {
    match input {
        MachineInput::Monitor(TunnelMonitorEvent::Closed) | MachineInput::Monitor(
            TunnelMonitorEvent::Failed(_),
        ) => match state.queued_connect {
            Some(parameters) => {
                let step = crate::connecting_state::spec_enter_connecting(shared, parameters, outcomes);
                (step.0, EventConsequence::NewState(step.1, step.2))
            },
            None => {
                let step = crate::disconnected_state::spec_enter_disconnected(shared, outcomes.policy_ok);
                (step.0, EventConsequence::NewState(step.1, step.2))
            },
        },
        MachineInput::Monitor(TunnelMonitorEvent::Connected) => (
            shared,
            EventConsequence::SameState(TunnelStateWrapper::Disconnecting(state)),
        ),
        MachineInput::Command(TunnelCommand::Connect(parameters)) => (
            shared,
            EventConsequence::SameState(TunnelStateWrapper::Disconnecting(DisconnectingState {
                queued_connect: Some(parameters),
            })),
        ),
        MachineInput::Command(TunnelCommand::Disconnect) => (
            shared,
            EventConsequence::SameState(TunnelStateWrapper::Disconnecting(DisconnectingState {
                queued_connect: None,
            })),
        ),
        MachineInput::Command(TunnelCommand::Block(reason, allow_lan)) => {
            let step = spec_enter_blocked(shared, reason, Some(allow_lan), outcomes.block_policy_ok);
            (step.0, EventConsequence::NewState(step.1, step.2))
        },
        MachineInput::Command(TunnelCommand::AllowLan(allow_lan)) => (
            SharedTunnelStateValues { security: shared.security, allow_lan },
            EventConsequence::SameState(TunnelStateWrapper::Disconnecting(state)),
        ),
        MachineInput::ChannelClosed => (shared, EventConsequence::Finished),
    }
}

impl DisconnectingState {
    /// Enter the disconnecting state, keeping the current policy in place.
    pub fn enter(
        shared_values: &mut SharedTunnelStateValues,
        queued_connect: Option<TunnelParameters>,
    ) -> (entered: (TunnelStateWrapper, TunnelStateTransition))
        ensures
            *final(shared_values) == spec_enter_disconnecting(*old(shared_values), queued_connect).0,
            entered.0 == spec_enter_disconnecting(*old(shared_values), queued_connect).1,
            entered.1 == spec_enter_disconnecting(*old(shared_values), queued_connect).2,
    {
        (
            TunnelStateWrapper::Disconnecting(DisconnectingState { queued_connect }),
            TunnelStateTransition::Disconnecting,
        )
    }

    /// Answer one input while disconnecting: confirmation of the closure
    /// moves on to the disconnected state, or straight back to connecting
    /// when a `Connect` was queued; a `Connect` or `Disconnect` received
    /// meanwhile only updates the queued intent.
    pub fn handle_event(
        self,
        input: MachineInput,
        shared_values: &mut SharedTunnelStateValues,
        outcomes: PlatformOutcomes,
    ) -> (consequence: EventConsequence)
        ensures
            *final(shared_values) == spec_handle_disconnecting(self, *old(shared_values), input, outcomes).0,
            consequence == spec_handle_disconnecting(self, *old(shared_values), input, outcomes).1,
    {
        match input {
            MachineInput::Monitor(TunnelMonitorEvent::Closed) | MachineInput::Monitor(
                TunnelMonitorEvent::Failed(_),
            ) => match self.queued_connect {
                Some(parameters) => {
                    let (state, transition) =
                        crate::connecting_state::ConnectingState::enter(shared_values, parameters, outcomes);
                    EventConsequence::NewState(state, transition)
                },
                None => {
                    let (state, transition) = DisconnectedState::enter(shared_values, outcomes.policy_ok);
                    EventConsequence::NewState(state, transition)
                },
            },
            MachineInput::Monitor(TunnelMonitorEvent::Connected) => {
                EventConsequence::SameState(TunnelStateWrapper::Disconnecting(self))
            },
            MachineInput::Command(TunnelCommand::Connect(parameters)) => {
                EventConsequence::SameState(TunnelStateWrapper::Disconnecting(DisconnectingState {
                    queued_connect: Some(parameters),
                }))
            },
            MachineInput::Command(TunnelCommand::Disconnect) => {
                EventConsequence::SameState(TunnelStateWrapper::Disconnecting(DisconnectingState {
                    queued_connect: None,
                }))
            },
            MachineInput::Command(TunnelCommand::Block(reason, allow_lan)) => {
                let (state, transition) =
                    BlockedState::enter(shared_values, reason, Some(allow_lan), outcomes.block_policy_ok);
                EventConsequence::NewState(state, transition)
            },
            MachineInput::Command(TunnelCommand::AllowLan(allow_lan)) => {
                shared_values.allow_lan = allow_lan;
                EventConsequence::SameState(TunnelStateWrapper::Disconnecting(self))
            },
            MachineInput::ChannelClosed => EventConsequence::Finished,
        }
    }
}

} // verus!
