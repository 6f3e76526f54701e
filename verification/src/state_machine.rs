//! The driver of the tunnel state machine: the single wrapper around the
//! active state, the consequence of one evaluated input, and the machine
//! that consumes inputs one at a time and publishes exactly one transition
//! notification per state change, in order.

use vstd::prelude::*;
use crate::commands::MachineInput;
use crate::platform::PlatformOutcomes;
use crate::policy::{SecurityPolicy, SharedTunnelStateValues};
use crate::tunnel::TunnelStateTransition;
use crate::blocked_state::BlockedState;
use crate::connected_state::ConnectedState;
use crate::connecting_state::ConnectingState;
use crate::disconnected_state::DisconnectedState;
use crate::disconnecting_state::DisconnectingState;

verus! {

/// The active tunnel state. Exactly one variant is active at any instant;
/// on every transition the old state is consumed and the next one is
/// constructed — never aliased or mutated in place.
pub enum TunnelStateWrapper {
    /// No tunnel is running.
    Disconnected(DisconnectedState),
    /// A connection attempt is in progress.
    Connecting(ConnectingState),
    /// The tunnel is up.
    Connected(ConnectedState),
    /// The tunnel is being torn down.
    Disconnecting(DisconnectingState),
    /// All connections are blocked.
    Blocked(BlockedState),
}

/// Result of evaluating one input against the active state.
pub enum EventConsequence {
    /// The machine moved to a new state and owes its subscribers this
    /// transition notification.
    NewState(TunnelStateWrapper, TunnelStateTransition),
    /// The machine stays in the same state (possibly with refreshed
    /// bookkeeping, such as a queued connect); nothing is published.
    SameState(TunnelStateWrapper),
    /// The command channel closed: the machine shuts down.
    Finished,
}

/// The notification that describes a state.
pub open spec fn transition_of(state: TunnelStateWrapper) -> TunnelStateTransition {
    match state {
        TunnelStateWrapper::Disconnected(_) => TunnelStateTransition::Disconnected,
        TunnelStateWrapper::Connecting(_) => TunnelStateTransition::Connecting,
        TunnelStateWrapper::Connected(_) => TunnelStateTransition::Connected,
        TunnelStateWrapper::Disconnecting(_) => TunnelStateTransition::Disconnecting,
        TunnelStateWrapper::Blocked(blocked) => TunnelStateTransition::Blocked(blocked.reason),
    }
}

impl TunnelStateWrapper {
    /// How the active state answers one input.
    pub open spec fn spec_handle(
        self,
        shared: SharedTunnelStateValues,
        input: MachineInput,
        outcomes: PlatformOutcomes,
    ) -> (SharedTunnelStateValues, EventConsequence) {
        match self {
            TunnelStateWrapper::Disconnected(_) => {
                crate::disconnected_state::spec_handle_disconnected(shared, input, outcomes)
            },
            TunnelStateWrapper::Connecting(state) => {
                crate::connecting_state::spec_handle_connecting(state, shared, input, outcomes)
            },
            TunnelStateWrapper::Connected(state) => {
                crate::connected_state::spec_handle_connected(state, shared, input, outcomes)
            },
            TunnelStateWrapper::Disconnecting(state) => {
                crate::disconnecting_state::spec_handle_disconnecting(state, shared, input, outcomes)
            },
            TunnelStateWrapper::Blocked(state) => {
                crate::blocked_state::spec_handle_blocked(state, shared, input, outcomes)
            },
        }
    }

    /// Dispatch one input to the active state, consuming it.
    pub fn handle_event(
        self,
        input: MachineInput,
        shared_values: &mut SharedTunnelStateValues,
        outcomes: PlatformOutcomes,
    ) -> (consequence: EventConsequence)
        ensures
            *final(shared_values) == self.spec_handle(*old(shared_values), input, outcomes).0,
            consequence == self.spec_handle(*old(shared_values), input, outcomes).1,
    {
        match self {
            TunnelStateWrapper::Disconnected(state) => state.handle_event(input, shared_values, outcomes),
            TunnelStateWrapper::Connecting(state) => state.handle_event(input, shared_values, outcomes),
            TunnelStateWrapper::Connected(state) => state.handle_event(input, shared_values, outcomes),
            TunnelStateWrapper::Disconnecting(state) => state.handle_event(input, shared_values, outcomes),
            TunnelStateWrapper::Blocked(state) => state.handle_event(input, shared_values, outcomes),
        }
    }
}

/// Whether the machine keeps running after an input.
#[derive(Clone, Copy, Debug, PartialEq, Eq, Structural)]
pub enum MachineStatus {
    /// The machine waits for the next input.
    Running,
    /// The command channel closed; the final policy reset was attempted and
    /// the machine is done.
    Finished,
}

/// The tunnel state machine: the active state, the shared values, and the
/// record of every transition notification published so far, in order.
pub struct TunnelStateMachine {
    /// The single active state.
    pub state: TunnelStateWrapper,
    /// Context threaded through every entry action and event.
    pub shared_values: SharedTunnelStateValues,
    /// Every published transition notification, oldest first. Exactly one
    /// is appended per state change and none otherwise.
    pub transitions: Vec<TunnelStateTransition>,
}

impl TunnelStateMachine {
    /// A fresh machine: disconnected, with the host's permissive default
    /// policy in force and nothing published yet.
    pub fn new(allow_lan: bool) -> (machine: TunnelStateMachine)
        ensures
            machine.state is Disconnected,
            machine.shared_values.security.active == SecurityPolicy::AllowAll,
            machine.shared_values.allow_lan == allow_lan,
            machine.transitions@ =~= Seq::<TunnelStateTransition>::empty(),
    {
        TunnelStateMachine {
            state: TunnelStateWrapper::Disconnected(DisconnectedState),
            shared_values: SharedTunnelStateValues::new(allow_lan),
            transitions: Vec::new(),
        }
    }

    /// Consume one input: dispatch it to the active state, install the
    /// resulting state, and publish the transition notification, if any,
    /// before the next input is looked at. When the input reports the
    /// command channel closed, a final policy reset is attempted — fail
    /// safe — and the machine finishes whatever that reset returned.
    pub fn handle_input(&mut self, input: MachineInput, outcomes: PlatformOutcomes) -> (status: MachineStatus)
        ensures
            ({
                let step = old(self).state.spec_handle(old(self).shared_values, input, outcomes);
                match step.1 {
                    EventConsequence::NewState(next, transition) => {
                        &&& status is Running
                        &&& final(self).state == next
                        &&& final(self).shared_values == step.0
                        &&& final(self).transitions@ == old(self).transitions@.push(transition)
                        &&& transition == transition_of(next)
                    },
                    EventConsequence::SameState(same) => {
                        &&& status is Running
                        &&& final(self).state == same
                        &&& final(self).shared_values == step.0
                        &&& final(self).transitions@ == old(self).transitions@
                        &&& transition_of(same) == transition_of(old(self).state)
                    },
                    EventConsequence::Finished => {
                        &&& status is Finished
                        &&& final(self).transitions@ == old(self).transitions@
                        &&& (outcomes.policy_ok ==> final(self).shared_values.security.active
                            == SecurityPolicy::AllowAll)
                        &&& (!outcomes.policy_ok ==> final(self).shared_values.security
                            == step.0.security)
                        &&& final(self).shared_values.allow_lan == step.0.allow_lan
                    },
                }
            }),
    {
        let ghost pre_state = self.state;
        let ghost pre_shared = self.shared_values;
        let ghost pre_input = input;
        proof {
            crate::laws::lemma_transition_describes_state(pre_state, pre_shared, pre_input, outcomes);
            crate::laws::lemma_same_state_keeps_shape(pre_state, pre_shared, pre_input, outcomes);
        }
        let mut state = TunnelStateWrapper::Disconnected(DisconnectedState);
        core::mem::swap(&mut state, &mut self.state);
        match state.handle_event(input, &mut self.shared_values, outcomes) {
            EventConsequence::NewState(next, transition) => {
                self.state = next;
                self.transitions.push(transition);
                MachineStatus::Running
            },
            EventConsequence::SameState(same) => {
                self.state = same;
                MachineStatus::Running
            },
            EventConsequence::Finished => {
                DisconnectedState::reset_security_policy(&mut self.shared_values, outcomes.policy_ok);
                MachineStatus::Finished
            },
        }
    }

    /// The most recently published transition notification, if any.
    pub fn latest_transition(&self) -> (latest: Option<&TunnelStateTransition>)
        ensures
            self.transitions@.len() == 0 ==> latest is None,
            self.transitions@.len() > 0 ==> (latest matches Some(t) && *t == self.transitions@.last()),
    {
        if self.transitions.len() == 0 {
            None
        } else {
            Some(&self.transitions[self.transitions.len() - 1])
        }
    }
}

} // verus!
