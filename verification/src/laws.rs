//! The safety laws of the state machine, proved once and for all over the
//! specification functions that every executable step is verified against.

use vstd::prelude::*;
use crate::commands::{MachineInput, TunnelCommand, TunnelParameters};
use crate::platform::{establishment_succeeds, PlatformOutcomes};
use crate::policy::{SecurityPolicy, SharedTunnelStateValues};
use crate::tunnel::BlockReason;
use crate::blocked_state::{spec_enter_blocked, spec_handle_blocked, BlockedState};
use crate::connected_state::spec_enter_connected;
use crate::connecting_state::spec_enter_connecting;
use crate::disconnected_state::spec_enter_disconnected;
use crate::state_machine::{transition_of, EventConsequence, TunnelStateWrapper};

verus! {

/// Every state change announces itself truthfully: whenever a step yields a
/// new state, the single transition it publishes is exactly the one that
/// describes that state.
pub proof fn lemma_transition_describes_state(
    state: TunnelStateWrapper,
    shared: SharedTunnelStateValues,
    input: MachineInput,
    outcomes: PlatformOutcomes,
)
    ensures
        state.spec_handle(shared, input, outcomes).1 matches EventConsequence::NewState(next, transition)
            ==> transition == transition_of(next),
{
}

/// A step that stays in the same state never changes which state that is:
/// it may refresh bookkeeping (a queued connect, the allow-LAN setting) but
/// the notification that would describe the state is unchanged, so nothing
/// need be published.
pub proof fn lemma_same_state_keeps_shape(
    state: TunnelStateWrapper,
    shared: SharedTunnelStateValues,
    input: MachineInput,
    outcomes: PlatformOutcomes,
)
    ensures
        state.spec_handle(shared, input, outcomes).1 matches EventConsequence::SameState(same)
            ==> transition_of(same) == transition_of(state),
{
}

/// Fail safe: if the security policy engine reports failure while a
/// connection attempt is being secured, the attempt ends blocked with the
/// policy failure recorded — never connecting over an open host.
pub proof fn lemma_connecting_policy_failure_blocks(
    shared: SharedTunnelStateValues,
    parameters: TunnelParameters,
    outcomes: PlatformOutcomes,
)
    requires
        !outcomes.policy_ok,
    ensures
        spec_enter_connecting(shared, parameters, outcomes).1 matches TunnelStateWrapper::Blocked(b)
            && b.reason == BlockReason::SetSecurityPolicyError,
{
}

/// Fail safe: if the policy engine or the platform network adapter reports
/// failure while the connected state is being established, entry ends
/// blocked with the reason matching the failure kind — never connected.
pub proof fn lemma_connected_entry_failure_blocks(
    shared: SharedTunnelStateValues,
    outcomes: PlatformOutcomes,
)
    requires
        !establishment_succeeds(outcomes),
    ensures
        spec_enter_connected(shared, outcomes).1 is Blocked,
        !outcomes.policy_ok
            ==> (spec_enter_connected(shared, outcomes).1 matches TunnelStateWrapper::Blocked(b)
                && b.reason == BlockReason::SetSecurityPolicyError),
        outcomes.policy_ok && (outcomes.routing is Err || outcomes.ipv6 is Err)
            ==> (spec_enter_connected(shared, outcomes).1 matches TunnelStateWrapper::Blocked(b)
                && b.reason == BlockReason::StartTunnelError),
{
}

/// From any state and for any input: when any host operation of the step
/// failed, the step never ends in the connected state.
pub proof fn lemma_failure_never_connects(
    state: TunnelStateWrapper,
    shared: SharedTunnelStateValues,
    input: MachineInput,
    outcomes: PlatformOutcomes,
)
    requires
        !establishment_succeeds(outcomes),
    ensures
        !(state.spec_handle(shared, input, outcomes).1 matches EventConsequence::NewState(next, _)
            && next is Connected),
{
}

/// From the blocked state, `Connect` moves to connecting (when the
/// establishment policy takes), `Disconnect` moves to disconnected, a new
/// `Block` stays blocked with the reason replaced, and no other command
/// changes the state.
pub proof fn lemma_blocked_transitions(
    state: BlockedState,
    shared: SharedTunnelStateValues,
    input: MachineInput,
    outcomes: PlatformOutcomes,
)
    ensures
        input matches MachineInput::Command(TunnelCommand::Connect(_)) && outcomes.policy_ok
            ==> (spec_handle_blocked(state, shared, input, outcomes).1
                matches EventConsequence::NewState(next, _) && next is Connecting),
        input matches MachineInput::Command(TunnelCommand::Disconnect)
            ==> (spec_handle_blocked(state, shared, input, outcomes).1
                matches EventConsequence::NewState(next, _) && next is Disconnected),
        input matches MachineInput::Command(TunnelCommand::Block(reason, _))
            ==> (spec_handle_blocked(state, shared, input, outcomes).1
                matches EventConsequence::NewState(next, _)
                && (next matches TunnelStateWrapper::Blocked(b) && b.reason == reason)),
        input matches MachineInput::Command(TunnelCommand::AllowLan(_))
            ==> (spec_handle_blocked(state, shared, input, outcomes).1
                matches EventConsequence::SameState(same) && same is Blocked),
        input is Monitor
            ==> (spec_handle_blocked(state, shared, input, outcomes).1
                matches EventConsequence::SameState(same) && same is Blocked),
{
}

/// After a completed entry into the disconnected state the permissive
/// default policy is active: no restrictive policy entries remain.
pub proof fn lemma_disconnected_allows_all(shared: SharedTunnelStateValues, host_ok: bool)
    requires
        host_ok,
    ensures
        spec_enter_disconnected(shared, host_ok).0.security.active == SecurityPolicy::AllowAll,
{
}

/// Whenever entry completes as connected, the tunnel-only policy is active
/// and the adapter confirmed top routing priority for the tunnel interface.
pub proof fn lemma_connected_is_secured(shared: SharedTunnelStateValues, outcomes: PlatformOutcomes)
    requires
        spec_enter_connected(shared, outcomes).1 is Connected,
    ensures
        spec_enter_connected(shared, outcomes).0.security.active == SecurityPolicy::ThroughTunnel,
        outcomes.routing is Ok,
        outcomes.ipv6 is Ok,
{
}

/// Entering blocked on top of blocked replaces the observable reason
/// without any intermediate unblocking: when the block-all policy was in
/// force before, it stays in force through the re-entry, whatever the host
/// reports for the re-application.
pub proof fn lemma_reblock_keeps_block_all(
    shared: SharedTunnelStateValues,
    reason: BlockReason,
    allow_lan: Option<bool>,
    host_ok: bool,
)
    requires
        shared.security.active == SecurityPolicy::BlockAll,
    ensures
        spec_enter_blocked(shared, reason, allow_lan, host_ok).0.security.active
            == SecurityPolicy::BlockAll,
        spec_enter_blocked(shared, reason, allow_lan, host_ok).1
            matches TunnelStateWrapper::Blocked(b) && b.reason == reason,
{
}

/// The policy that must protect an attempt or a live tunnel is in force
/// whenever the machine is in the matching state.
pub open spec fn policy_consistent(state: TunnelStateWrapper, shared: SharedTunnelStateValues) -> bool {
    &&& state is Connecting ==> shared.security.active == SecurityPolicy::RelayOnly
    &&& state is Connected ==> shared.security.active == SecurityPolicy::ThroughTunnel
}

/// Safety invariant, preserved by every step that keeps the machine
/// running: while the machine reports a connection attempt the
/// establishment policy is active, and while it reports a live tunnel the
/// tunnel-only policy is active — at every inspection point, not only on
/// entry.
pub proof fn lemma_policy_consistency_preserved(
    state: TunnelStateWrapper,
    shared: SharedTunnelStateValues,
    input: MachineInput,
    outcomes: PlatformOutcomes,
)
    requires
        policy_consistent(state, shared),
    ensures
        ({
            let step = state.spec_handle(shared, input, outcomes);
            &&& (step.1 matches EventConsequence::NewState(next, _)
                ==> policy_consistent(next, step.0))
            &&& (step.1 matches EventConsequence::SameState(same)
                ==> policy_consistent(same, step.0))
        }),
{
}

/// The state and shared values after the machine has consumed a whole
/// sequence of inputs, each with the host outcomes its step observed.
/// Consumption stops early when a step finishes the machine.
pub open spec fn spec_run(
    state: TunnelStateWrapper,
    shared: SharedTunnelStateValues,
    inputs: Seq<(MachineInput, PlatformOutcomes)>,
) -> (TunnelStateWrapper, SharedTunnelStateValues)
    decreases inputs.len(),
{
    if inputs.len() == 0 {
        (state, shared)
    } else {
        let step = state.spec_handle(shared, inputs[0].0, inputs[0].1);
        let rest = inputs.subrange(1, inputs.len() as int);
        match step.1 {
            EventConsequence::NewState(next, _) => spec_run(next, step.0, rest),
            EventConsequence::SameState(same) => spec_run(same, step.0, rest),
            EventConsequence::Finished => (state, shared),
        }
    }
}

/// For every command sequence whatsoever, and whatever the host reports at
/// every step: a machine whose policy is consistent with its state keeps
/// that consistency at every inspection point of the run.
pub proof fn lemma_policy_consistency_along_any_run(
    state: TunnelStateWrapper,
    shared: SharedTunnelStateValues,
    inputs: Seq<(MachineInput, PlatformOutcomes)>,
)
    requires
        policy_consistent(state, shared),
    ensures
        policy_consistent(spec_run(state, shared, inputs).0, spec_run(state, shared, inputs).1),
    decreases inputs.len(),
{
    if inputs.len() > 0 {
        lemma_policy_consistency_preserved(state, shared, inputs[0].0, inputs[0].1);
        let step = state.spec_handle(shared, inputs[0].0, inputs[0].1);
        let rest = inputs.subrange(1, inputs.len() as int);
        match step.1 {
            EventConsequence::NewState(next, _) => {
                lemma_policy_consistency_along_any_run(next, step.0, rest);
            },
            EventConsequence::SameState(same) => {
                lemma_policy_consistency_along_any_run(same, step.0, rest);
            },
            EventConsequence::Finished => {},
        }
    }
}

} // verus!
