use talpid_core::commands::{MachineInput, TunnelCommand, TunnelError, TunnelMonitorEvent, TunnelParameters};
use talpid_core::platform::{PlatformOutcomes, RouteError};
use talpid_core::policy::SecurityPolicy;
use talpid_core::state_machine::{MachineStatus, TunnelStateMachine, TunnelStateWrapper};
use talpid_core::tunnel::{BlockReason, TunnelStateTransition};

fn all_ok() -> PlatformOutcomes {
    PlatformOutcomes::all_ok()
}

fn params(endpoint: &str) -> TunnelParameters {
    TunnelParameters { relay_endpoint: endpoint.to_string() }
}

fn connect(endpoint: &str) -> MachineInput {
    MachineInput::Command(TunnelCommand::Connect(params(endpoint)))
}

#[test]
fn connect_success_transitions() {
    // From disconnected, a connect command followed by a monitor
    // success yields exactly [Connecting, Connected], in order.
    let mut machine = TunnelStateMachine::new(false);
    assert!(machine.transitions.is_empty());
    let status = machine.handle_input(connect("relay-1"), all_ok());
    assert_eq!(status, MachineStatus::Running);
    let status = machine.handle_input(MachineInput::Monitor(TunnelMonitorEvent::Connected), all_ok());
    assert_eq!(status, MachineStatus::Running);
    assert_eq!(
        machine.transitions,
        vec![TunnelStateTransition::Connecting, TunnelStateTransition::Connected]
    );
    assert!(matches!(machine.state, TunnelStateWrapper::Connected(_)));
}

#[test]
fn auth_failure_blocks_with_message() {
    // While connecting, the monitor reports an authentication
    // failure; the machine blocks with that exact reason.
    let mut machine = TunnelStateMachine::new(false);
    machine.handle_input(connect("relay-1"), all_ok());
    let failure = MachineInput::Monitor(TunnelMonitorEvent::Failed(TunnelError::AuthFailed(
        "bad token".to_string(),
    )));
    machine.handle_input(failure, all_ok());
    assert_eq!(
        machine.transitions.last(),
        Some(&TunnelStateTransition::Blocked(BlockReason::AuthFailed("bad token".to_string())))
    );
    assert!(matches!(machine.state, TunnelStateWrapper::Blocked(_)));
    assert_eq!(machine.shared_values.security.active, SecurityPolicy::BlockAll);
}

#[test]
fn disconnect_opens_policy_only_at_the_end() {
    // Disconnect from connected. The restrictive policy stays in
    // force through the disconnecting state and opens only once the monitor
    // confirms closure.
    let mut machine = TunnelStateMachine::new(false);
    machine.handle_input(connect("relay-1"), all_ok());
    machine.handle_input(MachineInput::Monitor(TunnelMonitorEvent::Connected), all_ok());
    machine.handle_input(MachineInput::Command(TunnelCommand::Disconnect), all_ok());
    assert!(matches!(machine.state, TunnelStateWrapper::Disconnecting(_)));
    assert_eq!(machine.shared_values.security.active, SecurityPolicy::ThroughTunnel);
    machine.handle_input(MachineInput::Monitor(TunnelMonitorEvent::Closed), all_ok());
    assert!(matches!(machine.state, TunnelStateWrapper::Disconnected(_)));
    assert_eq!(machine.shared_values.security.active, SecurityPolicy::AllowAll);
    assert_eq!(
        machine.transitions,
        vec![
            TunnelStateTransition::Connecting,
            TunnelStateTransition::Connected,
            TunnelStateTransition::Disconnecting,
            TunnelStateTransition::Disconnected,
        ]
    );
}

#[test]
fn block_command_from_disconnected() {
    // A block command in the disconnected state blocks with the
    // given reason and the block-all policy in force.
    let mut machine = TunnelStateMachine::new(true);
    let block = MachineInput::Command(TunnelCommand::Block(BlockReason::NoAccountToken, false));
    machine.handle_input(block, all_ok());
    assert_eq!(
        machine.transitions,
        vec![TunnelStateTransition::Blocked(BlockReason::NoAccountToken)]
    );
    assert_eq!(machine.shared_values.security.active, SecurityPolicy::BlockAll);
    assert_eq!(machine.shared_values.allow_lan, false);
}

#[test]
fn channel_closed_resets_and_finishes() {
    // The command channel closes while connected; the machine
    // attempts a final policy reset and finishes.
    let mut machine = TunnelStateMachine::new(false);
    machine.handle_input(connect("relay-1"), all_ok());
    machine.handle_input(MachineInput::Monitor(TunnelMonitorEvent::Connected), all_ok());
    let status = machine.handle_input(MachineInput::ChannelClosed, all_ok());
    assert_eq!(status, MachineStatus::Finished);
    assert_eq!(machine.shared_values.security.active, SecurityPolicy::AllowAll);
}

#[test]
fn channel_closed_finishes_even_when_reset_fails() {
    // The machine terminates regardless of the final reset's outcome; a
    // failed reset leaves the last restrictive policy recorded.
    let mut machine = TunnelStateMachine::new(false);
    machine.handle_input(connect("relay-1"), all_ok());
    machine.handle_input(MachineInput::Monitor(TunnelMonitorEvent::Connected), all_ok());
    let failed_reset = PlatformOutcomes { policy_ok: false, ..all_ok() };
    let status = machine.handle_input(MachineInput::ChannelClosed, failed_reset);
    assert_eq!(status, MachineStatus::Finished);
    assert_eq!(machine.shared_values.security.active, SecurityPolicy::ThroughTunnel);
}

#[test]
fn policy_failure_on_connect_blocks() {
    // A policy engine failure during a connection-establishing action leads
    // to blocked with the matching reason, never to connecting.
    let mut machine = TunnelStateMachine::new(false);
    let outcomes = PlatformOutcomes { policy_ok: false, ..all_ok() };
    machine.handle_input(connect("relay-1"), outcomes);
    assert_eq!(
        machine.transitions,
        vec![TunnelStateTransition::Blocked(BlockReason::SetSecurityPolicyError)]
    );
    assert_eq!(machine.shared_values.security.active, SecurityPolicy::BlockAll);
}

#[test]
fn adapter_failure_on_connected_entry_blocks() {
    // A platform adapter failure while entering connected blocks with the
    // start-tunnel reason, never reports connected.
    let mut machine = TunnelStateMachine::new(false);
    machine.handle_input(connect("relay-1"), all_ok());
    let outcomes = PlatformOutcomes { routing: Err(RouteError::MetricApplication), ..all_ok() };
    machine.handle_input(MachineInput::Monitor(TunnelMonitorEvent::Connected), outcomes);
    assert!(matches!(machine.state, TunnelStateWrapper::Blocked(_)));
    assert_eq!(
        machine.transitions.last(),
        Some(&TunnelStateTransition::Blocked(BlockReason::StartTunnelError))
    );
}

#[test]
fn ipv6_failure_on_connected_entry_blocks() {
    let mut machine = TunnelStateMachine::new(false);
    machine.handle_input(connect("relay-1"), all_ok());
    let outcomes = PlatformOutcomes { ipv6: Err(RouteError::GetIpv6Status), ..all_ok() };
    machine.handle_input(MachineInput::Monitor(TunnelMonitorEvent::Connected), outcomes);
    assert_eq!(
        machine.transitions.last(),
        Some(&TunnelStateTransition::Blocked(BlockReason::StartTunnelError))
    );
}

#[test]
fn blocked_recovers_on_connect() {
    // From blocked, a connect command attempts recovery through connecting.
    let mut machine = TunnelStateMachine::new(false);
    machine.handle_input(
        MachineInput::Command(TunnelCommand::Block(BlockReason::NoMatchingRelay, false)),
        all_ok(),
    );
    machine.handle_input(connect("relay-2"), all_ok());
    assert!(matches!(machine.state, TunnelStateWrapper::Connecting(_)));
    assert_eq!(machine.shared_values.security.active, SecurityPolicy::RelayOnly);
}

#[test]
fn blocked_disconnects_to_disconnected() {
    let mut machine = TunnelStateMachine::new(false);
    machine.handle_input(
        MachineInput::Command(TunnelCommand::Block(BlockReason::NoMatchingRelay, false)),
        all_ok(),
    );
    machine.handle_input(MachineInput::Command(TunnelCommand::Disconnect), all_ok());
    assert!(matches!(machine.state, TunnelStateWrapper::Disconnected(_)));
    assert_eq!(machine.shared_values.security.active, SecurityPolicy::AllowAll);
}

#[test]
fn blocked_ignores_other_commands() {
    // No command other than connect, disconnect, and block changes the
    // blocked state; nothing is published for them.
    let mut machine = TunnelStateMachine::new(false);
    machine.handle_input(
        MachineInput::Command(TunnelCommand::Block(BlockReason::NoMatchingRelay, false)),
        all_ok(),
    );
    let published = machine.transitions.len();
    machine.handle_input(MachineInput::Command(TunnelCommand::AllowLan(true)), all_ok());
    assert!(matches!(machine.state, TunnelStateWrapper::Blocked(_)));
    assert_eq!(machine.transitions.len(), published);
    assert_eq!(machine.shared_values.allow_lan, true);
    machine.handle_input(MachineInput::Monitor(TunnelMonitorEvent::Closed), all_ok());
    assert!(matches!(machine.state, TunnelStateWrapper::Blocked(_)));
    assert_eq!(machine.transitions.len(), published);
}

#[test]
fn reblock_replaces_reason_without_unblocking() {
    // Two successive block commands with different reasons update the
    // observable reason; the block-all policy never lifts in between.
    let mut machine = TunnelStateMachine::new(false);
    machine.handle_input(
        MachineInput::Command(TunnelCommand::Block(BlockReason::NoAccountToken, false)),
        all_ok(),
    );
    assert_eq!(machine.shared_values.security.active, SecurityPolicy::BlockAll);
    machine.handle_input(
        MachineInput::Command(TunnelCommand::Block(BlockReason::NoMatchingRelay, false)),
        all_ok(),
    );
    assert_eq!(machine.shared_values.security.active, SecurityPolicy::BlockAll);
    assert_eq!(
        machine.transitions,
        vec![
            TunnelStateTransition::Blocked(BlockReason::NoAccountToken),
            TunnelStateTransition::Blocked(BlockReason::NoMatchingRelay),
        ]
    );
}

#[test]
fn one_transition_per_state_change() {
    // Inputs that change no state publish nothing; each state change
    // publishes exactly one notification.
    let mut machine = TunnelStateMachine::new(false);
    machine.handle_input(MachineInput::Command(TunnelCommand::Disconnect), all_ok());
    machine.handle_input(MachineInput::Command(TunnelCommand::AllowLan(true)), all_ok());
    assert!(machine.transitions.is_empty());
    machine.handle_input(connect("relay-1"), all_ok());
    assert_eq!(machine.transitions.len(), 1);
}

#[test]
fn queued_connect_survives_disconnecting() {
    // A connect command received while disconnecting is not lost: once the
    // monitor confirms closure the machine goes straight back to connecting.
    let mut machine = TunnelStateMachine::new(false);
    machine.handle_input(connect("relay-1"), all_ok());
    machine.handle_input(MachineInput::Monitor(TunnelMonitorEvent::Connected), all_ok());
    machine.handle_input(MachineInput::Command(TunnelCommand::Disconnect), all_ok());
    machine.handle_input(connect("relay-2"), all_ok());
    assert!(matches!(machine.state, TunnelStateWrapper::Disconnecting(_)));
    machine.handle_input(MachineInput::Monitor(TunnelMonitorEvent::Closed), all_ok());
    match &machine.state {
        TunnelStateWrapper::Connecting(connecting) => {
            assert_eq!(connecting.parameters.relay_endpoint, "relay-2");
        }
        _ => panic!("expected the connecting state"),
    }
    assert_eq!(machine.transitions.last(), Some(&TunnelStateTransition::Connecting));
}

#[test]
fn unexpected_close_while_connected_blocks() {
    let mut machine = TunnelStateMachine::new(false);
    machine.handle_input(connect("relay-1"), all_ok());
    machine.handle_input(MachineInput::Monitor(TunnelMonitorEvent::Connected), all_ok());
    machine.handle_input(MachineInput::Monitor(TunnelMonitorEvent::Closed), all_ok());
    assert_eq!(
        machine.transitions.last(),
        Some(&TunnelStateTransition::Blocked(BlockReason::StartTunnelError))
    );
}

#[test]
fn monitor_failures_map_one_to_one() {
    let cases = [
        (TunnelError::AuthFailed("denied".to_string()), BlockReason::AuthFailed("denied".to_string())),
        (TunnelError::NoMatchingRelay, BlockReason::NoMatchingRelay),
        (TunnelError::NoAccountToken, BlockReason::NoAccountToken),
        (TunnelError::StartFailure, BlockReason::StartTunnelError),
    ];
    for (error, reason) in cases {
        let mut machine = TunnelStateMachine::new(false);
        machine.handle_input(connect("relay-1"), all_ok());
        machine.handle_input(MachineInput::Monitor(TunnelMonitorEvent::Failed(error)), all_ok());
        assert_eq!(
            machine.transitions.last(),
            Some(&TunnelStateTransition::Blocked(reason))
        );
    }
}

#[test]
fn latest_transition_reports_the_last_published() {
    let mut machine = TunnelStateMachine::new(false);
    assert_eq!(machine.latest_transition(), None);
    machine.handle_input(connect("relay-1"), all_ok());
    assert_eq!(machine.latest_transition(), Some(&TunnelStateTransition::Connecting));
}
