use talpid_core::policy::{SecurityPolicy, SecurityPolicyEngine, SharedTunnelStateValues};
use talpid_core::tunnel::{BlockReason, TunnelStateTransition};

#[test]
fn descriptions_are_user_facing_messages() {
    assert_eq!(
        BlockReason::AuthFailed("bad token".to_string()).description(),
        "Authentication with remote server failed: bad token"
    );
    assert_eq!(
        BlockReason::SetSecurityPolicyError.description(),
        "Failed to set security policy"
    );
    assert_eq!(
        BlockReason::StartTunnelError.description(),
        "Failed to start connection to remote server"
    );
    assert_eq!(
        BlockReason::NoMatchingRelay.description(),
        "No relay server matches the current settings"
    );
    assert_eq!(BlockReason::NoAccountToken.description(), "No account token configured");
}

#[test]
fn wire_tags_are_snake_case() {
    assert_eq!(TunnelStateTransition::Disconnected.state_name(), "disconnected");
    assert_eq!(TunnelStateTransition::Connecting.state_name(), "connecting");
    assert_eq!(TunnelStateTransition::Connected.state_name(), "connected");
    assert_eq!(TunnelStateTransition::Disconnecting.state_name(), "disconnecting");
    assert_eq!(
        TunnelStateTransition::Blocked(BlockReason::NoMatchingRelay).state_name(),
        "blocked"
    );
    assert_eq!(BlockReason::AuthFailed(String::new()).reason_name(), "auth_failed");
    assert_eq!(
        BlockReason::SetSecurityPolicyError.reason_name(),
        "set_security_policy_error"
    );
    assert_eq!(BlockReason::StartTunnelError.reason_name(), "start_tunnel_error");
    assert_eq!(BlockReason::NoMatchingRelay.reason_name(), "no_matching_relay");
    assert_eq!(BlockReason::NoAccountToken.reason_name(), "no_account_token");
}

#[test]
fn duplicate_preserves_the_reason() {
    let reason = BlockReason::AuthFailed("expired".to_string());
    assert_eq!(reason.duplicate(), reason);
    assert_eq!(BlockReason::NoAccountToken.duplicate(), BlockReason::NoAccountToken);
}

#[test]
fn engine_records_successful_applications() {
    let mut engine = SecurityPolicyEngine::new();
    assert_eq!(engine.active, SecurityPolicy::AllowAll);
    assert_eq!(engine.apply_policy(SecurityPolicy::BlockAll, true), Ok(()));
    assert_eq!(engine.active, SecurityPolicy::BlockAll);
}

#[test]
fn engine_reports_and_survives_failures() {
    let mut engine = SecurityPolicyEngine::new();
    engine.apply_policy(SecurityPolicy::ThroughTunnel, true).unwrap();
    assert!(engine.apply_policy(SecurityPolicy::AllowAll, false).is_err());
    // A failed operation never silently changes the recorded policy.
    assert_eq!(engine.active, SecurityPolicy::ThroughTunnel);
}

#[test]
fn applying_the_active_policy_again_is_a_no_op() {
    let mut engine = SecurityPolicyEngine::new();
    engine.apply_policy(SecurityPolicy::BlockAll, true).unwrap();
    engine.apply_policy(SecurityPolicy::BlockAll, true).unwrap();
    assert_eq!(engine.active, SecurityPolicy::BlockAll);
}

#[test]
fn shared_values_start_permissive() {
    let shared = SharedTunnelStateValues::new(true);
    assert_eq!(shared.security.active, SecurityPolicy::AllowAll);
    assert!(shared.allow_lan);
}
