//! The platform network adapter boundary: interpretation of the small fixed
//! enumerations returned by the host routing routines, and the record of the
//! outcomes the host reported for one state-machine step.

use vstd::prelude::*;
use vstd::string::StringSliceAdditionalSpecFns;

verus! {

/// Failure of a platform network adapter operation.
#[derive(Clone, Copy, Debug, PartialEq, Eq, Structural)]
pub enum RouteError {
    /// Failed to set the metrics for a network interface.
    MetricApplication,
    /// Supplied interface alias is invalid.
    InvalidInterfaceAlias,
    /// Failed to read IPv6 status on the tunnel network interface.
    GetIpv6Status,
}

/// Interpret the return code of the host routine that ensures the tunnel
/// interface has top routing priority: 0 means the metrics were already
/// right, 1 means they were changed, 2 means failure. Any code outside the
/// documented enumeration is treated as an error, never coerced to success.
pub fn metric_code_result(code: u32) -> (result: Result<bool, RouteError>)
    ensures
        code == 0 ==> result == Ok::<bool, RouteError>(false),
        code == 1 ==> result == Ok::<bool, RouteError>(true),
        code != 0 && code != 1 ==> result == Err::<bool, RouteError>(RouteError::MetricApplication),
{
    match code {
        0u32 => Ok(false),
        1u32 => Ok(true),
        _ => Err(RouteError::MetricApplication),
    }
}

/// Interpret the return code of the host routine that reads the IPv6 status
/// of the tunnel interface: 0 means enabled, 1 means disabled, 2 means
/// failure. Any code outside the documented enumeration is treated as an
/// error, never coerced to success.
pub fn ipv6_status_result(code: u32) -> (result: Result<bool, RouteError>)
    ensures
        code == 0 ==> result == Ok::<bool, RouteError>(true),
        code == 1 ==> result == Ok::<bool, RouteError>(false),
        code != 0 && code != 1 ==> result == Err::<bool, RouteError>(RouteError::GetIpv6Status),
{
    match code {
        0u32 => Ok(true),
        1u32 => Ok(false),
        _ => Err(RouteError::GetIpv6Status),
    }
}

/// Check an interface alias before it is handed to a host routine: the
/// wide-string conversion of the alias fails exactly on an interior NUL
/// byte, and such an alias is rejected as invalid.
pub fn check_interface_alias(alias: &str) -> (result: Result<(), RouteError>)
    ensures
        result is Ok <==> (forall|i: int|
            0 <= i < alias.spec_bytes().len() ==> alias.spec_bytes()[i] != 0),
        result is Err ==> result == Err::<(), RouteError>(RouteError::InvalidInterfaceAlias),
{
    let bytes = alias.as_bytes();
    let mut i: usize = 0;
    while i < bytes.len()
        invariant
            i <= bytes@.len(),
            bytes@ == alias.spec_bytes(),
            forall|j: int| 0 <= j < i ==> bytes@[j] != 0,
        decreases bytes@.len() - i,
    {
        if bytes[i] == 0 {
            return Err(RouteError::InvalidInterfaceAlias);
        }
        i = i + 1;
    }
    Ok(())
}

/// What the host reported for the side effects of a single state-machine
/// step. The embedder performs the actual host operations and records their
/// results here; the machine's behaviour is specified, and verified, for
/// every combination of outcomes.
#[derive(Clone, Copy, Debug, PartialEq, Eq)]
pub struct PlatformOutcomes {
    /// Outcome of the policy apply or reset performed by the entry action of
    /// the target state, when that state is not the blocked one.
    pub policy_ok: bool,
    /// Outcome of applying the block-all policy, used whenever a step enters
    /// the blocked state (by command or by failure escalation).
    pub block_policy_ok: bool,
    /// Outcome of ensuring the tunnel interface has top routing priority,
    /// consulted when entering the connected state.
    pub routing: Result<bool, RouteError>,
    /// IPv6 status of the tunnel interface, consulted when entering the
    /// connected state.
    pub ipv6: Result<bool, RouteError>,
}

impl PlatformOutcomes {
    /// Outcomes of a step on which every host operation succeeded.
    pub fn all_ok() -> (outcomes: PlatformOutcomes)
        ensures
            outcomes == (PlatformOutcomes {
                policy_ok: true,
                block_policy_ok: true,
                routing: Ok::<bool, RouteError>(true),
                ipv6: Ok::<bool, RouteError>(true),
            }),
    {
        PlatformOutcomes {
            policy_ok: true,
            block_policy_ok: true,
            routing: Ok(true),
            ipv6: Ok(true),
        }
    }
}

/// True when the outcomes let a connection-establishing entry action finish
/// without a failure: the restrictive policy was applied and both adapter
/// calls succeeded.
pub open spec fn establishment_succeeds(outcomes: PlatformOutcomes) -> bool {
    outcomes.policy_ok && outcomes.routing is Ok && outcomes.ipv6 is Ok
}

} // verus!
