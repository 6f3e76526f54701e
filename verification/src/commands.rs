//! External inputs of the state machine: commands from callers, asynchronous
//! reports from the tunnel monitor, and the closing of the command channel.

use vstd::prelude::*;
use crate::tunnel::BlockReason;

verus! {

/// Parameters of a tunnel to establish: the relay endpoint the monitor
/// should connect to.
#[derive(Clone, Debug, PartialEq)]
pub struct TunnelParameters {
    /// Address of the relay to connect to.
    pub relay_endpoint: String,
}

impl TunnelParameters {
    /// An owned copy of these parameters, equal to the original.
    pub fn duplicate(&self) -> (copy: TunnelParameters)
        ensures
            copy == *self,
    {
        TunnelParameters { relay_endpoint: self.relay_endpoint.clone() }
    }
}

/// A command issued by an external caller through the command channel.
/// Commands are totally ordered as received; the machine processes at most
/// one at a time.
#[derive(Clone, Debug, PartialEq)]
pub enum TunnelCommand {
    /// Establish a tunnel with the given parameters.
    Connect(TunnelParameters),
    /// Tear the tunnel down and return to the unsecured state.
    Disconnect,
    /// Enter the fail-safe blocking state with the given reason, updating
    /// the allow-LAN setting.
    Block(BlockReason, bool),
    /// Update the allow-LAN setting.
    AllowLan(bool),
}

/// A failure reported by the tunnel monitor. Each variant maps one-to-one
/// to a [`BlockReason`].
#[derive(Clone, Debug, PartialEq)]
pub enum TunnelError {
    /// Authentication with the remote server failed.
    AuthFailed(String),
    /// No relay server matches the current filter parameters.
    NoMatchingRelay,
    /// No account token is configured.
    NoAccountToken,
    /// The tunnel could not be started or died unexpectedly.
    StartFailure,
}

/// The reason recorded when a monitor failure forces the blocked state.
pub open spec fn block_reason_for(error: TunnelError) -> BlockReason {
    match error {
        TunnelError::AuthFailed(message) => BlockReason::AuthFailed(message),
        TunnelError::NoMatchingRelay => BlockReason::NoMatchingRelay,
        TunnelError::NoAccountToken => BlockReason::NoAccountToken,
        TunnelError::StartFailure => BlockReason::StartTunnelError,
    }
}

impl TunnelError {
    /// The block reason this failure maps to.
    pub fn into_block_reason(self) -> (reason: BlockReason)
        ensures
            reason == block_reason_for(self),
    {
        match self {
            TunnelError::AuthFailed(message) => BlockReason::AuthFailed(message),
            TunnelError::NoMatchingRelay => BlockReason::NoMatchingRelay,
            TunnelError::NoAccountToken => BlockReason::NoAccountToken,
            TunnelError::StartFailure => BlockReason::StartTunnelError,
        }
    }
}

/// An asynchronous notification from the tunnel monitor.
#[derive(Clone, Debug, PartialEq)]
pub enum TunnelMonitorEvent {
    /// The tunnel is up.
    Connected,
    /// The tunnel is down.
    Closed,
    /// The tunnel failed.
    Failed(TunnelError),
}

/// One input consumed by the state machine: a command, a monitor report, or
/// the closing of the command channel (a controlled shutdown signal, not an
/// error).
#[derive(Clone, Debug, PartialEq)]
pub enum MachineInput {
    /// A command arrived on the command channel.
    Command(TunnelCommand),
    /// The tunnel monitor reported an event.
    Monitor(TunnelMonitorEvent),
    /// The command channel was closed.
    ChannelClosed,
}

} // verus!
