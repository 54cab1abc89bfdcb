//! How an incoming connection is carried to the remote service: which tunnel to
//! build, how long to wait for a service that a command starts, and when the
//! copying between the two ends stops.
use vstd::prelude::*;

use crate::types::HostPort;

verus! {

/// The tunnel for an incoming connection.
#[derive(Debug, PartialEq)]
pub enum TunnelPlan {
    /// There is no jump host: connect straight to the remote address and bridge.
    Direct(HostPort),
    /// Run the command on the last host, then forward to the remote address
    /// through the session, retrying while the service starts.
    ExecThenForward { cmd: String, remote: HostPort },
    /// Run the command on the last host and bridge the connection to its input
    /// and output.
    ExecOverChannel(String),
    /// Forward to the remote address through the session, once.
    Forward(HostPort),
    /// Nothing to connect to; the connection is refused with this error.
    Reject(String),
}

/// The error when neither a command nor a remote address is given.
pub open spec fn nothing_to_connect_message() -> Seq<char> {
    "Either a command or a remote address must be provided."@
}

/// Chooses the tunnel: without jump hosts the connection goes straight to the
/// remote address (which must then be given); through jump hosts, a command runs
/// first when there is one, and the remote address, when there is one, is
/// reached through the session.
pub fn plan_tunnel(has_jump_hosts: bool, cmd: Option<String>, remote: Option<HostPort>) -> (r:
    TunnelPlan)
    requires
        !has_jump_hosts ==> remote is Some,
    ensures
        !has_jump_hosts ==> r == TunnelPlan::Direct(remote->0),
        has_jump_hosts ==> match (cmd, remote) {
            (Some(c), Some(h)) => r == (TunnelPlan::ExecThenForward { cmd: c, remote: h }),
            (Some(c), Option::None) => r == TunnelPlan::ExecOverChannel(c),
            (Option::None, Some(h)) => r == TunnelPlan::Forward(h),
            (Option::None, Option::None) => r is Reject && r->Reject_0@
                == nothing_to_connect_message(),
        },
{
    if !has_jump_hosts {
        match remote {
            Some(h) => TunnelPlan::Direct(h),
            Option::None => TunnelPlan::Reject(String::new()),
        }
    } else {
        match (cmd, remote) {
            (Some(c), Some(h)) => TunnelPlan::ExecThenForward { cmd: c, remote: h },
            (Some(c), Option::None) => TunnelPlan::ExecOverChannel(c),
            (Option::None, Some(h)) => TunnelPlan::Forward(h),
            (Option::None, Option::None) => TunnelPlan::Reject(
                String::from_str("Either a command or a remote address must be provided."),
            ),
        }
    }
}

/// The retries of forwarding to a service that a command starts: after each
/// failure the wait grows by 5 milliseconds, and after ten retries the error
/// stands.
pub struct ForwardRetry {
    failures: u32,
}

impl ForwardRetry {
    /// The number of retries made so far.
    pub closed spec fn retries(&self) -> nat {
        self.failures as nat
    }

    /// No retry made yet.
    pub fn new() -> (r: Self)
        ensures
            r.retries() == 0,
    {
        ForwardRetry { failures: 0 }
    }

    /// Takes a failed attempt to forward: the wait in milliseconds before the next
    /// attempt, or `None` when ten retries have been made and the error stands.
    pub fn failed(&mut self) -> (r: Option<u64>)
        requires
            old(self).retries() <= 10,
        ensures
            old(self).retries() >= 10 ==> r is None && final(self).retries() == old(self).retries(),
            old(self).retries() < 10 ==> {
                &&& final(self).retries() == old(self).retries() + 1
                &&& r == Some((5 * final(self).retries()) as u64)
            },
            final(self).retries() <= 10,
    {
        if self.failures >= 10 {
            None
        } else {
            self.failures = self.failures + 1;
            Some(5 * self.failures as u64)
        }
    }
}

// ---------------------------------------------------------------------------
// Copying between the two ends of a tunnel
// ---------------------------------------------------------------------------

/// What happened on one side of a bridge.
#[derive(Debug, PartialEq, Eq, Clone, Copy, Structural)]
pub enum BridgeEvent {
    /// A read returned this many bytes (0 at the end of the stream).
    Read { bytes: usize },
    /// A read failed; `unexpected_eof` tells whether the stream simply ended early.
    ReadFailed { unexpected_eof: bool },
    /// Writing to the other side failed; `broken_pipe` tells whether the other
    /// side was gone.
    WriteFailed { broken_pipe: bool },
}

/// What the bridge does next.
#[derive(Debug, PartialEq, Eq, Clone, Copy, Structural)]
pub enum BridgeAction {
    /// Write the bytes just read to the other side.
    Forward(usize),
    /// Stop copying; `report` tells whether the failure is worth an error report.
    Stop { report: bool },
}

/// The bridge's answer to an event: bytes read are forwarded; the end of a
/// stream stops the bridge quietly; a failure stops it, and is reported unless it
/// is only an early end of stream or a write to a side that is gone.
pub fn bridge_step(ev: BridgeEvent) -> (r: BridgeAction)
    ensures
        match ev {
            BridgeEvent::Read { bytes } => if bytes == 0 {
                r == (BridgeAction::Stop { report: false })
            } else {
                r == BridgeAction::Forward(bytes)
            },
            BridgeEvent::ReadFailed { unexpected_eof } => r == (BridgeAction::Stop {
                report: !unexpected_eof,
            }),
            BridgeEvent::WriteFailed { broken_pipe } => r == (BridgeAction::Stop {
                report: !broken_pipe,
            }),
        },
{
    match ev {
        BridgeEvent::Read { bytes } => {
            if bytes == 0 {
                BridgeAction::Stop { report: false }
            } else {
                BridgeAction::Forward(bytes)
            }
        },
        BridgeEvent::ReadFailed { unexpected_eof } => BridgeAction::Stop { report: !unexpected_eof },
        BridgeEvent::WriteFailed { broken_pipe } => BridgeAction::Stop { report: !broken_pipe },
    }
}

} // verus!
