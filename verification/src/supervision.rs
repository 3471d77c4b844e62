//! What becomes of a failure, by where it came up. Only a failure to start
//! is fatal: once the relay runs, every failure ends in the log.

use vstd::prelude::*;

verus! {

/// Where a failure came up.
#[derive(Debug, Clone, Copy, PartialEq, Eq, Structural)]
pub enum FailureOrigin {
    /// While the relay was starting: configuration, first connection.
    Setup,
    /// Inside a command that a user invoked.
    Command,
    /// Inside a tick of the relay.
    Tick,
    /// Anywhere else in the chat framework.
    Framework,
}

/// What is done about a failure.
#[derive(Debug, Clone, Copy, PartialEq, Eq, Structural)]
pub enum Disposition {
    /// Stop the process.
    Abort,
    /// Write it to the operator's log and go on.
    Log,
    /// Leave it to the chat framework's own handler, and log if that fails.
    Delegate,
}

pub open spec fn disposition_of(origin: FailureOrigin) -> Disposition {
    match origin {
        FailureOrigin::Setup => Disposition::Abort,
        FailureOrigin::Command => Disposition::Log,
        FailureOrigin::Tick => Disposition::Log,
        FailureOrigin::Framework => Disposition::Delegate,
    }
}

/// Decides what is done about a failure.
pub fn on_error(origin: FailureOrigin) -> (disposition: Disposition)
    ensures
        disposition == disposition_of(origin),
        disposition == Disposition::Abort <==> origin == FailureOrigin::Setup,
{
    match origin {
        FailureOrigin::Setup => Disposition::Abort,
        FailureOrigin::Command => Disposition::Log,
        FailureOrigin::Tick => Disposition::Log,
        FailureOrigin::Framework => Disposition::Delegate,
    }
}

} // verus!
