//! The conditions that end a run without a verification result.

use vstd::prelude::*;

verus! {

/// A condition after which the run is abandoned. None of them is retried.
#[derive(Clone, Copy, Debug, PartialEq, Eq, Structural)]
pub enum FatalError {
    /// The service could not produce a handle.
    AllocationFailed,
    /// The target hostname cannot be handed to the service as a terminated string.
    InvalidHostnameEncoding,
    /// The service refused the verify request.
    RequestRejected,
    /// The service delivered a notification without a hostname.
    HostnameMissingInCallback,
    /// The service delivered a notification without the registered session.
    ContextMissing,
}

/// The process status after a verification was delivered.
pub const EXIT_SUCCESS: u8 = 0;

/// The process status after a timeout or a fatal error.
pub const EXIT_FAILURE: u8 = 1;

impl FatalError {
    /// The message that is shown for the error.
    pub open spec fn message_text(self) -> Seq<char> {
        match self {
            FatalError::AllocationFailed => "Unable to get sdk handle"@,
            FatalError::InvalidHostnameEncoding => "Unable to convert hostname"@,
            FatalError::RequestRejected => "verify appliance failed"@,
            FatalError::HostnameMissingInCallback => "Hostname is null in notify_verify handler"@,
            FatalError::ContextMissing => "Context is null in notify_verify handler"@,
        }
    }

    /// The message that is shown for the error.
    pub fn message(&self) -> (message: &'static str)
        ensures
            message@ == self.message_text(),
    {
        match self {
            FatalError::AllocationFailed => "Unable to get sdk handle",
            FatalError::InvalidHostnameEncoding => "Unable to convert hostname",
            FatalError::RequestRejected => "verify appliance failed",
            FatalError::HostnameMissingInCallback => "Hostname is null in notify_verify handler",
            FatalError::ContextMissing => "Context is null in notify_verify handler",
        }
    }

    /// Every fatal error ends the process with the failure status.
    pub fn exit_code(&self) -> (code: u8)
        ensures
            code == EXIT_FAILURE,
    {
        EXIT_FAILURE
    }
}

} // verus!
