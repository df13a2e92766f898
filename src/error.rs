use vstd::prelude::*;

verus! {

/// Why the application did not start, or stopped abnormally. None of these
/// is recoverable: each ends the process with a non-zero status.
#[derive(Clone, Debug, PartialEq, Eq)]
pub enum StartupError {
    /// The declarative configuration is malformed.
    ContextInvalid,
    /// The named plugin's initializer failed.
    PluginInitFailed { name: String },
    /// The setup hook failed, or the window it requires is absent.
    SetupHookFailed,
    /// The event loop cannot continue.
    RuntimeFatal { reason: String },
}

/// The process status after a failure.
pub const FAILURE_STATUS: i32 = 1;

/// The process status after a graceful shutdown.
pub const SUCCESS_STATUS: i32 = 0;

pub open spec fn spec_exit_status(outcome: Result<(), StartupError>) -> i32 {
    match outcome {
        Ok(()) => SUCCESS_STATUS,
        Err(_) => FAILURE_STATUS,
    }
}

/// The status the process ends with: zero on graceful shutdown, non-zero
/// after any startup or runtime error.
pub fn exit_status(outcome: &Result<(), StartupError>) -> (r: i32)
    ensures
        r == spec_exit_status(*outcome),
        r == 0 <==> outcome.is_ok(),
{
    match outcome {
        Ok(()) => SUCCESS_STATUS,
        Err(_) => FAILURE_STATUS,
    }
}

} // verus!
