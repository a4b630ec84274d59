use vstd::prelude::*;

verus! {

/// Error taxonomy of the supervisor.
///
/// `NotFound` and `CapacityExceeded` are policy decisions made by the
/// verified core; `SpawnFailed` and `Io` carry an OS-level message
/// verbatim from the caller that performed the failing call.
pub enum SupervisorError {
    /// The session table already holds the maximum number of sessions.
    CapacityExceeded,
    /// The requested session id is not present in the table.
    NotFound,
    /// A process could not be spawned; holds the underlying OS message.
    SpawnFailed(String),
    /// A write or resize on a live session failed; holds the OS message.
    Io(String),
}

impl SupervisorError {
    /// The user-facing description of this error.
    pub fn message(&self) -> (r: String)
        ensures
            self is CapacityExceeded ==> r@
                == "Maximum number of terminal sessions reached. Please close some terminals first."@,
            self is NotFound ==> r@ == "Session not found"@,
            forall|m: String| self == SupervisorError::SpawnFailed(m) ==> r@ == m@,
            forall|m: String| self == SupervisorError::Io(m) ==> r@ == m@,
    {
        match self {
            SupervisorError::CapacityExceeded => String::from_str(
                "Maximum number of terminal sessions reached. Please close some terminals first.",
            ),
            SupervisorError::NotFound => String::from_str("Session not found"),
            SupervisorError::SpawnFailed(m) => m.clone(),
            SupervisorError::Io(m) => m.clone(),
        }
    }
}

} // verus!
