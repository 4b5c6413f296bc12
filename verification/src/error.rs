//! The failures that a supervisor reports, and the text that the shell shows
//! for each.

use vstd::prelude::*;
use vstd::string::*;

verus! {

/// Why a start or a stop did not succeed. None of these is fatal to the
/// caller: each is returned from the step at which it arose.
#[derive(Debug, Clone, PartialEq, Eq)]
pub enum SupervisorError {
    /// The resource directory, from which every route starts, is not known;
    /// the payload is the cause as the platform gave it.
    ResourceDirUnavailable(String),
    /// A route asks for the directory above a location that has none.
    NoParentDirectory,
    /// The packaged executable is not on disk; the payload is its path.
    ExecutableNotFound(String),
    /// The content directory is not on disk; the payload is its path.
    ContentRootNotFound(String),
    /// The operating system refused to create the process.
    SpawnFailed(String),
    /// The listening address could not be bound.
    BindFailed(String),
    /// The terminate signal could not be delivered.
    KillFailed(String),
    /// The retry budget ran out before the backend answered.
    StartupTimeout,
}

impl SupervisorError {
    /// The text of `message`, over the payload's characters.
    pub open spec fn message_text(&self) -> Seq<char> {
        match self {
            SupervisorError::ResourceDirUnavailable(cause) => cause@,
            SupervisorError::NoParentDirectory => "Failed to get parent directory"@,
            SupervisorError::ExecutableNotFound(path) => "Backend executable not found at: "@
                + path@,
            SupervisorError::ContentRootNotFound(path) => "Web directory not found at: "@ + path@,
            SupervisorError::SpawnFailed(cause) => "Failed to start backend: "@ + cause@,
            SupervisorError::BindFailed(cause) => "Failed to bind web server: "@ + cause@,
            SupervisorError::KillFailed(cause) => cause@,
            SupervisorError::StartupTimeout => "Backend failed to start within 15 seconds"@,
        }
    }

    /// The description handed to the shell in place of the error.
    pub fn message(&self) -> (text: String)
        ensures
            text@ == self.message_text(),
    {
        match self {
            SupervisorError::ResourceDirUnavailable(cause) => cause.clone(),
            SupervisorError::NoParentDirectory => String::from_str(
                "Failed to get parent directory",
            ),
            SupervisorError::ExecutableNotFound(path) => String::from_str(
                "Backend executable not found at: ",
            ).concat(path.as_str()),
            SupervisorError::ContentRootNotFound(path) => String::from_str(
                "Web directory not found at: ",
            ).concat(path.as_str()),
            SupervisorError::SpawnFailed(cause) => String::from_str(
                "Failed to start backend: ",
            ).concat(cause.as_str()),
            SupervisorError::BindFailed(cause) => String::from_str(
                "Failed to bind web server: ",
            ).concat(cause.as_str()),
            SupervisorError::KillFailed(cause) => cause.clone(),
            SupervisorError::StartupTimeout => String::from_str(
                "Backend failed to start within 15 seconds",
            ),
        }
    }
}

} // verus!
