//! The closed set of fatal error kinds of one launch attempt. Every kind
//! carries the operation's subject so a failure can be diagnosed without
//! re-running.

use vstd::prelude::*;
use crate::strutil::spec_decimal;
use crate::strutil::u32_to_decimal;

verus! {

/// Everything that can end an invocation early. None of these is retried:
/// each reports an environment precondition the orchestrator cannot fix.
#[derive(Debug, Clone)]
pub enum LaunchError {
    /// The engine process could not be started; carries the operation name.
    EngineUnavailable(String),
    /// A pull was attempted and failed; carries the image reference.
    PullFailure(String),
    /// Inspecting engine storage gave neither found nor not-found; carries
    /// the engine's own message.
    InspectFailure(String),
    /// A host environment variable is not valid text; carries its name.
    EnvEncodingError(String),
    /// The orchestrator's own executable could not be located or staged;
    /// carries what was being resolved.
    SelfPathResolutionError(String),
    /// The container process exited with a non-zero status; carries that
    /// status so the caller can surface it.
    ChildProcessFailure(i32),
}

/// The diagnostic text of an error: a fixed phrase naming the operation,
/// followed by the subject it failed on.
pub open spec fn spec_message(e: LaunchError) -> Seq<char> {
    match e {
        LaunchError::EngineUnavailable(op) => "failed to start container engine: "@ + op@,
        LaunchError::PullFailure(image) => "failed to pull image "@ + image@,
        LaunchError::InspectFailure(m) => "failed to inspect: "@ + m@,
        LaunchError::EnvEncodingError(name) => name@ + " contains invalid UTF-8"@,
        LaunchError::SelfPathResolutionError(what) => "cannot resolve own executable: "@ + what@,
        LaunchError::ChildProcessFailure(status) => if status >= 0 {
            "container exited with status "@ + spec_decimal(status as nat)
        } else {
            "container exited with status -"@ + spec_decimal((-status) as nat)
        },
    }
}

impl LaunchError {
    /// Renders the diagnostic text.
    pub fn message(&self) -> (r: String)
        ensures
            r@ == spec_message(*self),
    {
        match self {
            LaunchError::EngineUnavailable(op) => {
                let mut s = String::from_str("failed to start container engine: ");
                s.append(op.as_str());
                s
            },
            LaunchError::PullFailure(image) => {
                let mut s = String::from_str("failed to pull image ");
                s.append(image.as_str());
                s
            },
            LaunchError::InspectFailure(m) => {
                let mut s = String::from_str("failed to inspect: ");
                s.append(m.as_str());
                s
            },
            LaunchError::EnvEncodingError(name) => {
                let mut s = name.clone();
                s.append(" contains invalid UTF-8");
                s
            },
            LaunchError::SelfPathResolutionError(what) => {
                let mut s = String::from_str("cannot resolve own executable: ");
                s.append(what.as_str());
                s
            },
            LaunchError::ChildProcessFailure(status) => {
                let st: i32 = *status;
                if st >= 0 {
                    let mut s = String::from_str("container exited with status ");
                    let d = u32_to_decimal(st as u32);
                    s.append(d.as_str());
                    s
                } else {
                    let mut s = String::from_str("container exited with status -");
                    let mag: u32 = (-(st as i64)) as u32;
                    let d = u32_to_decimal(mag);
                    s.append(d.as_str());
                    s
                }
            },
        }
    }

    /// The child container's exit status, where this error carries one.
    pub fn child_exit_code(&self) -> (r: Option<i32>)
        ensures
            *self matches LaunchError::ChildProcessFailure(c) ==> r == Some(c),
            !(*self is ChildProcessFailure) ==> r is None,
    {
        match self {
            LaunchError::ChildProcessFailure(c) => Some(*c),
            _ => None,
        }
    }
}

} // verus!
