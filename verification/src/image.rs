//! Image presence: the decision logic that guarantees the chosen image is
//! local before the session starts. The engine interactions themselves are
//! performed by the caller, which hands their outcomes in as values.

use vstd::prelude::*;
use crate::errors::LaunchError;

verus! {

/// What inspecting engine storage for the image reported.
pub enum InspectOutcome {
    /// The image is already present locally.
    Found,
    /// The engine answered, and the image is not present.
    NotFound,
    /// Anything else: the inspect error to propagate unchanged.
    Failed(LaunchError),
}

/// What a pull attempt reported.
pub enum PullOutcome {
    Succeeded,
    /// The engine ran but the pull did not complete.
    Failed,
    /// The engine process could not be started; carries the operation name.
    Unavailable(String),
}

/// The step owed after inspecting: nothing, a pull, or giving up.
pub enum EnsureStep {
    /// The image is present: ensuring is an idempotent no-op.
    AlreadyPresent,
    /// The image is missing: exactly one pull is owed.
    NeedsPull,
    /// Inspecting failed: propagate, never mask by attempting a pull.
    Abort(LaunchError),
}

/// Decides what follows the inspect. A found image needs no further action;
/// a missing one needs a pull; an inspect failure aborts unchanged.
pub fn plan_after_inspect(inspect: InspectOutcome) -> (step: EnsureStep)
    ensures
        inspect is Found ==> step is AlreadyPresent,
        inspect is NotFound ==> step is NeedsPull,
        inspect matches InspectOutcome::Failed(e) ==> step == EnsureStep::Abort(e),
{
    match inspect {
        InspectOutcome::Found => EnsureStep::AlreadyPresent,
        InspectOutcome::NotFound => EnsureStep::NeedsPull,
        InspectOutcome::Failed(e) => EnsureStep::Abort(e),
    }
}

/// Turns the pull outcome into the overall result: success passes through,
/// a failed pull is fatal and names the image, and an engine that could not
/// be started is reported as such.
pub fn conclude_after_pull(image: &str, pull: PullOutcome) -> (r: Result<(), LaunchError>)
    ensures
        r is Ok <==> pull is Succeeded,
        pull is Failed ==> (r matches Err(LaunchError::PullFailure(n)) && n@ == image@),
        pull matches PullOutcome::Unavailable(m) ==> (r matches Err(
            LaunchError::EngineUnavailable(mm),
        ) && mm == m),
{
    match pull {
        PullOutcome::Succeeded => Ok(()),
        PullOutcome::Failed => Err(LaunchError::PullFailure(String::from_str(image))),
        PullOutcome::Unavailable(m) => Err(LaunchError::EngineUnavailable(m)),
    }
}

/// Folds one full ensure-present interaction: `inspect` is what the engine
/// reported for the image, and `pull_if_needed` is what a pull would report
/// were one attempted. Returns the overall result together with how many
/// pulls were performed: none when the image was found or inspecting
/// failed, exactly one when it was missing — and then the whole operation
/// succeeds precisely when that pull does.
pub fn ensure_image(image: &str, inspect: InspectOutcome, pull_if_needed: PullOutcome) -> (r: (
    Result<(), LaunchError>,
    u32,
))
    ensures
        inspect is Found ==> r.0 is Ok && r.1 == 0,
        inspect is NotFound ==> r.1 == 1,
        inspect is NotFound ==> ((r.0 is Ok) <==> (pull_if_needed is Succeeded)),
        inspect is NotFound && pull_if_needed is Failed ==> (r.0 matches Err(
            LaunchError::PullFailure(n),
        ) && n@ == image@),
        inspect is NotFound && pull_if_needed is Unavailable ==> (r.0 matches Err(
            LaunchError::EngineUnavailable(mm),
        ) && mm == pull_if_needed->Unavailable_0),
        inspect matches InspectOutcome::Failed(e) ==> r.1 == 0 && r.0 == Result::<
            (),
            LaunchError,
        >::Err(e),
{
    match plan_after_inspect(inspect) {
        EnsureStep::AlreadyPresent => (Ok(()), 0),
        EnsureStep::NeedsPull => (conclude_after_pull(image, pull_if_needed), 1),
        EnsureStep::Abort(e) => (Err(e), 0),
    }
}

} // verus!
