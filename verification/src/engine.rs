//! Engine-client logic: which binary to invoke, the argument lists of the
//! storage queries, and the classification of structured query replies into
//! the closed found / not-found / error set.

use vstd::prelude::*;
use crate::errors::LaunchError;

verus! {

/// What a storage query may ask about.
pub enum InspectType {
    Container,
    Image,
}

/// The reply of a structured (IPC) storage query, as the caller decoded it:
/// the call either succeeded, or failed with a reply kind naming a missing
/// container or image (each carrying the engine's message), or failed some
/// other way.
pub enum IpcQueryReply {
    Succeeded,
    ContainerNotFound(String),
    ImageNotFound(String),
    Failed(String),
}

/// The engine binary to invoke: the configured override when one is set,
/// otherwise the well-known default name resolved from the execution path.
pub fn engine_binary(override_name: Option<String>) -> (r: String)
    ensures
        override_name matches Some(n) ==> r@ == n@,
        override_name is None ==> r@ == "podman"@,
{
    match override_name {
        Some(n) => n,
        None => String::from_str("podman"),
    }
}

/// The shell command that activates the engine's IPC service on demand.
pub fn varlink_activation_command(engine: &str) -> (r: String)
    ensures
        r@ == engine@ + " varlink $VARLINK_ADDRESS"@,
{
    let mut s = String::from_str(engine);
    s.append(" varlink $VARLINK_ADDRESS");
    s
}

/// The engine arguments that inspect one stored object.
pub fn inspect_argv(name: &str) -> (r: Vec<String>)
    ensures
        r.deep_view() == seq!["inspect"@, name@],
{
    let mut v: Vec<String> = Vec::new();
    v.push(String::from_str("inspect"));
    v.push(String::from_str(name));
    proof {
        assert(v.deep_view() =~= seq!["inspect"@, name@]);
    }
    v
}

/// The engine arguments that pull one image.
pub fn pull_argv(name: &str) -> (r: Vec<String>)
    ensures
        r.deep_view() == seq!["pull"@, name@],
{
    let mut v: Vec<String> = Vec::new();
    v.push(String::from_str("pull"));
    v.push(String::from_str(name));
    proof {
        assert(v.deep_view() =~= seq!["pull"@, name@]);
    }
    v
}

/// Classifies a storage query reply for the kind that was asked about:
/// success means the object is there; the matching not-found kind means it
/// is not; everything else — including a not-found kind for the other
/// object type — is an inspect failure, never silently treated as absence.
pub fn has_object_outcome(t: &InspectType, reply: IpcQueryReply) -> (r: Result<bool, LaunchError>)
    ensures
        reply is Succeeded ==> r == Result::<bool, LaunchError>::Ok(true),
        *t is Container && reply is ContainerNotFound ==> r == Result::<bool, LaunchError>::Ok(
            false,
        ),
        *t is Image && reply is ImageNotFound ==> r == Result::<bool, LaunchError>::Ok(false),
        reply is ImageNotFound && *t is Container ==> (r matches Err(LaunchError::InspectFailure(
            mm,
        )) && mm == reply->ImageNotFound_0),
        reply is ContainerNotFound && *t is Image ==> (r matches Err(LaunchError::InspectFailure(
            mm,
        )) && mm == reply->ContainerNotFound_0),
        reply matches IpcQueryReply::Failed(m) ==> (r matches Err(LaunchError::InspectFailure(mm))
            && mm == m),
{
    match reply {
        IpcQueryReply::Succeeded => Ok(true),
        IpcQueryReply::ContainerNotFound(m) => match t {
            InspectType::Container => Ok(false),
            InspectType::Image => Err(LaunchError::InspectFailure(m)),
        },
        IpcQueryReply::ImageNotFound(m) => match t {
            InspectType::Image => Ok(false),
            InspectType::Container => Err(LaunchError::InspectFailure(m)),
        },
        IpcQueryReply::Failed(m) => Err(LaunchError::InspectFailure(m)),
    }
}

/// One locally stored image, as the engine lists it.
#[derive(Debug, Clone)]
pub struct ImageInspect {
    pub id: String,
    pub names: Option<Vec<String>>,
}

/// The engine arguments that list stored images as structured text, with
/// any caller-chosen filters appended.
pub fn image_list_argv(extra: &Vec<String>) -> (r: Vec<String>)
    ensures
        r.deep_view() == seq!["images"@, "--format"@, "json"@] + extra.deep_view(),
{
    let mut v: Vec<String> = Vec::new();
    v.push(String::from_str("images"));
    v.push(String::from_str("--format"));
    v.push(String::from_str("json"));
    let mut i: usize = 0;
    while i < extra.len()
        invariant
            i <= extra.len(),
            v.deep_view() =~= seq!["images"@, "--format"@, "json"@] + extra.deep_view().take(
                i as int,
            ),
        decreases extra.len() - i,
    {
        let ghost pre = v.deep_view();
        v.push(extra[i].clone());
        proof {
            assert(v.deep_view() =~= pre.push(extra.deep_view()[i as int]));
            assert(extra.deep_view().take(i as int + 1) =~= extra.deep_view().take(i as int).push(
                extra.deep_view()[i as int],
            ));
        }
        i += 1;
    }
    proof {
        assert(v.deep_view() =~= seq!["images"@, "--format"@, "json"@] + extra.deep_view());
    }
    v
}

/// Concludes an image listing: the decoded entries stand only when the
/// listing process also exited successfully.
pub fn conclude_image_list(images: Vec<ImageInspect>, exit_ok: bool) -> (r: Result<
    Vec<ImageInspect>,
    LaunchError,
>)
    ensures
        exit_ok ==> r == Result::<Vec<ImageInspect>, LaunchError>::Ok(images),
        !exit_ok ==> (r matches Err(LaunchError::InspectFailure(m)) && m@
            == "podman images failed"@),
{
    if exit_ok {
        Ok(images)
    } else {
        Err(LaunchError::InspectFailure(String::from_str("podman images failed")))
    }
}

} // verus!
