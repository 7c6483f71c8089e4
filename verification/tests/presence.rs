use coretoolbox::engine::InspectType;
use coretoolbox::engine::IpcQueryReply;
use coretoolbox::engine::conclude_image_list;
use coretoolbox::engine::has_object_outcome;
use coretoolbox::errors::LaunchError;
use coretoolbox::image::InspectOutcome;
use coretoolbox::image::PullOutcome;
use coretoolbox::image::ensure_image;

#[test]
fn present_image_needs_no_pull() {
    let (result, pulls) = ensure_image("my/image:tag", InspectOutcome::Found, PullOutcome::Succeeded);
    assert!(result.is_ok());
    assert_eq!(pulls, 0);
}

#[test]
fn present_image_ignores_pull_behavior() {
    let (result, pulls) = ensure_image("my/image:tag", InspectOutcome::Found, PullOutcome::Failed);
    assert!(result.is_ok());
    assert_eq!(pulls, 0);
}

#[test]
fn missing_image_pulls_once_and_succeeds() {
    let (result, pulls) =
        ensure_image("my/image:tag", InspectOutcome::NotFound, PullOutcome::Succeeded);
    assert!(result.is_ok());
    assert_eq!(pulls, 1);
}

#[test]
fn missing_image_fails_iff_pull_fails() {
    let (result, pulls) = ensure_image("my/image:tag", InspectOutcome::NotFound, PullOutcome::Failed);
    assert_eq!(pulls, 1);
    match result {
        Err(LaunchError::PullFailure(name)) => assert_eq!(name, "my/image:tag"),
        other => panic!("expected a pull failure, got {:?}", other),
    }
}

#[test]
fn missing_image_engine_unavailable() {
    let (result, pulls) = ensure_image(
        "my/image:tag",
        InspectOutcome::NotFound,
        PullOutcome::Unavailable("pull".to_string()),
    );
    assert_eq!(pulls, 1);
    assert!(matches!(result, Err(LaunchError::EngineUnavailable(_))));
}

#[test]
fn inspect_error_propagates_without_pull() {
    let (result, pulls) = ensure_image(
        "my/image:tag",
        InspectOutcome::Failed(LaunchError::InspectFailure("socket closed".to_string())),
        PullOutcome::Succeeded,
    );
    assert_eq!(pulls, 0);
    match result {
        Err(LaunchError::InspectFailure(m)) => assert_eq!(m, "socket closed"),
        other => panic!("expected the inspect failure unchanged, got {:?}", other),
    }
}

#[test]
fn query_success_means_present() {
    let r = has_object_outcome(&InspectType::Image, IpcQueryReply::Succeeded);
    assert_eq!(r.unwrap(), true);
    let r = has_object_outcome(&InspectType::Container, IpcQueryReply::Succeeded);
    assert_eq!(r.unwrap(), true);
}

#[test]
fn query_matching_not_found_means_absent() {
    let r = has_object_outcome(
        &InspectType::Image,
        IpcQueryReply::ImageNotFound("no such image".to_string()),
    );
    assert_eq!(r.unwrap(), false);
    let r = has_object_outcome(
        &InspectType::Container,
        IpcQueryReply::ContainerNotFound("no such container".to_string()),
    );
    assert_eq!(r.unwrap(), false);
}

#[test]
fn query_mismatched_not_found_is_an_error() {
    let r = has_object_outcome(
        &InspectType::Container,
        IpcQueryReply::ImageNotFound("no such image".to_string()),
    );
    assert!(matches!(r, Err(LaunchError::InspectFailure(_))));
    let r = has_object_outcome(
        &InspectType::Image,
        IpcQueryReply::ContainerNotFound("no such container".to_string()),
    );
    assert!(matches!(r, Err(LaunchError::InspectFailure(_))));
}

#[test]
fn query_other_failure_is_an_error() {
    let r = has_object_outcome(&InspectType::Image, IpcQueryReply::Failed("io error".to_string()));
    match r {
        Err(LaunchError::InspectFailure(m)) => assert_eq!(m, "io error"),
        other => panic!("expected an inspect failure, got {:?}", other),
    }
}

#[test]
fn image_listing_requires_clean_exit() {
    let ok = conclude_image_list(vec![], true);
    assert!(ok.unwrap().is_empty());
    let bad = conclude_image_list(vec![], false);
    match bad {
        Err(LaunchError::InspectFailure(m)) => assert_eq!(m, "podman images failed"),
        other => panic!("expected an inspect failure, got {:?}", other),
    }
}
