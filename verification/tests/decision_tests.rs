use mockstruct_launcher::decision::decide;
use mockstruct_launcher::decision::decide_with_remote;
use mockstruct_launcher::decision::Decision;
use mockstruct_launcher::error::RegistryFault;
use mockstruct_launcher::error::UpdateError;
use mockstruct_launcher::inspect::LocalVersion;
use mockstruct_launcher::version::SemanticVersion;

fn v(major: u64, minor: u64, patch: u64) -> SemanticVersion {
    SemanticVersion { major, minor, patch }
}

#[test]
fn absent_binary_must_be_fetched() {
    assert_eq!(
        decide(false, &LocalVersion::Known(v(9, 9, 9)), &v(0, 0, 1)),
        Decision::MissingMustFetch
    );
    assert_eq!(
        decide(false, &LocalVersion::Unknown, &v(1, 0, 0)),
        Decision::MissingMustFetch
    );
}

#[test]
fn equal_versions_are_current() {
    assert_eq!(
        decide(true, &LocalVersion::Known(v(1, 0, 0)), &v(1, 0, 0)),
        Decision::Current
    );
}

#[test]
fn older_local_is_stale() {
    assert_eq!(
        decide(true, &LocalVersion::Known(v(0, 9, 0)), &v(1, 0, 0)),
        Decision::StaleMustFetch
    );
}

#[test]
fn newer_local_is_current() {
    assert_eq!(
        decide(true, &LocalVersion::Known(v(1, 1, 0)), &v(1, 0, 0)),
        Decision::Current
    );
}

#[test]
fn unknown_local_forces_fetch() {
    assert_eq!(
        decide(true, &LocalVersion::Unknown, &v(0, 1, 0)),
        Decision::StaleMustFetch
    );
}

#[test]
fn decision_is_deterministic() {
    let local = LocalVersion::Known(v(1, 2, 3));
    let remote = v(1, 2, 4);
    let first = decide(true, &local, &remote);
    let second = decide(true, &local, &remote);
    assert_eq!(first, second);
    assert_eq!(first, Decision::StaleMustFetch);
}

#[test]
fn registry_failure_propagates_to_decision() {
    let failure = Err(UpdateError::RegistryError(RegistryFault::Status(500)));
    let r = decide_with_remote(true, &LocalVersion::Known(v(1, 0, 0)), &failure);
    assert_eq!(r, Err(UpdateError::RegistryError(RegistryFault::Status(500))));
}

#[test]
fn unknown_local_needs_no_remote_answer() {
    let failure = Err(UpdateError::RegistryError(RegistryFault::Status(429)));
    let r = decide_with_remote(true, &LocalVersion::Unknown, &failure);
    assert_eq!(r, Ok(Decision::StaleMustFetch));
    let success = Ok(v(3, 0, 0));
    let r = decide_with_remote(true, &LocalVersion::Unknown, &success);
    assert_eq!(r, Ok(Decision::StaleMustFetch));
}

#[test]
fn absent_binary_needs_no_remote_answer() {
    let failure = Err(UpdateError::RegistryError(RegistryFault::Status(503)));
    let r = decide_with_remote(false, &LocalVersion::Unknown, &failure);
    assert_eq!(r, Ok(Decision::MissingMustFetch));
}

#[test]
fn successful_remote_feeds_the_comparison() {
    let remote = Ok(v(2, 0, 0));
    assert_eq!(
        decide_with_remote(true, &LocalVersion::Known(v(1, 9, 9)), &remote),
        Ok(Decision::StaleMustFetch)
    );
    assert_eq!(
        decide_with_remote(true, &LocalVersion::Known(v(2, 0, 0)), &remote),
        Ok(Decision::Current)
    );
}
