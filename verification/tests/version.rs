use cln_nip47::version::{at_or_above_version, version_error_message, VersionError};

#[test]
fn newer_patch_of_the_threshold_is_at_or_above() {
    assert_eq!(at_or_above_version("v24.11.0", "24.11"), Ok(true));
}

#[test]
fn older_minor_is_below() {
    assert_eq!(at_or_above_version("v24.10.2", "24.11"), Ok(false));
}

#[test]
fn newer_major_is_above() {
    assert_eq!(at_or_above_version("v25.0", "24.11"), Ok(true));
}

#[test]
fn version_without_marker_is_refused() {
    assert_eq!(at_or_above_version("24.11.0", "24.11"), Err(VersionError::MissingMarker));
    assert_eq!(at_or_above_version("", "24.11"), Err(VersionError::MissingMarker));
    assert_eq!(at_or_above_version("24.11-modded", "24.11"), Err(VersionError::MissingMarker));
}

#[test]
fn marker_must_stand_at_the_front() {
    assert_eq!(at_or_above_version("cln v24.11.1", "24.11"), Err(VersionError::MissingMarker));
    assert_eq!(at_or_above_version("xv1.1", "1"), Err(VersionError::MissingMarker));
    assert_eq!(at_or_above_version(" v24.11", "24.11"), Err(VersionError::MissingMarker));
    assert_eq!(at_or_above_version("V24.11", "24.11"), Err(VersionError::MissingMarker));
    assert_eq!(at_or_above_version("24.11v", "24.11"), Err(VersionError::MissingMarker));
    assert_eq!(at_or_above_version("v1.1", "1"), Ok(true));
    assert_eq!(at_or_above_version("vv1.1", "1"), Err(VersionError::ComponentCount));
}

#[test]
fn equal_versions_are_at_or_above() {
    assert_eq!(at_or_above_version("v24.11", "24.11"), Ok(true));
    assert_eq!(at_or_above_version("v24.11.1", "24.11.1"), Ok(true));
}

#[test]
fn fewer_components_than_the_threshold_is_below() {
    assert_eq!(at_or_above_version("v24.11", "24.11.1"), Ok(false));
    assert_eq!(at_or_above_version("v24.11", "24.11.0"), Ok(false));
    assert_eq!(at_or_above_version("v24.12", "24.11.1"), Ok(true));
}

#[test]
fn component_count_is_two_or_three() {
    assert_eq!(at_or_above_version("v24", "24.11"), Err(VersionError::ComponentCount));
    assert_eq!(at_or_above_version("v", "24.11"), Err(VersionError::ComponentCount));
    assert_eq!(at_or_above_version("v1.2.3.4", "24.11"), Err(VersionError::ComponentCount));
    assert_eq!(at_or_above_version("vanilla", "24.11"), Err(VersionError::ComponentCount));
}

#[test]
fn text_after_the_numbers_is_passed_over() {
    assert_eq!(at_or_above_version("v24.11rc1", "24.11"), Ok(true));
    assert_eq!(at_or_above_version("v24.08.2-modded", "24.11"), Ok(false));
    assert_eq!(at_or_above_version("v25.02.1-12-gabcdef", "24.11"), Ok(true));
}

#[test]
fn components_are_numbers_not_texts() {
    assert_eq!(at_or_above_version("v24.9", "24.11"), Ok(false));
    assert_eq!(at_or_above_version("v24.011", "24.11"), Ok(true));
    assert_eq!(at_or_above_version("v100.0", "24.11"), Ok(true));
}

#[test]
fn bad_components_are_refused_where_they_are_compared() {
    assert_eq!(at_or_above_version("v24..1", "24.11"), Err(VersionError::BadComponent));
    assert_eq!(at_or_above_version("v24.11", "24.x"), Err(VersionError::BadComponent));
    assert_eq!(at_or_above_version("v24.11", ""), Err(VersionError::BadComponent));
    assert_eq!(at_or_above_version("v4294967296.1", "24.11"), Err(VersionError::BadComponent));
    assert_eq!(at_or_above_version("v4294967295.1", "24.11"), Ok(true));
    assert_eq!(at_or_above_version("v25.1", "24.x"), Ok(true));
    assert_eq!(at_or_above_version("v24.11", "+24.11"), Ok(true));
}

#[test]
fn version_messages() {
    assert_eq!(
        version_error_message(VersionError::MissingMarker, "24.11"),
        "Could not find v in version string"
    );
    assert_eq!(
        version_error_message(VersionError::ComponentCount, "v24"),
        "Version string parse error: v24"
    );
    assert_eq!(
        version_error_message(VersionError::BadComponent, "v24..1"),
        "Version component is not a number: v24..1"
    );
}
