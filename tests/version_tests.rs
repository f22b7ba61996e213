use std::cmp::Ordering;
use stelliberty_service::version::{compare_versions, version_parts_of};

#[test]
fn test_version_comparison() {
    assert_eq!(compare_versions("1.0.0", "1.0.0"), Ordering::Equal);
    assert_eq!(compare_versions("1.0.0", "1.0.1"), Ordering::Less);
    assert_eq!(compare_versions("1.0.1", "1.0.0"), Ordering::Greater);
    assert_eq!(compare_versions("1.2.3", "1.10.0"), Ordering::Less);
    assert_eq!(compare_versions("2.0.0", "1.9.9"), Ordering::Greater);
}

#[test]
fn missing_components_count_as_zero() {
    assert_eq!(compare_versions("1.0", "1.0.0"), Ordering::Equal);
    assert_eq!(compare_versions("1", "1.0.1"), Ordering::Less);
    assert_eq!(compare_versions("", "0.0"), Ordering::Equal);
}

#[test]
fn non_numeric_components_are_skipped() {
    assert_eq!(version_parts_of("1.a.2"), vec![1, 2]);
    assert_eq!(version_parts_of("+3.-4.5"), vec![3, 5]);
    assert_eq!(version_parts_of("1..2."), vec![1, 2]);
    assert_eq!(version_parts_of("4294967295.4294967296"), vec![4294967295]);
    assert_eq!(version_parts_of("1.0.0-beta"), vec![1, 0]);
}
