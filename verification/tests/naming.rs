//! The branch naming rule and the normalization of operator input.

use gt::branch::{normalize_branch_name, validate_branch_name, Branch};
use gt::errors::GtError;

#[test]
fn accepts_ordinary_names() {
    assert!(Branch::is_valid_name("feature/x"));
    assert!(Branch::is_valid_name("a"));
    assert!(Branch::is_valid_name("fix-1"));
    assert!(Branch::is_valid_name("hotfix/login_bug"));
    assert!(Branch::is_valid_name("a/b/c"));
}

#[test]
fn rejects_empty_name() {
    assert!(!Branch::is_valid_name(""));
}

#[test]
fn rejects_leading_and_trailing_separators() {
    assert!(!Branch::is_valid_name("/a"));
    assert!(!Branch::is_valid_name("a/"));
    assert!(!Branch::is_valid_name("-a"));
    assert!(!Branch::is_valid_name("a-"));
}

#[test]
fn rejects_consecutive_separators() {
    assert!(!Branch::is_valid_name("a..b"));
    assert!(!Branch::is_valid_name("a//b"));
}

#[test]
fn rejects_characters_outside_the_charset() {
    assert!(!Branch::is_valid_name("a b"));
    assert!(!Branch::is_valid_name("a~b"));
    assert!(!Branch::is_valid_name("a^b"));
    assert!(!Branch::is_valid_name("a:b"));
    assert!(!Branch::is_valid_name("a?b"));
    assert!(!Branch::is_valid_name("a*b"));
    assert!(!Branch::is_valid_name("a[b"));
    assert!(!Branch::is_valid_name("a.b"));
}

#[test]
fn normalizes_spaces_underscores_and_case() {
    assert_eq!(normalize_branch_name("  Feature X_2 "), "feature-x-2");
    assert_eq!(normalize_branch_name("plain"), "plain");
    assert_eq!(normalize_branch_name("A_B C"), "a-b-c");
}

#[test]
fn validates_raw_input() {
    assert!(validate_branch_name("feature/x").is_ok());
    assert!(matches!(
        validate_branch_name(""),
        Err(GtError::InvalidBranchName { .. })
    ));
    assert!(matches!(
        validate_branch_name("-lead"),
        Err(GtError::InvalidBranchName { .. })
    ));
    assert!(matches!(
        validate_branch_name("trail."),
        Err(GtError::InvalidBranchName { .. })
    ));
    assert!(matches!(
        validate_branch_name("a..b"),
        Err(GtError::InvalidBranchName { .. })
    ));
}
