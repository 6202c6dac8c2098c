use sync_harness::check::{assert_equal, assert_equal_list, assert_equal_option, assert_true, same_items};
use sync_harness::failure::FailureKind;

#[test]
fn true_condition_passes() {
    assert!(assert_true(true, "started").is_ok());
}

#[test]
fn false_condition_names_description() {
    let f = assert_true(false, "*started").unwrap_err();
    assert_eq!(f.kind, FailureKind::Assertion);
    assert_eq!(f.message, "Assertion failed: `*started` is false");
}

#[test]
fn equal_values_pass() {
    assert!(assert_equal(42, 42, "result == 42").is_ok());
}

#[test]
fn unequal_values_show_both() {
    let f = assert_equal(41, 42, "result == 42").unwrap_err();
    assert_eq!(f.kind, FailureKind::Assertion);
    assert_eq!(f.message, "Assertion failed: `result == 42`. Left: 41, Right: 42");
}

#[test]
fn options_compare() {
    assert!(assert_equal_option(Some(42), Some(42), "cell").is_ok());
    assert!(assert_equal_option(None, None, "cell").is_ok());
    let f = assert_equal_option(None, Some(42), "cell").unwrap_err();
    assert_eq!(f.message, "Assertion failed: `cell`. Left: None, Right: Some(42)");
    let f = assert_equal_option(Some(41), Some(42), "cell").unwrap_err();
    assert_eq!(f.message, "Assertion failed: `cell`. Left: Some(41), Right: Some(42)");
}

#[test]
fn lists_compare_item_by_item() {
    assert!(same_items(&vec![], &vec![]));
    assert!(same_items(&vec![1, 2], &vec![1, 2]));
    assert!(!same_items(&vec![1, 2], &vec![2, 1]));
    assert!(!same_items(&vec![1, 2], &vec![1, 2, 3]));
}

#[test]
fn unequal_lists_show_both() {
    let f = assert_equal_list(&vec![1, 0], &vec![0, 1], "received == expected").unwrap_err();
    assert_eq!(f.message, "Assertion failed: `received == expected`. Left: [1, 0], Right: [0, 1]");
    assert!(assert_equal_list(&vec![3], &vec![3], "same").is_ok());
}
