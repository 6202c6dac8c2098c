use sync_harness::text::{decimal, list_text, option_text};

#[test]
fn decimal_of_zero() {
    assert_eq!(decimal(0), "0");
}

#[test]
fn decimal_of_several_digits() {
    assert_eq!(decimal(200), "200");
    assert_eq!(decimal(1009), "1009");
}

#[test]
fn decimal_of_largest() {
    assert_eq!(decimal(u64::MAX), "18446744073709551615");
}

#[test]
fn list_of_nothing() {
    assert_eq!(list_text(&vec![]), "[]");
}

#[test]
fn list_of_one() {
    assert_eq!(list_text(&vec![7]), "[7]");
}

#[test]
fn list_of_several() {
    assert_eq!(list_text(&vec![0, 1, 25]), "[0, 1, 25]");
}

#[test]
fn option_texts() {
    assert_eq!(option_text(Some(42)), "Some(42)");
    assert_eq!(option_text(None), "None");
}
