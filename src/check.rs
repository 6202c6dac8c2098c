use vstd::prelude::*;
use crate::failure::{Failure, FailureKind};
use crate::text::{decimal, decimal_spec, list_spec, list_text, option_spec, option_text};

verus! {

/// The message of a condition, described by `desc`, that is false.
pub open spec fn false_message(desc: Seq<char>) -> Seq<char> {
    "Assertion failed: `"@ + desc + "` is false"@
}

/// The message of an equality, described by `desc`, whose two sides printed as
/// `left` and `right` differ.
pub open spec fn unequal_message(desc: Seq<char>, left: Seq<char>, right: Seq<char>) -> Seq<char> {
    "Assertion failed: `"@ + desc + "`. Left: "@ + left + ", Right: "@ + right
}

/// True when `r` is an assertion failure with message `m`.
pub open spec fn fails_with(r: Result<(), Failure>, m: Seq<char>) -> bool {
    r is Err && r->Err_0.kind == FailureKind::Assertion && r->Err_0.message@ == m
}

fn unequal_failure(description: &str, left: String, right: String) -> (r: Failure)
    ensures
        r.kind == FailureKind::Assertion,
        r.message@ == unequal_message(description@, left@, right@),
{
    proof { reveal_strlit("Assertion failed: `"); reveal_strlit("`. Left: "); reveal_strlit(", Right: "); }
    let mut message = String::from_str("Assertion failed: `");
    message.append(description);
    message.append("`. Left: ");
    message.append(left.as_str());
    message.append(", Right: ");
    message.append(right.as_str());
    Failure { kind: FailureKind::Assertion, message }
}

/// Succeeds exactly when `condition` holds; else fails with a message naming
/// `description`.
pub fn assert_true(condition: bool, description: &str) -> (r: Result<(), Failure>)
    ensures
        r is Ok <==> condition,
        !condition ==> fails_with(r, false_message(description@)),
{
    if condition {
        Ok(())
    } else {
        proof { reveal_strlit("Assertion failed: `"); reveal_strlit("` is false"); }
        let mut message = String::from_str("Assertion failed: `");
        message.append(description);
        message.append("` is false");
        Err(Failure { kind: FailureKind::Assertion, message })
    }
}

/// Succeeds exactly when `actual == expected`; else fails with a message that
/// holds `description` and both values.
pub fn assert_equal(actual: u64, expected: u64, description: &str) -> (r: Result<(), Failure>)
    ensures
        r is Ok <==> actual == expected,
        actual != expected ==> fails_with(
            r,
            unequal_message(description@, decimal_spec(actual as nat), decimal_spec(expected as nat)),
        ),
{
    if actual == expected {
        Ok(())
    } else {
        Err(unequal_failure(description, decimal(actual), decimal(expected)))
    }
}

/// Succeeds exactly when the two optional values are equal.
pub fn assert_equal_option(actual: Option<u64>, expected: Option<u64>, description: &str) -> (r: Result<
    (),
    Failure,
>)
    ensures
        r is Ok <==> actual == expected,
        actual != expected ==> fails_with(
            r,
            unequal_message(description@, option_spec(actual), option_spec(expected)),
        ),
{
    let same = match (actual, expected) {
        (Some(a), Some(b)) => a == b,
        (None, None) => true,
        _ => false,
    };
    if same {
        Ok(())
    } else {
        Err(unequal_failure(description, option_text(actual), option_text(expected)))
    }
}

/// Whether `a` and `b` hold the same items in the same order.
pub fn same_items(a: &Vec<u64>, b: &Vec<u64>) -> (r: bool)
    ensures
        r <==> a@ == b@,
{
    if a.len() != b.len() {
        return false;
    }
    let mut i: usize = 0;
    while i < a.len()
        invariant
            i <= a.len(),
            a.len() == b.len(),
            forall|k: int| 0 <= k < i ==> a@[k] == b@[k],
        decreases a.len() - i,
    {
        if a[i] != b[i] {
            return false;
        }
        i = i + 1;
    }
    assert(a@ =~= b@);
    true
}

/// Succeeds exactly when the two lists are equal item for item.
pub fn assert_equal_list(actual: &Vec<u64>, expected: &Vec<u64>, description: &str) -> (r: Result<
    (),
    Failure,
>)
    ensures
        r is Ok <==> actual@ == expected@,
        actual@ != expected@ ==> fails_with(
            r,
            unequal_message(description@, list_spec(actual@), list_spec(expected@)),
        ),
{
    if same_items(actual, expected) {
        Ok(())
    } else {
        Err(unequal_failure(description, list_text(actual), list_text(expected)))
    }
}

} // verus!
