//! Witness tests: each is a concrete frozen input for the null-padding
//! property, which must pass.

use ahash::etna::{property_null_padding_distinct, PropertyResult};

fn assert_pass(r: PropertyResult) {
    match r {
        PropertyResult::Pass => {}
        PropertyResult::Fail(m) => panic!("witness FAIL: {}", m),
        PropertyResult::Discard => panic!("witness DISCARDED"),
    }
}

#[test]
fn witness_null_padding_distinct_case_zero_vs_one() {
    assert_pass(property_null_padding_distinct((0, 1)));
}

#[test]
fn witness_null_padding_distinct_case_short_within_path() {
    // Both lengths take the short-input read, which gives [0, 0] for either;
    // only the mixed-in length tells them apart.
    assert_pass(property_null_padding_distinct((5, 8)));
}

#[test]
fn witness_null_padding_distinct_case_zero_vs_eight() {
    assert_pass(property_null_padding_distinct((0, 8)));
}

#[test]
fn witness_null_padding_distinct_case_two_vs_seven() {
    assert_pass(property_null_padding_distinct((2, 7)));
}
