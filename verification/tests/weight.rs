use root_mandate::{apply_weight, Weight, APPLY_SURCHARGE};

#[test]
fn surcharge_is_ten_thousand() {
    assert_eq!(APPLY_SURCHARGE, 10_000);
}

#[test]
fn weight_is_estimate_plus_surcharge() {
    assert_eq!(apply_weight(0), 10_000);
    assert_eq!(apply_weight(1), 10_001);
    assert_eq!(apply_weight(250), 10_250);
    assert_eq!(apply_weight(1_000_000_000), 1_000_010_000);
}

#[test]
fn weight_reaches_the_largest_value() {
    assert_eq!(apply_weight(Weight::MAX - APPLY_SURCHARGE), Weight::MAX);
    assert_eq!(apply_weight(Weight::MAX - APPLY_SURCHARGE - 1), Weight::MAX - 1);
}

#[test]
fn weight_depends_on_the_estimate_alone() {
    let before_dispatch = apply_weight(777);
    let after_dispatch = apply_weight(777);
    assert_eq!(before_dispatch, after_dispatch);
    assert_eq!(before_dispatch, 10_777);
}
