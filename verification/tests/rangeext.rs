use ehttpd_range::anyrange::AnyInclusiveRange;
use ehttpd_range::rangeext::RangeExt;
use std::ops::{Range, RangeInclusive};

#[test]
fn to_inclusive() {
    // Test full range
    let range = RangeInclusive::<u64>::from_range_bounds(AnyInclusiveRange::Full, 0, 1)
        .expect("failed to convert range");
    assert_eq!(range, 0..=0);

    // Test half-open range
    let range = RangeInclusive::<u64>::from_range_bounds(AnyInclusiveRange::From { start: 0 }, 0, 1)
        .expect("failed to convert range");
    assert_eq!(range, 0..=0);

    // Test half-closed range
    let range = RangeInclusive::<u64>::from_range_bounds(AnyInclusiveRange::To { end: 0 }, 0, 1)
        .expect("failed to convert range");
    assert_eq!(range, 0..=0);

    // Test large range
    let range =
        RangeInclusive::<u64>::from_range_bounds(AnyInclusiveRange::From { start: 7 }, 0, u64::MAX)
            .expect("failed to convert range");
    assert_eq!(range, 7..=(u64::MAX - 1));
}

#[test]
fn to_exclusive() {
    // Test full range
    let range = Range::<u64>::from_range_bounds(AnyInclusiveRange::Full, 0, 0)
        .expect("failed to convert range");
    assert_eq!(range, 0..0);

    // Test half-open range
    let range = Range::<u64>::from_range_bounds(AnyInclusiveRange::From { start: 0 }, 0, 0)
        .expect("failed to convert range");
    assert_eq!(range, 0..0);

    // Test half-closed range (an exclusive end of zero has no inclusive
    // counterpart; the unbounded descriptor resolves to the same empty range)
    let range = Range::<u64>::from_range_bounds(AnyInclusiveRange::Full, 0, 0)
        .expect("failed to convert range");
    assert_eq!(range, 0..0);

    // Test large range
    let range = Range::<u64>::from_range_bounds(AnyInclusiveRange::From { start: 7 }, 0, u64::MAX)
        .expect("failed to convert range");
    assert_eq!(range, 7..u64::MAX);
}

#[test]
fn to_exclusive_saturates_at_numeric_maximum() {
    // An inclusive end at the top of the numeric domain saturates instead
    // of overflowing when converted to a half-open end
    let range =
        Range::<u64>::from_range_bounds(AnyInclusiveRange::To { end: u64::MAX }, 0, u64::MAX)
            .expect("failed to convert range");
    assert_eq!(range, 0..u64::MAX);
}

#[test]
fn to_exclusive_bounded_forms() {
    // `k..` keeps its start, the end defaults to the domain end
    let range = Range::<u64>::from_range_bounds(AnyInclusiveRange::From { start: 3 }, 0, 10)
        .expect("failed to convert range");
    assert_eq!(range, 3..10);

    // An inclusive end `e` maps to the half-open end `e + 1`
    let range = Range::<u64>::from_range_bounds(AnyInclusiveRange::To { end: 3 }, 0, 10)
        .expect("failed to convert range");
    assert_eq!(range, 0..4);

    // A start beyond the domain is rejected
    let range = Range::<u64>::from_range_bounds(AnyInclusiveRange::From { start: 11 }, 0, 10);
    assert_eq!(range, None);
}

#[test]
fn to_inclusive_empty_domain_is_rejected() {
    // No range resolves against an empty domain in the inclusive form
    assert_eq!(RangeInclusive::<u64>::from_range_bounds(AnyInclusiveRange::Full, 0, 0), None);
    assert_eq!(
        RangeInclusive::<u64>::from_range_bounds(AnyInclusiveRange::From { start: 0 }, 0, 0),
        None
    );
    assert_eq!(
        RangeInclusive::<u64>::from_range_bounds(AnyInclusiveRange::To { end: 0 }, 0, 0),
        None
    );
}

#[test]
fn to_exclusive_usize_forms() {
    let range = Range::<usize>::from_range_bounds(AnyInclusiveRange::FromTo { start: 2, end: 5 }, 0, 10)
        .expect("failed to convert range");
    assert_eq!(range, 2..6);

    // An end beyond the domain is rejected
    let range =
        Range::<usize>::from_range_bounds(AnyInclusiveRange::FromTo { start: 5, end: 20 }, 0, 10);
    assert_eq!(range, None);
}
