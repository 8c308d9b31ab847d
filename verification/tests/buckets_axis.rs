use det_bypass::buckets::{bucket_idx, bucket_ranges, bucket_slot, NUM_BUCKETS, OFFSET, TOTAL_BUCKETS};

#[test]
fn below_the_axis_is_bucket_zero() {
    assert_eq!(bucket_idx(0, 100, 2_000_100), 0);
    assert_eq!(bucket_idx(99, 100, 2_000_100), 0);
}

#[test]
fn above_the_axis_is_the_overflow_bucket() {
    assert_eq!(bucket_idx(2_000_101, 100, 2_000_100), NUM_BUCKETS + 1);
    assert_eq!(bucket_idx(u64::MAX, 0, 1_000_000), 20001);
}

#[test]
fn inside_the_axis_counts_whole_buckets() {
    // bucket size (2_000_100 - 100) / 20000 = 100
    assert_eq!(bucket_idx(100, 100, 2_000_100), 1);
    assert_eq!(bucket_idx(199, 100, 2_000_100), 1);
    assert_eq!(bucket_idx(200, 100, 2_000_100), 2);
    assert_eq!(bucket_idx(2_000_099, 100, 2_000_100), 20000);
}

#[test]
fn last_whole_bucket_is_the_last_before_overflow() {
    // axis [0, 1_000_000], bucket size 50
    assert_eq!(bucket_idx(OFFSET - 1, 0, OFFSET), NUM_BUCKETS);
    assert_eq!(bucket_idx(OFFSET - 50, 0, OFFSET), NUM_BUCKETS);
    assert_eq!(bucket_idx(OFFSET - 51, 0, OFFSET), NUM_BUCKETS - 1);
}

#[test]
fn upper_end_of_the_axis_counts_as_overflow() {
    assert_eq!(bucket_idx(OFFSET, 0, OFFSET), NUM_BUCKETS + 1);
    assert_eq!(bucket_slot(OFFSET, 0, OFFSET), TOTAL_BUCKETS - 1);
}

#[test]
fn slot_never_leaves_the_histogram() {
    // axis [0, 1_019_999]: bucket size 50, the top of the axis has number 20400
    assert_eq!(bucket_idx(1_019_999, 0, 1_019_999), 20400);
    assert_eq!(bucket_slot(1_019_999, 0, 1_019_999), 20001);
    assert_eq!(bucket_slot(0, 0, 1_019_999), 1);
    assert_eq!(bucket_slot(5, 10, 1_019_999), 0);
}

#[test]
fn ranges_for_an_interval_below_the_offset() {
    assert_eq!(bucket_ranges(100_000), (0, 1_100_000, 0, 1_100_000));
    assert_eq!(bucket_ranges(0), (0, 1_000_000, 0, 1_000_000));
    assert_eq!((1_100_000 - 0) / NUM_BUCKETS, 55);
}

#[test]
fn ranges_for_an_interval_above_the_offset() {
    assert_eq!(bucket_ranges(10_000_000), (9_000_000, 11_000_000, 0, 11_000_000));
    assert_eq!(bucket_ranges(OFFSET), (0, 2_000_000, 0, 2_000_000));
}
