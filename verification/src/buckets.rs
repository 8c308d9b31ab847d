use vstd::prelude::*;

verus! {

/// Buckets of a histogram axis between its underflow and overflow buckets.
pub const NUM_BUCKETS: u64 = 20000;

/// Buckets of a histogram axis, the underflow and overflow buckets included.
pub const TOTAL_BUCKETS: usize = 20002;

/// Nanoseconds by which an axis reaches past the send interval.
pub const OFFSET: u64 = 1000000;

/// Width of one bucket of the axis `[min, max]`.
pub open spec fn spec_bucket_size(min: u64, max: u64) -> int {
    (max - min) / (NUM_BUCKETS as int)
}

/// Bucket of `val` on the axis `[min, max]`: 0 below the axis,
/// `NUM_BUCKETS + 1` above it, else one more than the number of whole
/// buckets between `min` and `val`.
pub open spec fn spec_bucket_idx(val: u64, min: u64, max: u64) -> int {
    if val < min {
        0
    } else if val > max {
        NUM_BUCKETS + 1
    } else {
        1 + (val - min) / spec_bucket_size(min, max)
    }
}

/// Slot of the histogram that counts `val`: its bucket, or the overflow
/// bucket where the bucket's number lies past it.
pub open spec fn spec_bucket_slot(val: u64, min: u64, max: u64) -> int {
    if spec_bucket_idx(val, min, max) > NUM_BUCKETS + 1 {
        NUM_BUCKETS + 1
    } else {
        spec_bucket_idx(val, min, max)
    }
}

/// Lower end of the relative axis for a send interval.
pub open spec fn spec_rel_min(interval: u64) -> int {
    if interval < OFFSET {
        0
    } else {
        interval - OFFSET
    }
}

/// Upper end of both axes for a send interval.
pub open spec fn spec_axis_max(interval: u64) -> int {
    interval + OFFSET
}

/// Bucket of `val` on the axis `[min, max]`. A value on the axis is
/// divided by the bucket size, so the axis must be wide enough for that
/// size not to be zero; a value off the axis needs nothing of the axis.
pub fn bucket_idx(val: u64, min: u64, max: u64) -> (idx: u64)
    requires
        min <= val <= max ==> max - min >= NUM_BUCKETS,
    ensures
        idx == spec_bucket_idx(val, min, max),
{
    if val < min {
        return 0;
    }
    if val > max {
        return NUM_BUCKETS + 1;
    }
    let bucket_size: u64 = (max - min) / NUM_BUCKETS;
    assert(bucket_size >= 1) by {
        assert((max - min) / (NUM_BUCKETS as int) >= 1) by (nonlinear_arith)
            requires
                max - min >= NUM_BUCKETS,
                NUM_BUCKETS == 20000,
        ;
    }
    assert((val - min) / (bucket_size as int) < 40000) by (nonlinear_arith)
        requires
            0 <= val - min <= max - min,
            bucket_size >= 1,
            bucket_size == (max - min) / 20000,
    ;
    (val - min) / bucket_size + 1
}

/// Slot of a histogram of `TOTAL_BUCKETS` slots that counts `val`.
pub fn bucket_slot(val: u64, min: u64, max: u64) -> (slot: usize)
    requires
        min <= val <= max ==> max - min >= NUM_BUCKETS,
    ensures
        slot == spec_bucket_slot(val, min, max),
        slot < TOTAL_BUCKETS,
{
    let idx: u64 = bucket_idx(val, min, max);
    if idx > NUM_BUCKETS + 1 {
        (NUM_BUCKETS + 1) as usize
    } else {
        idx as usize
    }
}

/// The ends of the two axes for a send interval, as
/// `(rel_min, rel_max, abs_min, abs_max)`: the relative axis brackets the
/// interval by `OFFSET` on both sides and does not reach below zero, the
/// absolute axis runs from zero to the interval plus `OFFSET`.
pub fn bucket_ranges(interval: u64) -> (r: (u64, u64, u64, u64))
    requires
        interval + OFFSET <= u64::MAX,
    ensures
        r.0 == spec_rel_min(interval),
        r.1 == spec_axis_max(interval),
        r.2 == 0,
        r.3 == spec_axis_max(interval),
        r.0 <= r.1,
        r.1 - r.0 >= NUM_BUCKETS,
        r.3 - r.2 >= NUM_BUCKETS,
{
    let abs_min: u64 = 0;
    let abs_max: u64 = interval + OFFSET;
    let rel_max: u64 = interval + OFFSET;
    let rel_min: u64 = if interval < OFFSET {
        0
    } else {
        interval - OFFSET
    };
    (rel_min, rel_max, abs_min, abs_max)
}

/// Below the axis a value falls into bucket 0, above it into bucket
/// `NUM_BUCKETS + 1`, and within the first `NUM_BUCKETS` whole buckets of
/// the axis into a bucket from 1 to `NUM_BUCKETS`.
pub proof fn lemma_bucket_idx_classes(val: u64, min: u64, max: u64)
    requires
        min <= max,
        min <= val <= max ==> max - min >= NUM_BUCKETS,
    ensures
        val < min ==> spec_bucket_idx(val, min, max) == 0,
        val > max ==> spec_bucket_idx(val, min, max) == NUM_BUCKETS + 1,
        min <= val <= max ==> spec_bucket_idx(val, min, max) >= 1,
        min <= val <= max && val - min < NUM_BUCKETS * spec_bucket_size(min, max) ==> 1
            <= spec_bucket_idx(val, min, max) <= NUM_BUCKETS,
        min <= val <= max && val - min >= NUM_BUCKETS * spec_bucket_size(min, max)
            ==> spec_bucket_idx(val, min, max) > NUM_BUCKETS,
{
    let bs = spec_bucket_size(min, max);
    if min <= val <= max {
        assert(bs >= 1) by (nonlinear_arith)
            requires
                bs == (max - min) / 20000,
                max - min >= 20000,
        ;
        let d = val - min;
        assert(d / bs >= 0) by (nonlinear_arith)
            requires
                d >= 0,
                bs >= 1,
        ;
        if d < NUM_BUCKETS * bs {
            assert(d / bs < 20000) by (nonlinear_arith)
                requires
                    d >= 0,
                    bs >= 1,
                    d < 20000 * bs,
            ;
        } else {
            assert(d / bs >= 20000) by (nonlinear_arith)
                requires
                    bs >= 1,
                    d >= 20000 * bs,
            ;
        }
    }
}

/// A value in the last whole bucket of the axis falls into bucket
/// `NUM_BUCKETS`, the last one before the overflow bucket.
pub proof fn lemma_last_bucket(val: u64, min: u64, max: u64)
    requires
        min <= val <= max,
        max - min >= NUM_BUCKETS,
        (NUM_BUCKETS - 1) * spec_bucket_size(min, max) <= val - min < NUM_BUCKETS
            * spec_bucket_size(min, max),
    ensures
        spec_bucket_idx(val, min, max) == NUM_BUCKETS,
        spec_bucket_slot(val, min, max) == NUM_BUCKETS,
{
    let bs = spec_bucket_size(min, max);
    let d = val - min;
    assert(bs >= 1) by (nonlinear_arith)
        requires
            bs == (max - min) / 20000,
            max - min >= 20000,
    ;
    assert(d / bs == 19999) by (nonlinear_arith)
        requires
            bs >= 1,
            19999 * bs <= d < 20000 * bs,
    ;
}

} // verus!
