//! Splitting a frame range into per-worker sub-ranges.

use vstd::prelude::*;

verus! {

use vstd::arithmetic::div_mod::{
    lemma_div_pos_is_pos, lemma_fundamental_div_mod, lemma_multiply_divide_lt,
};
use vstd::arithmetic::mul::{
    lemma_mul_inequality, lemma_mul_is_distributive_add_other_way, lemma_mul_nonnegative,
};

/// A half-open range of frame indices `[start, end)`.
#[derive(Debug, Clone, Copy, PartialEq, Eq, Structural)]
pub struct FrameRange {
    pub start: u32,
    pub end: u32,
}

impl FrameRange {
    /// A range is well formed when it does not end before it starts.
    pub open spec fn wf(self) -> bool {
        self.start <= self.end
    }

    /// How many frames the range spans.
    pub open spec fn spec_len(self) -> int {
        self.end - self.start
    }

    /// Whether frame index `i` falls inside the range.
    pub open spec fn spec_contains(self, i: int) -> bool {
        self.start <= i < self.end
    }

    /// Whether the range spans no frame at all.
    pub fn is_empty(&self) -> (r: bool)
        requires
            self.wf(),
        ensures
            r == (self.spec_len() == 0),
    {
        self.start >= self.end
    }
}

/// Relies on num_cpus::get: the number of logical CPUs available to the
/// process, always at least one.
#[verifier::external_body]
fn cpu_count() -> (n: usize)
    ensures
        n >= 1,
{
    num_cpus::get()
}

/// The worker count a render run defaults to: the machine's available
/// parallelism, and in any case at least one worker.
pub fn default_worker_count() -> (w: u32)
    ensures
        w >= 1,
{
    let n = cpu_count();
    if n > (u32::MAX as usize) {
        u32::MAX
    } else {
        n as u32
    }
}

/// The whole number of frames every worker but the last receives.
pub open spec fn spec_base_size(range: FrameRange, worker_count: u32) -> int {
    range.spec_len() / (worker_count as int)
}

/// The shape `partition` promises: `worker_count` contiguous sub-ranges in
/// worker order, each but the last spanning the base size, the last ending
/// exactly at `range.end`.
pub open spec fn is_partition_of(parts: Seq<FrameRange>, range: FrameRange, worker_count: u32) -> bool {
    let base = spec_base_size(range, worker_count);
    &&& parts.len() == worker_count
    &&& forall|k: int|
        0 <= k < worker_count ==> (#[trigger] parts[k]).start == range.start + k * base
    &&& forall|k: int|
        0 <= k < worker_count - 1 ==> (#[trigger] parts[k]).end == range.start + (k + 1) * base
    &&& parts[worker_count - 1].end == range.end
}

/// Splits `range` into one contiguous sub-range per worker.
///
/// Every worker receives `floor(len / worker_count)` frames; the last worker
/// absorbs the remainder, so the final sub-range always ends exactly at
/// `range.end`. When there are fewer frames than workers, early workers
/// receive an empty range and are to be skipped, not treated as an error.
pub fn partition(range: FrameRange, worker_count: u32) -> (parts: Vec<FrameRange>)
    requires
        range.wf(),
        worker_count >= 1,
    ensures
        is_partition_of(parts@, range, worker_count),
        forall|k: int| 0 <= k < parts@.len() ==> (#[trigger] parts@[k]).wf(),
{
    let total: u32 = range.end - range.start;
    let base: u32 = total / worker_count;
    proof {
        lemma_fundamental_div_mod(total as int, worker_count as int);
    }
    let mut parts: Vec<FrameRange> = Vec::new();
    let mut cur: u32 = range.start;
    let mut k: u32 = 0;
    while k < worker_count
        invariant
            range.wf(),
            1 <= worker_count,
            total == range.spec_len(),
            base == spec_base_size(range, worker_count),
            (worker_count as int) * (base as int) <= total,
            k <= worker_count,
            parts@.len() == k,
            k < worker_count ==> cur == range.start + k * base,
            forall|j: int|
                0 <= j < k ==> (#[trigger] parts@[j]).start == range.start + j * base,
            forall|j: int|
                0 <= j < k && j < worker_count - 1 ==> (#[trigger] parts@[j]).end == range.start
                    + (j + 1) * base,
            k == worker_count ==> parts@[worker_count - 1].end == range.end,
            forall|j: int| 0 <= j < k ==> (#[trigger] parts@[j]).wf(),
        decreases worker_count - k,
    {
        proof {
            lemma_mul_inequality(k as int + 1, worker_count as int, base as int);
            lemma_mul_inequality(k as int, worker_count as int, base as int);
            assert((k as int + 1) * (base as int) == k as int * (base as int) + base as int)
                by (nonlinear_arith);
            assert(k as int * (base as int) >= 0) by (nonlinear_arith)
                requires
                    k as int >= 0,
                    base as int >= 0,
            ;
        }
        let next: u32 = if k == worker_count - 1 {
            range.end
        } else {
            cur + base
        };
        parts.push(FrameRange { start: cur, end: next });
        cur = next;
        k = k + 1;
    }
    parts
}

/// The sub-ranges of a partition are ordered by ascending start, pairwise
/// disjoint, and collectively cover the partitioned range exactly: every
/// frame of the range falls in precisely one sub-range, and no sub-range
/// reaches outside the range.
pub proof fn lemma_partition_properties(parts: Seq<FrameRange>, range: FrameRange, worker_count: u32)
    requires
        range.wf(),
        worker_count >= 1,
        is_partition_of(parts, range, worker_count),
    ensures
        forall|k1: int, k2: int|
            0 <= k1 <= k2 < parts.len() ==> (#[trigger] parts[k1]).start <= (
            #[trigger] parts[k2]).start,
        forall|k1: int, k2: int, i: int|
            #![trigger parts[k1].spec_contains(i), parts[k2].spec_contains(i)]
            0 <= k1 < k2 < parts.len() ==> !(parts[k1].spec_contains(i)
                && parts[k2].spec_contains(i)),
        forall|k: int, i: int|
            0 <= k < parts.len() && #[trigger] parts[k].spec_contains(i)
                ==> range.spec_contains(i),
        forall|i: int|
            #![trigger range.spec_contains(i)]
            range.spec_contains(i) ==> exists|k: int|
                0 <= k < parts.len() && (#[trigger] parts[k]).spec_contains(i),
{
    let base = spec_base_size(range, worker_count);
    let wi = worker_count as int;
    lemma_fundamental_div_mod(range.spec_len(), wi);
    assert(wi * base <= range.spec_len());
    lemma_partition_ranges_nested(parts, range, worker_count);
    assert forall|k1: int, k2: int| 0 <= k1 <= k2 < parts.len() implies (
    #[trigger] parts[k1]).start <= (#[trigger] parts[k2]).start by {
        lemma_mul_inequality(k1, k2, base);
    }
    assert forall|k1: int, k2: int, i: int|
        #![trigger parts[k1].spec_contains(i), parts[k2].spec_contains(i)]
        0 <= k1 < k2 < parts.len() implies !(parts[k1].spec_contains(i)
        && parts[k2].spec_contains(i)) by {
        // the earlier sub-range ends no later than the later one starts
        lemma_mul_inequality(k1 + 1, k2, base);
    }
    assert forall|i: int| range.spec_contains(i) implies exists|k: int|
        0 <= k < parts.len() && (#[trigger] parts[k]).spec_contains(i) by {
        let last = wi - 1;
        if i >= range.start + last * base {
            assert(parts[last].spec_contains(i));
        } else {
            // `last * base` exceeds the nonnegative offset `i - start`, so
            // `base` cannot be zero; the enclosing sub-range is the quotient
            // of the offset from the range's start
            lemma_div_pos_is_pos(range.spec_len(), wi);
            assert(base > 0) by {
                assert(last * base > i - range.start >= 0);
                if base == 0 {
                    assert(last * base == 0) by (nonlinear_arith)
                        requires
                            base == 0,
                    ;
                }
            }
            let k = (i - range.start) / base;
            lemma_fundamental_div_mod(i - range.start, base);
            lemma_div_pos_is_pos(i - range.start, base);
            assert(base * last == last * base) by (nonlinear_arith);
            lemma_multiply_divide_lt(i - range.start, base, last);
            lemma_mul_is_distributive_add_other_way(base, k, 1);
            assert(base * k == k * base) by (nonlinear_arith);
            assert(parts[k].spec_contains(i));
        }
    }
}

/// Every sub-range of a partition stays inside the partitioned range.
proof fn lemma_partition_ranges_nested(parts: Seq<FrameRange>, range: FrameRange, worker_count: u32)
    requires
        range.wf(),
        worker_count >= 1,
        is_partition_of(parts, range, worker_count),
        (worker_count as int) * spec_base_size(range, worker_count) <= range.spec_len(),
    ensures
        forall|k: int, i: int|
            0 <= k < parts.len() && #[trigger] parts[k].spec_contains(i)
                ==> range.spec_contains(i),
{
    let base = spec_base_size(range, worker_count);
    let wi = worker_count as int;
    assert forall|k: int, i: int|
        0 <= k < parts.len() && #[trigger] parts[k].spec_contains(i) implies range.spec_contains(
        i,
    ) by {
        lemma_mul_nonnegative(k, base);
        if k < wi - 1 {
            lemma_mul_inequality(k + 1, wi, base);
        }
    }
}

} // verus!
