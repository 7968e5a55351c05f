//! Post-write verification by sampled comparison: equally spaced windows
//! of the source image are compared with the same windows of the target.

use vstd::prelude::*;
use crate::operation::OpError;

verus! {

/// Where window `i` of `count` windows of `size` bytes starts in a source of
/// `total` bytes: equally spaced, and moved back so that it ends within the
/// source.
pub open spec fn sample_offset(i: nat, total: nat, count: nat, size: nat) -> nat
    recommends
        count > 0,
{
    let step = total / count;
    let last = if total >= size {
        (total - size) as nat
    } else {
        0
    };
    if i * step < last {
        i * step
    } else {
        last
    }
}

/// How the comparison of windows `i` onwards ends: `Err` when a window runs
/// past the end of either buffer, `Ok(false)` at the first window that
/// differs, `Ok(true)` when all are equal.
pub open spec fn compare_from(src: Seq<u8>, tgt: Seq<u8>, count: nat, size: nat, i: nat) -> Result<bool, ()>
    decreases count - i,
{
    if i >= count {
        Ok(true)
    } else {
        let off = sample_offset(i, src.len(), count, size);
        if off + size > src.len() || off + size > tgt.len() {
            Err(())
        } else if src.subrange(off as int, (off + size) as int) != tgt.subrange(off as int, (off + size) as int) {
            Ok(false)
        } else {
            compare_from(src, tgt, count, size, i + 1)
        }
    }
}

/// The outcome of a sampled comparison; no windows always pass.
pub open spec fn sampled_outcome(src: Seq<u8>, tgt: Seq<u8>, count: nat, size: nat) -> Result<bool, ()> {
    if count == 0 || size == 0 {
        Ok(true)
    } else {
        compare_from(src, tgt, count, size, 0)
    }
}

proof fn lemma_window_fits(i: nat, total: nat, count: nat, size: nat)
    requires
        count > 0,
        size <= total,
    ensures
        sample_offset(i, total, count, size) + size <= total,
{
}

proof fn lemma_identical_from(src: Seq<u8>, count: nat, size: nat, i: nat)
    requires
        count > 0,
        size <= src.len(),
    ensures
        compare_from(src, src, count, size, i) == Ok::<bool, ()>(true),
    decreases count - i,
{
    if i < count {
        lemma_window_fits(i, src.len(), count, size);
        lemma_identical_from(src, count, size, i + 1);
    }
}

/// A buffer compared with itself passes whenever one window fits in it.
pub proof fn lemma_identical_buffers_pass(src: Seq<u8>, count: nat, size: nat)
    requires
        size <= src.len(),
    ensures
        sampled_outcome(src, src, count, size) == Ok::<bool, ()>(true),
{
    if count > 0 && size > 0 {
        lemma_identical_from(src, count, size, 0);
    }
}

proof fn lemma_changed_from(src: Seq<u8>, tgt: Seq<u8>, count: nat, size: nat, j: nat, p: int, i: nat)
    requires
        count > 0,
        size <= src.len(),
        tgt.len() == src.len(),
        i <= j < count,
        sample_offset(j, src.len(), count, size) <= p < sample_offset(j, src.len(), count, size) + size,
        src[p] != tgt[p],
    ensures
        compare_from(src, tgt, count, size, i) == Ok::<bool, ()>(false),
    decreases j - i,
{
    lemma_window_fits(i, src.len(), count, size);
    if i == j {
        let off = sample_offset(j, src.len(), count, size);
        assert(src.subrange(off as int, (off + size) as int)[p - off] != tgt.subrange(
            off as int,
            (off + size) as int,
        )[p - off]);
    } else {
        lemma_changed_from(src, tgt, count, size, j, p, i + 1);
    }
}

/// Changing one byte inside any sampled window makes the comparison fail.
pub proof fn lemma_changed_window_fails(src: Seq<u8>, tgt: Seq<u8>, count: nat, size: nat, j: nat, p: int)
    requires
        size <= src.len(),
        tgt.len() == src.len(),
        j < count,
        sample_offset(j, src.len(), count, size) <= p < sample_offset(j, src.len(), count, size) + size,
        src[p] != tgt[p],
    ensures
        sampled_outcome(src, tgt, count, size) == Ok::<bool, ()>(false),
{
    lemma_changed_from(src, tgt, count, size, j, p, 0);
}

/// The start of window `i`.
pub fn offset_at(i: u64, total: u64, count: u64, size: u64) -> (r: u64)
    requires
        i < count,
    ensures
        r as nat == sample_offset(i as nat, total as nat, count as nat, size as nat),
        r as nat + size as nat <= total as nat || r == 0,
{
    let step = total / count;
    assert(i * step <= total) by (nonlinear_arith)
        requires
            i < count,
            step == total / count,
            count > 0,
    ;
    let last: u64 = if total >= size { total - size } else { 0 };
    let at = i * step;
    if at < last {
        at
    } else {
        last
    }
}

/// The starts of the `count` windows of `size` bytes in a source of `total`
/// bytes; none when `count` or `size` is 0.
pub fn sample_offsets(total: u64, count: u64, size: u64) -> (r: Vec<u64>)
    ensures
        count == 0 || size == 0 ==> r@.len() == 0,
        count > 0 && size > 0 ==> r@.len() == count,
        forall|i: int|
            0 <= i < r@.len() ==> #[trigger] r@[i] as nat == sample_offset(
                i as nat,
                total as nat,
                count as nat,
                size as nat,
            ),
{
    let mut r: Vec<u64> = Vec::new();
    if count == 0 || size == 0 {
        return r;
    }
    let mut i: u64 = 0;
    while i < count
        invariant
            i <= count,
            r@.len() == i,
            forall|j: int|
                0 <= j < i ==> #[trigger] r@[j] as nat == sample_offset(
                    j as nat,
                    total as nat,
                    count as nat,
                    size as nat,
                ),
        decreases count - i,
    {
        r.push(offset_at(i, total, count, size));
        i = i + 1;
    }
    r
}

/// Compares `count` equally spaced windows of `size` bytes of `source`
/// with the same windows of `target`. A window that runs past the end of
/// either buffer is a read failure.
pub fn sampled_compare(source: &[u8], target: &[u8], count: u64, size: u64) -> (r: Result<bool, OpError>)
    ensures
        count == 0 || size == 0 ==> r == Ok::<bool, OpError>(true),
        match sampled_outcome(source@, target@, count as nat, size as nat) {
            Ok(b) => r == Ok::<bool, OpError>(b),
            Err(_) => r matches Err(OpError::IoFailure),
        },
{
    if count == 0 || size == 0 {
        return Ok(true);
    }
    let total: u64 = source.len() as u64;
    let mut i: u64 = 0;
    while i < count
        invariant
            0 < count,
            0 < size,
            i <= count,
            total == source@.len(),
            compare_from(source@, target@, count as nat, size as nat, 0) == compare_from(
                source@,
                target@,
                count as nat,
                size as nat,
                i as nat,
            ),
        decreases count - i,
    {
        let off = offset_at(i, total, count, size);
        if size > total - off || size as u128 + off as u128 > target.len() as u128 {
            return Err(OpError::IoFailure);
        }
        let lo = off as usize;
        let hi = (off + size) as usize;
        if !crate::device::bytes_equal(&source[lo..hi], &target[lo..hi]) {
            return Ok(false);
        }
        i = i + 1;
    }
    Ok(true)
}

} // verus!
