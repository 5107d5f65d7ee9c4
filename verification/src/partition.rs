//! Division of a closed candidate range `[start, end]` into a requested
//! number of contiguous, near-equal chunks. The final chunk absorbs the
//! remainder, so that for `range_size >= chunks` the chunks tile the range
//! exactly. When the range holds fewer values than the requested chunk
//! count, the chunk size degrades to the chunk count itself with no
//! remainder, so that the size computation cannot underflow; callers should
//! avoid relying on that edge case for exactness.

use vstd::arithmetic::div_mod::{
    lemma_div_non_zero, lemma_div_pos_is_pos, lemma_fundamental_div_mod,
};
use vstd::arithmetic::mul::{lemma_mul_inequality, lemma_mul_is_distributive_sub_other_way};
use vstd::prelude::*;

verus! {

/// How many values the closed range `[start, end]` holds.
pub open spec fn spec_range_size(start: u64, end: u64) -> int
    recommends
        start <= end,
{
    end - start + 1
}

/// The size of every chunk but the last, which additionally absorbs the
/// remainder.
pub open spec fn spec_chunk_size(start: u64, end: u64, chunks: u64) -> int
    recommends
        start <= end,
        1 <= chunks,
{
    if spec_range_size(start, end) < chunks {
        chunks as int
    } else {
        spec_range_size(start, end) / chunks as int
    }
}

/// How many values are left over after every chunk takes
/// `spec_chunk_size(..)` of them.
pub open spec fn spec_chunk_remain(start: u64, end: u64, chunks: u64) -> int
    recommends
        start <= end,
        1 <= chunks,
{
    if spec_range_size(start, end) < chunks {
        0
    } else {
        spec_range_size(start, end) % chunks as int
    }
}

/// The first value of chunk `i`.
pub open spec fn spec_chunk_lo(start: u64, end: u64, chunks: u64, i: int) -> int
    recommends
        start <= end,
        1 <= chunks,
        0 <= i < chunks,
{
    start + i * spec_chunk_size(start, end, chunks)
}

/// The last value of chunk `i`; the final chunk also takes the remainder.
pub open spec fn spec_chunk_hi(start: u64, end: u64, chunks: u64, i: int) -> int
    recommends
        start <= end,
        1 <= chunks,
        0 <= i < chunks,
{
    if i == chunks - 1 {
        spec_chunk_lo(start, end, chunks, i) + spec_chunk_size(start, end, chunks) - 1
            + spec_chunk_remain(start, end, chunks)
    } else {
        spec_chunk_lo(start, end, chunks, i) + spec_chunk_size(start, end, chunks) - 1
    }
}

/// The bounds under which every chunk bound fits in a `u64`: either the range
/// holds at least `chunks` values, or the degenerate fallback's largest bound
/// `start + chunks * chunks - 1` still fits.
pub open spec fn chunk_bounds_fit(start: u64, end: u64, chunks: u64) -> bool {
    &&& start <= end
    &&& 1 <= chunks
    &&& end - start < u64::MAX
    &&& (spec_range_size(start, end) < chunks ==> start + chunks * chunks - 1 <= u64::MAX)
}

/// In the non-degenerate case, `chunks * chunk_size + remainder` is exactly
/// the range size, and the chunk size is at least one.
proof fn lemma_chunk_size_remain(start: u64, end: u64, chunks: u64)
    requires
        start <= end,
        1 <= chunks,
        end - start < u64::MAX,
        spec_range_size(start, end) >= chunks,
    ensures
        1 <= spec_chunk_size(start, end, chunks),
        chunks * spec_chunk_size(start, end, chunks) + spec_chunk_remain(start, end, chunks)
            == spec_range_size(start, end),
        0 <= spec_chunk_remain(start, end, chunks) < chunks,
{
    let rs = spec_range_size(start, end);
    let c = chunks as int;
    lemma_fundamental_div_mod(rs, c);
    lemma_div_non_zero(rs, c);
}

/// Every chunk bound fits in a `u64`.
pub proof fn lemma_chunk_bounds_fit(start: u64, end: u64, chunks: u64, i: int)
    requires
        chunk_bounds_fit(start, end, chunks),
        0 <= i < chunks,
    ensures
        1 <= spec_chunk_size(start, end, chunks),
        0 <= spec_chunk_remain(start, end, chunks),
        start <= spec_chunk_lo(start, end, chunks, i),
        spec_chunk_lo(start, end, chunks, i) <= spec_chunk_hi(start, end, chunks, i),
        spec_chunk_hi(start, end, chunks, i) <= u64::MAX,
{
    let rs = spec_range_size(start, end);
    let c = chunks as int;
    let cs = spec_chunk_size(start, end, chunks);
    if rs < c {
        assert(i * cs <= (c - 1) * cs) by {
            lemma_mul_inequality(i, c - 1, cs);
        }
        assert((c - 1) * cs == c * cs - cs) by {
            lemma_mul_is_distributive_sub_other_way(cs, c, 1);
        }
    } else {
        lemma_chunk_size_remain(start, end, chunks);
        assert(i * cs <= (c - 1) * cs) by {
            lemma_mul_inequality(i, c - 1, cs);
        }
        assert((c - 1) * cs == c * cs - cs) by {
            lemma_mul_is_distributive_sub_other_way(cs, c, 1);
        }
        assert(spec_chunk_hi(start, end, chunks, i) <= end);
    }
}

/// The chunks tile `[start, end]`: the first chunk begins at `start`, the
/// last ends at `end`, every chunk is non-empty, consecutive chunks are
/// contiguous and in order, and distinct chunks never overlap.
pub proof fn lemma_partition(start: u64, end: u64, chunks: u64)
    requires
        start <= end,
        1 <= chunks,
        end - start < u64::MAX,
        spec_range_size(start, end) >= chunks,
    ensures
        spec_chunk_lo(start, end, chunks, 0) == start,
        spec_chunk_hi(start, end, chunks, chunks - 1) == end,
        forall|i: int|
            0 <= i < chunks ==> spec_chunk_lo(start, end, chunks, i) <= #[trigger] spec_chunk_hi(
                start,
                end,
                chunks,
                i,
            ),
        forall|i: int|
            0 <= i < chunks - 1 ==> #[trigger] spec_chunk_hi(start, end, chunks, i) + 1
                == spec_chunk_lo(start, end, chunks, i + 1),
        forall|i: int, j: int|
            0 <= i < j < chunks ==> #[trigger] spec_chunk_hi(start, end, chunks, i)
                < #[trigger] spec_chunk_lo(start, end, chunks, j),
{
    let c = chunks as int;
    let cs = spec_chunk_size(start, end, chunks);
    lemma_chunk_size_remain(start, end, chunks);
    assert forall|i: int| 0 <= i < c - 1 implies #[trigger] spec_chunk_hi(start, end, chunks, i)
        + 1 == spec_chunk_lo(start, end, chunks, i + 1) by {
        assert((i + 1) * cs == i * cs + cs) by {
            lemma_mul_is_distributive_sub_other_way(cs, i + 1, 1);
        }
    }
    assert(spec_chunk_hi(start, end, chunks, c - 1) == end) by {
        lemma_mul_is_distributive_sub_other_way(cs, c, 1);
    }
    assert forall|i: int, j: int| 0 <= i < j < c implies #[trigger] spec_chunk_hi(
        start,
        end,
        chunks,
        i,
    ) < #[trigger] spec_chunk_lo(start, end, chunks, j) by {
        assert((i + 1) * cs <= j * cs) by {
            lemma_mul_inequality(i + 1, j, cs);
        }
        assert((i + 1) * cs == i * cs + cs) by {
            lemma_mul_is_distributive_sub_other_way(cs, i + 1, 1);
        }
    }
}

/// Every value of `[start, end]` lies in some chunk.
pub proof fn lemma_partition_covers(start: u64, end: u64, chunks: u64, x: u64)
    requires
        start <= end,
        1 <= chunks,
        end - start < u64::MAX,
        spec_range_size(start, end) >= chunks,
        start <= x <= end,
    ensures
        exists|i: int|
            0 <= i < chunks && spec_chunk_lo(start, end, chunks, i) <= x
                && x <= #[trigger] spec_chunk_hi(start, end, chunks, i),
{
    let c = chunks as int;
    let cs = spec_chunk_size(start, end, chunks);
    lemma_chunk_size_remain(start, end, chunks);
    let d = (x - start) / cs;
    lemma_fundamental_div_mod(x - start, cs);
    lemma_div_pos_is_pos(x - start, cs);
    if d < c - 1 {
        assert(spec_chunk_lo(start, end, chunks, d) <= x);
        assert(x <= spec_chunk_hi(start, end, chunks, d));
    } else {
        assert((c - 1) * cs <= d * cs) by {
            lemma_mul_inequality(c - 1, d, cs);
        }
        assert(spec_chunk_lo(start, end, chunks, c - 1) <= x);
        assert(spec_chunk_hi(start, end, chunks, c - 1) == end) by {
            lemma_mul_is_distributive_sub_other_way(cs, c, 1);
        }
    }
}

/// The bounds of chunk `i`, as `mine_range` assigns them to one task.
pub fn chunk_bounds(start: u64, end: u64, chunks: u64, i: u64) -> (r: (u64, u64))
    requires
        chunk_bounds_fit(start, end, chunks),
        i < chunks,
    ensures
        r.0 == spec_chunk_lo(start, end, chunks, i as int),
        r.1 == spec_chunk_hi(start, end, chunks, i as int),
{
    proof {
        lemma_chunk_bounds_fit(start, end, chunks, i as int);
    }
    let range_size = end - start + 1;
    let chunk_size: u64;
    let chunk_remain: u64;
    if range_size < chunks {
        chunk_size = chunks;
        chunk_remain = 0;
    } else {
        chunk_size = range_size / chunks;
        chunk_remain = range_size % chunks;
    }
    let start_proof = start + i * chunk_size;
    let chunk_end = start_proof + (chunk_size - 1);
    if i == chunks - 1 {
        (start_proof, chunk_end + chunk_remain)
    } else {
        (start_proof, chunk_end)
    }
}

} // verus!
