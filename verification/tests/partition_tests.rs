use powmine::partition::chunk_bounds;

#[test]
fn test_chunks_tile_the_range() {
    // 101 values over 7 chunks: 7 chunks of 14, the last absorbing the
    // remainder of 3.
    let (start, end, chunks) = (0u64, 100u64, 7u64);
    let mut next_expected = start;
    for i in 0..chunks {
        let (lo, hi) = chunk_bounds(start, end, chunks, i);
        assert_eq!(next_expected, lo);
        assert!(lo <= hi);
        next_expected = hi + 1;
    }
    assert_eq!(end + 1, next_expected);
}

#[test]
fn test_chunks_tile_an_offset_range() {
    let (start, end, chunks) = (1000u64, 1016u64, 5u64);
    let mut next_expected = start;
    for i in 0..chunks {
        let (lo, hi) = chunk_bounds(start, end, chunks, i);
        assert_eq!(next_expected, lo);
        assert!(lo <= hi);
        next_expected = hi + 1;
    }
    assert_eq!(end + 1, next_expected);
}

#[test]
fn test_exact_division_leaves_no_remainder() {
    let (start, end, chunks) = (0u64, 99u64, 10u64);
    for i in 0..chunks {
        let (lo, hi) = chunk_bounds(start, end, chunks, i);
        assert_eq!(10 * i, lo);
        assert_eq!(10 * i + 9, hi);
    }
}

#[test]
fn test_degenerate_range_smaller_than_chunk_count() {
    // 3 values over 5 chunks: the fallback widens the chunk size to the
    // chunk count, so the first chunk already covers the whole range.
    let (start, end, chunks) = (10u64, 12u64, 5u64);
    let (lo, hi) = chunk_bounds(start, end, chunks, 0);
    assert_eq!(10, lo);
    assert_eq!(14, hi);
    let (lo1, _) = chunk_bounds(start, end, chunks, 1);
    assert_eq!(15, lo1);
}

#[test]
fn test_single_chunk_is_the_whole_range() {
    let (lo, hi) = chunk_bounds(5, 500, 1, 0);
    assert_eq!(5, lo);
    assert_eq!(500, hi);
}
