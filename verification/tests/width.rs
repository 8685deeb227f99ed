use lastlayer::awig::{max_sel, round_width};

#[test]
fn round_width_examples() {
    assert_eq!(round_width(8), 32);
    assert_eq!(round_width(32), 32);
    assert_eq!(round_width(33), 64);
}

#[test]
fn round_width_is_aligned_cover() {
    for w in 1u32..200 {
        let r = round_width(w);
        assert_eq!(r % 32, 0);
        assert!(r >= w);
        assert!(r < w + 32);
    }
}

#[test]
fn extreme_widths() {
    assert_eq!(round_width(1), 32);
    assert_eq!(max_sel(1), 1);
    // The largest width the generator accepts: the topmost multiple of
    // 32 that a 32-bit buffer size can hold.
    let top = u32::MAX - 31;
    assert_eq!(round_width(top), top);
    assert_eq!(max_sel(top), top / 32);
}

#[test]
fn max_sel_examples() {
    assert_eq!(max_sel(8), 1);
    assert_eq!(max_sel(32), 1);
    assert_eq!(max_sel(33), 2);
}

#[test]
fn max_sel_is_ceiling_cover() {
    for w in 1u32..200 {
        assert_eq!(max_sel(w), (w + 31) / 32);
    }
}

#[test]
fn max_sel_counts_chunks_of_rounded_width() {
    for w in 1u32..200 {
        assert_eq!(max_sel(w) * 32, round_width(w));
    }
}
