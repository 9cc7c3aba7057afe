use alloc_bench::generator::make_layouts;

#[test]
fn zero_sized_mode_yields_zero_sizes_and_small_alignments() {
    let layouts = make_layouts(200, true);
    assert_eq!(layouts.len(), 200);
    for l in &layouts {
        assert_eq!(l.size, 0);
        assert!(l.align == 1 || l.align == 2 || l.align == 4 || l.align == 8);
    }
}

#[test]
fn non_zero_mode_yields_bounded_sizes_and_small_alignments() {
    let layouts = make_layouts(200, false);
    assert_eq!(layouts.len(), 200);
    for l in &layouts {
        assert!(1 <= l.size && l.size <= 1024);
        assert!(l.align == 1 || l.align == 2 || l.align == 4 || l.align == 8);
    }
}

#[test]
fn zero_count_yields_empty_sequence() {
    assert!(make_layouts(0, true).is_empty());
    assert!(make_layouts(0, false).is_empty());
}
