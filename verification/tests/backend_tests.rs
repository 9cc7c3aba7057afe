use alloc_bench::arena::ArenaBackend;
use alloc_bench::backend::{AllocError, AllocRefV2};
use alloc_bench::global::GlobalBackend;
use alloc_bench::layout::Layout;

#[test]
fn zero_sized_allocation_is_the_alignment_sentinel() {
    let g = GlobalBackend;
    for align in [1usize, 2, 4, 8] {
        let l = Layout::from_size_align(0, align).unwrap();
        let r = g.allocate_zero_sized(l);
        assert_eq!(r, Ok(align));
    }
}

#[test]
fn branching_dispatch_matches_the_zero_sized_path() {
    let g = GlobalBackend;
    let arena = ArenaBackend::with_capacity(4096).unwrap();
    for align in [1usize, 2, 4, 8] {
        let l = Layout::from_size_align(0, align).unwrap();
        assert_eq!(g.allocate(l), g.allocate_zero_sized(l));
        assert_eq!(arena.allocate(l), arena.allocate_zero_sized(l));
        assert_eq!(g.allocate(l), Ok(align));
        assert_eq!(arena.allocate(l), Ok(align));
    }
}

#[test]
fn global_non_zero_allocations_are_aligned_and_non_null() {
    let g = GlobalBackend;
    for (size, align) in [(1usize, 1usize), (3, 2), (17, 4), (1024, 8)] {
        let l = Layout::from_size_align(size, align).unwrap();
        let addr = g.allocate_non_zero_sized(l).unwrap();
        assert!(addr != 0);
        assert_eq!(addr % align, 0);
    }
}

#[test]
fn arena_non_zero_allocations_are_aligned_and_non_null() {
    let arena = ArenaBackend::with_capacity(64 * 1024).unwrap();
    for (size, align) in [(1usize, 1usize), (3, 2), (17, 4), (1024, 8)] {
        let l = Layout::from_size_align(size, align).unwrap();
        let addr = arena.allocate_non_zero_sized(l).unwrap();
        assert!(addr != 0);
        assert_eq!(addr % align, 0);
    }
}

#[test]
fn impossible_requests_fail_with_an_allocation_error() {
    // far beyond what any machine can serve: both backends must report the
    // failure rather than abort
    let huge = Layout::from_size_align(isize::MAX as usize - 7, 8).unwrap();
    let g = GlobalBackend;
    assert_eq!(g.allocate_non_zero_sized(huge), Err(AllocError));
    assert_eq!(g.allocate(huge), Err(AllocError));
    let arena = ArenaBackend::with_capacity(1024).unwrap();
    assert_eq!(arena.allocate_non_zero_sized(huge), Err(AllocError));
}

#[test]
fn unified_entry_point_never_returns_an_unaligned_success() {
    let g = GlobalBackend;
    let arena = ArenaBackend::with_capacity(64 * 1024).unwrap();
    for (size, align) in [(0usize, 8usize), (5, 1), (64, 8), (1000, 4)] {
        let l = Layout::from_size_align(size, align).unwrap();
        for r in [g.allocate(l), arena.allocate(l)] {
            match r {
                Ok(addr) => {
                    assert!(addr != 0);
                    assert_eq!(addr % align, 0);
                }
                Err(_) => {}
            }
        }
    }
}
