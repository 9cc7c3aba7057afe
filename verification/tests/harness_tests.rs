use alloc_bench::arena::ArenaBackend;
use alloc_bench::global::GlobalBackend;
use alloc_bench::generator::make_layouts;
use alloc_bench::harness::{run_test, test_alloc, test_alloc_non_zst, test_alloc_zst};

#[test]
fn global_direct_non_zero_run_measures_all_requests() {
    let g = GlobalBackend;
    let (results, _micros) = run_test(&g, 1000, true, false);
    assert_eq!(results.len(), 1000);
    for r in &results {
        if let Ok(addr) = r {
            assert!(*addr != 0);
        }
    }
}

#[test]
fn arena_branching_zero_sized_run_succeeds_throughout() {
    let arena = ArenaBackend::with_capacity(1024 * 500).unwrap();
    let (results, _micros) = run_test(&arena, 500, false, true);
    assert_eq!(results.len(), 500);
    for r in &results {
        let addr = r.unwrap();
        assert!(addr == 1 || addr == 2 || addr == 4 || addr == 8);
    }
}

#[test]
fn zero_iterations_still_measure_validly() {
    let g = GlobalBackend;
    let (results, micros) = run_test(&g, 0, false, false);
    assert!(results.is_empty());
    // u128 microseconds are a valid non-negative reading even for an empty run
    assert!(micros <= u128::MAX);
}

#[test]
fn repeated_runs_always_yield_valid_measurements() {
    let g = GlobalBackend;
    let (r1, m1) = run_test(&g, 100, true, true);
    let (r2, m2) = run_test(&g, 100, true, true);
    assert_eq!(r1.len(), 100);
    assert_eq!(r2.len(), 100);
    assert!(m1 <= u128::MAX && m2 <= u128::MAX);
}

#[test]
fn dispatch_style_does_not_change_zero_sized_outcomes() {
    let g = GlobalBackend;
    let layouts = make_layouts(50, true);
    let (direct, _) = test_alloc_zst(&g, &layouts);
    let (branching, _) = test_alloc(&g, &layouts);
    assert_eq!(direct, branching);
    for (r, l) in direct.iter().zip(layouts.iter()) {
        assert_eq!(*r, Ok(l.align));
    }
}

#[test]
fn direct_non_zero_path_records_every_result() {
    let arena = ArenaBackend::with_capacity(64 * 1024).unwrap();
    let layouts = make_layouts(40, false);
    let (results, _) = test_alloc_non_zst(&arena, &layouts);
    assert_eq!(results.len(), 40);
    for (r, l) in results.iter().zip(layouts.iter()) {
        if let Ok(addr) = r {
            assert!(*addr != 0);
            assert_eq!(*addr % l.align, 0);
        }
    }
}
