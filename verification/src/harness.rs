use vstd::prelude::*;

use crate::backend::{AllocRefV2, AllocResult, zst_result};
use crate::generator::{generated_layout, make_layouts};
use crate::layout::Layout;

verus! {

#[verifier::external_type_specification]
#[verifier::external_body]
pub struct ExInstant(std::time::Instant);

/// Relies on `std::time::Instant::now`: a timestamp for the current moment.
#[verifier::external_body]
fn instant_now() -> std::time::Instant {
    std::time::Instant::now()
}

/// Relies on `std::time::Instant::elapsed`: the wall-clock time that has
/// passed since `start`.
#[verifier::external_body]
fn instant_elapsed(start: &std::time::Instant) -> std::time::Duration {
    start.elapsed()
}

/// Relies on `std::time::Duration::as_micros`: the whole number of
/// microseconds the duration holds.
#[verifier::external_body]
fn duration_as_micros(d: &std::time::Duration) -> u128 {
    d.as_micros()
}

/// True of each recorded result: a success carries a non-null address that
/// satisfies its layout's alignment.
pub open spec fn recorded_result(res: AllocResult, l: Layout) -> bool {
    res matches Ok(addr) ==> addr != 0 && addr % l.align == 0
}

/// Times one batch through the unified, internally branching entry point.
/// Every result is recorded, success or failure; a zero-sized request yields
/// exactly the zero-size sentinel.
pub fn test_alloc<A: AllocRefV2>(a: &A, layouts: &Vec<Layout>) -> (r: (Vec<AllocResult>, u128))
    requires
        forall|i: int| 0 <= i < layouts@.len() ==> (#[trigger] layouts@[i]).wf(),
    ensures
        r.0@.len() == layouts@.len(),
        forall|i: int|
            0 <= i < layouts@.len() ==> recorded_result(#[trigger] r.0@[i], layouts@[i]),
        forall|i: int|
            0 <= i < layouts@.len() && layouts@[i].size == 0 ==> #[trigger] r.0@[i] == zst_result(
                layouts@[i],
            ),
{
    let mut results: Vec<AllocResult> = Vec::with_capacity(layouts.len());
    let before = instant_now();
    let mut idx: usize = 0;
    while idx < layouts.len()
        invariant
            idx <= layouts@.len(),
            results@.len() == idx,
            forall|i: int| 0 <= i < layouts@.len() ==> (#[trigger] layouts@[i]).wf(),
            forall|i: int| 0 <= i < idx ==> recorded_result(#[trigger] results@[i], layouts@[i]),
            forall|i: int|
                0 <= i < idx && layouts@[i].size == 0 ==> #[trigger] results@[i] == zst_result(
                    layouts@[i],
                ),
        decreases layouts@.len() - idx,
    {
        let l = layouts[idx];
        results.push(a.allocate(l));
        idx = idx + 1;
    }
    let after = instant_elapsed(&before);
    let micros = duration_as_micros(&after);
    (results, micros)
}

/// Times one batch through the specialized zero-sized entry point, selected
/// once for the whole batch. Every request succeeds with the sentinel.
pub fn test_alloc_zst<A: AllocRefV2>(a: &A, layouts: &Vec<Layout>) -> (r: (
    Vec<AllocResult>,
    u128,
))
    requires
        forall|i: int| 0 <= i < layouts@.len() ==> (#[trigger] layouts@[i]).wf(),
        forall|i: int| 0 <= i < layouts@.len() ==> (#[trigger] layouts@[i]).size == 0,
    ensures
        r.0@.len() == layouts@.len(),
        forall|i: int| 0 <= i < layouts@.len() ==> #[trigger] r.0@[i] == zst_result(layouts@[i]),
{
    let mut results: Vec<AllocResult> = Vec::with_capacity(layouts.len());
    let before = instant_now();
    let mut idx: usize = 0;
    while idx < layouts.len()
        invariant
            idx <= layouts@.len(),
            results@.len() == idx,
            forall|i: int| 0 <= i < layouts@.len() ==> (#[trigger] layouts@[i]).wf(),
            forall|i: int| 0 <= i < layouts@.len() ==> (#[trigger] layouts@[i]).size == 0,
            forall|i: int| 0 <= i < idx ==> #[trigger] results@[i] == zst_result(layouts@[i]),
        decreases layouts@.len() - idx,
    {
        let l = layouts[idx];
        results.push(a.allocate_zero_sized(l));
        idx = idx + 1;
    }
    let after = instant_elapsed(&before);
    let micros = duration_as_micros(&after);
    (results, micros)
}

/// Times one batch through the specialized non-zero-sized entry point,
/// selected once for the whole batch. Every result is recorded, success or
/// failure.
pub fn test_alloc_non_zst<A: AllocRefV2>(a: &A, layouts: &Vec<Layout>) -> (r: (
    Vec<AllocResult>,
    u128,
))
    requires
        forall|i: int| 0 <= i < layouts@.len() ==> (#[trigger] layouts@[i]).wf(),
        forall|i: int| 0 <= i < layouts@.len() ==> (#[trigger] layouts@[i]).size > 0,
    ensures
        r.0@.len() == layouts@.len(),
        forall|i: int|
            0 <= i < layouts@.len() ==> recorded_result(#[trigger] r.0@[i], layouts@[i]),
{
    let mut results: Vec<AllocResult> = Vec::with_capacity(layouts.len());
    let before = instant_now();
    let mut idx: usize = 0;
    while idx < layouts.len()
        invariant
            idx <= layouts@.len(),
            results@.len() == idx,
            forall|i: int| 0 <= i < layouts@.len() ==> (#[trigger] layouts@[i]).wf(),
            forall|i: int| 0 <= i < layouts@.len() ==> (#[trigger] layouts@[i]).size > 0,
            forall|i: int| 0 <= i < idx ==> recorded_result(#[trigger] results@[i], layouts@[i]),
        decreases layouts@.len() - idx,
    {
        let l = layouts[idx];
        results.push(a.allocate_non_zero_sized(l));
        idx = idx + 1;
    }
    let after = instant_elapsed(&before);
    let micros = duration_as_micros(&after);
    (results, micros)
}

/// One full measured run: generates `iters` layouts in the chosen size mode,
/// then drives them through the chosen dispatch style against `a`. Exactly
/// one result is recorded per request; every success carries a non-null
/// address; in zero-sized mode every request succeeds with a sentinel drawn
/// from {1, 2, 4, 8}. The elapsed time is reported in microseconds.
pub fn run_test<A: AllocRefV2>(a: &A, iters: usize, is_direct: bool, is_zero: bool) -> (r: (
    Vec<AllocResult>,
    u128,
))
    ensures
        r.0@.len() == iters,
        forall|i: int|
            0 <= i < iters ==> ((#[trigger] r.0@[i]) matches Ok(addr) ==> addr != 0),
        is_zero ==> forall|i: int|
            0 <= i < iters ==> ((#[trigger] r.0@[i]) matches Ok(addr) && (addr == 1 || addr == 2
                || addr == 4 || addr == 8)),
{
    let layouts = make_layouts(iters, is_zero);
    if is_direct {
        if is_zero {
            test_alloc_zst(a, &layouts)
        } else {
            test_alloc_non_zst(a, &layouts)
        }
    } else {
        test_alloc(a, &layouts)
    }
}

} // verus!
