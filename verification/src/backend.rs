use vstd::prelude::*;

use crate::layout::{is_power_of_two, Layout};

verus! {

/// Returned when a backend cannot satisfy an allocation request.
#[derive(Clone, Copy, Debug, PartialEq, Eq, Structural)]
pub struct AllocError;

/// The outcome of one allocation request: the address of the allocation on
/// success, or an allocation error. Addresses are opaque handles; nothing is
/// freed and no ownership is tracked.
pub type AllocResult = Result<usize, AllocError>;

/// The result that the zero-sized path owes for `layout`: a sentinel address
/// equal to the layout's alignment, which is non-null and aligned by
/// construction.
pub open spec fn zst_result(layout: Layout) -> AllocResult {
    Ok(layout.align)
}

/// The capability that both backends provide: real allocation for strictly
/// positive sizes, a sentinel for zero sizes, and a unified entry point that
/// branches between the two. The two provided methods behave identically over
/// every backend; only the cost of `allocate_non_zero_sized` differs.
pub trait AllocRefV2: Sized {
    /// Asks the backend for real memory. On success the address is non-null
    /// and satisfies the requested alignment; on exhaustion it reports an
    /// allocation error.
    fn allocate_non_zero_sized(&self, layout: Layout) -> (r: AllocResult)
        requires
            layout.wf(),
            layout.size > 0,
        ensures
            r matches Ok(addr) ==> addr != 0 && addr % layout.align == 0,
    ;

    /// The specialized zero-sized path: no memory is reserved, the request
    /// never fails, and the returned sentinel equals the layout's alignment,
    /// so it is non-null and alignment-satisfying.
    fn allocate_zero_sized(&self, layout: Layout) -> (r: AllocResult)
        requires
            layout.wf(),
            layout.size == 0,
        ensures
            r == zst_result(layout),
            r matches Ok(addr) && addr == layout.align && addr != 0 && addr % layout.align == 0,
    {
        proof {
            lemma_power_of_two_positive(layout.align);
        }
        Ok(layout.align)
    }

    /// The unified entry point: branches on the layout's size and dispatches
    /// to the matching specialized path, so a zero-sized request yields
    /// exactly the sentinel that `allocate_zero_sized` yields.
    fn allocate(&self, layout: Layout) -> (r: AllocResult)
        requires
            layout.wf(),
        ensures
            layout.size == 0 ==> r == zst_result(layout),
            r matches Ok(addr) ==> addr != 0 && addr % layout.align == 0,
    {
        if layout.size == 0 {
            self.allocate_zero_sized(layout)
        } else {
            self.allocate_non_zero_sized(layout)
        }
    }
}

/// A power of two is at least one.
pub proof fn lemma_power_of_two_positive(a: usize)
    requires
        is_power_of_two(a),
    ensures
        a >= 1,
{
}

} // verus!
