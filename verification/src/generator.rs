use vstd::prelude::*;

use crate::layout::{is_power_of_two, Layout};

verus! {

/// Relies on `rand::random_range`: a value drawn uniformly from the given
/// inclusive range by the thread-local generator; it panics only when the
/// range is empty.
#[verifier::external_body]
fn random_in_range(lo: usize, hi: usize) -> (r: usize)
    requires
        lo <= hi,
    ensures
        lo <= r <= hi,
{
    rand::random_range(lo..=hi)
}

/// True of every layout the generator may hand out: a power-of-two alignment
/// drawn from {1, 2, 4, 8}, and a size that is zero in zero-sized mode and in
/// [1, 1024] otherwise.
pub open spec fn generated_layout(l: Layout, is_zero: bool) -> bool {
    &&& l.wf()
    &&& (l.align == 1 || l.align == 2 || l.align == 4 || l.align == 8)
    &&& (if is_zero {
        l.size == 0
    } else {
        1 <= l.size <= 1024
    })
}

/// Produces exactly `num` allocation requests. In zero-sized mode every
/// request has size zero; otherwise sizes lie in [1, 1024]. Alignments always
/// come from {1, 2, 4, 8}. Each layout is validated before it is returned;
/// the ranges above make rejection impossible, and that is proved rather than
/// checked at run time.
pub fn make_layouts(num: usize, is_zero: bool) -> (r: Vec<Layout>)
    ensures
        r@.len() == num,
        forall|i: int| 0 <= i < num ==> generated_layout(#[trigger] r@[i], is_zero),
{
    let mut out: Vec<Layout> = Vec::with_capacity(num);
    let mut i: usize = 0;
    while i < num
        invariant
            i <= num,
            out@.len() == i,
            forall|j: int| 0 <= j < i ==> generated_layout(#[trigger] out@[j], is_zero),
        decreases num - i,
    {
        let size: usize = if is_zero {
            0
        } else {
            random_in_range(1, 1024)
        };
        let k: usize = random_in_range(0, 3);
        let align: usize = if k == 0 {
            1
        } else if k == 1 {
            2
        } else if k == 2 {
            4
        } else {
            8
        };
        proof {
            assert(is_power_of_two(1));
            assert(is_power_of_two(2));
            assert(is_power_of_two(4));
            assert(is_power_of_two(8));
        }
        match Layout::from_size_align(size, align) {
            Ok(l) => out.push(l),
            Err(_) => {
                // the validated ranges above rule this branch out
                return vstd::pervasive::unreached();
            },
        }
        i = i + 1;
    }
    out
}

} // verus!
