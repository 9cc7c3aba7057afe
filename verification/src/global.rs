use vstd::prelude::*;

use crate::backend::{AllocError, AllocRefV2, AllocResult};
use crate::layout::Layout;

verus! {

/// The general-purpose heap backend: every request is served by a fresh
/// reservation from the process's global allocator.
#[derive(Clone, Copy)]
pub struct GlobalBackend;

/// Relies on `Vec::try_reserve_exact`: on success the vector owns a live
/// heap reservation of `n` bytes, whose address — taken through
/// `core::ptr::NonNull::addr`, hence non-null — is read off the spare
/// capacity and leaked; when the global allocator cannot serve the request it
/// reports an error instead of aborting.
#[verifier::external_body]
fn heap_alloc_bytes(n: usize) -> (r: Result<usize, AllocError>)
    requires
        1 <= n,
    ensures
        r matches Ok(addr) ==> addr != 0,
{
    let mut v: Vec<u8> = Vec::new();
    if v.try_reserve_exact(n).is_err() {
        return Err(AllocError);
    }
    let addr = core::ptr::NonNull::from(v.spare_capacity_mut()).addr().get();
    std::mem::forget(v);
    Ok(addr)
}

impl AllocRefV2 for GlobalBackend {
    fn allocate_non_zero_sized(&self, layout: Layout) -> (r: AllocResult) {
        proof {
            crate::backend::lemma_power_of_two_positive(layout.align);
        }
        let n: usize = layout.size + (layout.align - 1);
        let base: usize = match heap_alloc_bytes(n) {
            Ok(b) => b,
            Err(e) => {
                return Err(e);
            },
        };
        let rem: usize = base % layout.align;
        if rem == 0 {
            Ok(base)
        } else {
            match base.checked_add(layout.align - rem) {
                Some(addr) => {
                    proof {
                        lemma_round_up_aligned(base as int, layout.align as int);
                    }
                    Ok(addr)
                },
                None => Err(AllocError),
            }
        }
    }
}

/// Rounding an address up to the next multiple of a positive divisor lands on
/// a multiple of it.
proof fn lemma_round_up_aligned(base: int, align: int)
    requires
        align > 0,
        base % align != 0,
    ensures
        (base + (align - base % align)) % align == 0,
{
    vstd::arithmetic::div_mod::lemma_fundamental_div_mod(base, align);
    assert(base + (align - base % align) == align * (base / align + 1)) by {
        assert(align * (base / align + 1) == align * (base / align) + align) by (nonlinear_arith);
    }
    vstd::arithmetic::div_mod::lemma_mod_multiples_basic(base / align + 1, align);
}

} // verus!
