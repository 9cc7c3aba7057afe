use vstd::prelude::*;

use crate::backend::{AllocError, AllocRefV2, AllocResult};
use crate::layout::{is_power_of_two, Layout};

verus! {

#[verifier::external_type_specification]
#[verifier::external_body]
pub struct ExBump<const MIN_ALIGN: usize>(bumpalo::Bump<MIN_ALIGN>);

/// The bump-pointer arena backend: a region reserved up front and served by
/// advancing a cursor; a request that the arena cannot reserve space for is
/// an ordinary allocation error, not a fault.
pub struct ArenaBackend {
    bump: bumpalo::Bump<1>,
}

/// Relies on `bumpalo::Bump::try_with_capacity`: a new arena with the given
/// number of bytes reserved up front, or an error when the reservation fails.
#[verifier::external_body]
fn bump_with_capacity(capacity: usize) -> (r: Result<bumpalo::Bump<1>, AllocError>) {
    bumpalo::Bump::try_with_capacity(capacity).map_err(|_| AllocError)
}

/// Relies on `bumpalo::Bump::try_alloc_layout`: on success the returned
/// pointer is non-null (`core::ptr::NonNull`) and aligned to the layout's
/// alignment; when the arena cannot reserve matching space it errors.
#[verifier::external_body]
fn bump_alloc(bump: &bumpalo::Bump<1>, size: usize, align: usize) -> (r: AllocResult)
    requires
        is_power_of_two(align),
        size as int + align as int - 1 <= isize::MAX as int,
    ensures
        r matches Ok(addr) ==> addr != 0 && addr % align == 0,
{
    match std::alloc::Layout::from_size_align(size, align) {
        Ok(l) => match bump.try_alloc_layout(l) {
            Ok(p) => Ok(p.addr().get()),
            Err(_) => Err(AllocError),
        },
        Err(_) => Err(AllocError),
    }
}

impl ArenaBackend {
    /// Creates an arena backend with `capacity` bytes reserved up front, or
    /// reports an allocation error when the region cannot be reserved.
    pub fn with_capacity(capacity: usize) -> (r: Result<ArenaBackend, AllocError>) {
        match bump_with_capacity(capacity) {
            Ok(b) => Ok(ArenaBackend { bump: b }),
            Err(e) => Err(e),
        }
    }
}

impl AllocRefV2 for ArenaBackend {
    fn allocate_non_zero_sized(&self, layout: Layout) -> (r: AllocResult) {
        bump_alloc(&self.bump, layout.size, layout.align)
    }
}

} // verus!
