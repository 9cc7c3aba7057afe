use vstd::prelude::*;

verus! {

/// True when `a` is a power of two: 1, 2, 4, 8, and so on.
pub open spec fn is_power_of_two(a: usize) -> bool
    decreases a,
{
    if a == 0 {
        false
    } else if a == 1 {
        true
    } else {
        a % 2 == 0 && is_power_of_two((a / 2) as usize)
    }
}

/// Returned when a size/alignment pair does not describe a valid layout.
#[derive(Clone, Copy, Debug, PartialEq, Eq, Structural)]
pub struct LayoutError;

/// One allocation request: a size in bytes and a power-of-two alignment.
#[derive(Clone, Copy, Debug, PartialEq, Eq, Structural)]
pub struct Layout {
    pub size: usize,
    pub align: usize,
}

impl Layout {
    /// A layout is well formed when its alignment is a power of two and the
    /// size, rounded up to the next multiple of the alignment, still fits in
    /// the signed address range.
    pub open spec fn wf(&self) -> bool {
        is_power_of_two(self.align) && self.size as int + self.align as int - 1 <= isize::MAX as int
    }

    /// Builds a layout after validating the pair, and reports exactly which
    /// pairs are rejected.
    pub fn from_size_align(size: usize, align: usize) -> (r: Result<Layout, LayoutError>)
        ensures
            r is Ok <==> (is_power_of_two(align) && size as int + align as int - 1
                <= isize::MAX as int),
            r matches Ok(l) ==> l == (Layout { size, align }) && l.wf(),
    {
        let imax: usize = isize::MAX as usize;
        if check_power_of_two(align) && align - 1 <= imax && size <= imax - (align - 1) {
            Ok(Layout { size, align })
        } else {
            Err(LayoutError)
        }
    }
}

/// Decides `is_power_of_two` by repeated halving.
pub fn check_power_of_two(a: usize) -> (r: bool)
    ensures
        r == is_power_of_two(a),
{
    if a == 0 {
        return false;
    }
    let mut x: usize = a;
    while x > 1
        invariant
            1 <= x,
            is_power_of_two(a) == is_power_of_two(x),
        decreases x,
    {
        if x % 2 == 1 {
            return false;
        }
        x = x / 2;
    }
    true
}

} // verus!
