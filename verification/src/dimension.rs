//! Choosing the common size of two images.

use vstd::prelude::*;

verus! {

/// The number of pixels in an image of the given width and height.
pub open spec fn area(dim: (u32, u32)) -> nat {
    (dim.0 as nat) * (dim.1 as nat)
}

/// The size both images are brought to: the one covering fewer pixels, and
/// the first where both cover equally many.
pub open spec fn smallest_dimension(dim_1: (u32, u32), dim_2: (u32, u32)) -> (u32, u32) {
    if area(dim_2) < area(dim_1) {
        dim_2
    } else {
        dim_1
    }
}

/// The common size is one of the two sizes and covers no more pixels than
/// either. It is the second only where the second covers strictly fewer
/// pixels than the first; on equal counts it is the first.
pub proof fn lemma_smallest_dimension(dim_1: (u32, u32), dim_2: (u32, u32))
    ensures
        ({
            let dim = smallest_dimension(dim_1, dim_2);
            &&& dim == dim_1 || dim == dim_2
            &&& area(dim) <= area(dim_1)
            &&& area(dim) <= area(dim_2)
            &&& area(dim_1) <= area(dim_2) ==> dim == dim_1
            &&& area(dim_2) < area(dim_1) ==> dim == dim_2
        }),
{
}

/// Picks the dimension pair with the smaller pixel count. On equal counts
/// the first pair wins. The products are taken in 64 bits, so no pair of
/// 32-bit sides can overflow them.
pub fn get_smallest_dimension(dim_1: (u32, u32), dim_2: (u32, u32)) -> (dim: (u32, u32))
    ensures
        dim == smallest_dimension(dim_1, dim_2),
{
    assert(area(dim_1) <= 0xFFFF_FFFF * 0xFFFF_FFFF) by (nonlinear_arith)
        requires
            area(dim_1) == (dim_1.0 as nat) * (dim_1.1 as nat),
            dim_1.0 <= 0xFFFF_FFFF,
            dim_1.1 <= 0xFFFF_FFFF,
    ;
    assert(area(dim_2) <= 0xFFFF_FFFF * 0xFFFF_FFFF) by (nonlinear_arith)
        requires
            area(dim_2) == (dim_2.0 as nat) * (dim_2.1 as nat),
            dim_2.0 <= 0xFFFF_FFFF,
            dim_2.1 <= 0xFFFF_FFFF,
    ;
    let pix_1: u64 = (dim_1.0 as u64) * (dim_1.1 as u64);
    let pix_2: u64 = (dim_2.0 as u64) * (dim_2.1 as u64);
    if pix_2 < pix_1 {
        dim_2
    } else {
        dim_1
    }
}

} // verus!
