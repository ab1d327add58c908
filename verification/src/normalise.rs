//! Bringing two pictures to one size.

use crate::dimension::area;
use crate::dimension::get_smallest_dimension;
use crate::dimension::smallest_dimension;
use crate::picture::dimensions_of;
use crate::picture::image_dimensions;
use crate::picture::image_has_float_samples;
use crate::picture::resizable;
use crate::picture::resize_exact_triangle;
use crate::picture::resized_image;
use crate::picture::MAX_SIDE;
use image::DynamicImage;
use vstd::prelude::*;

verus! {

/// The size that has to be resized when pictures of sizes `dim_1` and
/// `dim_2` are brought to one size: the first where the second already has
/// the common size, and the second otherwise.
pub open spec fn resized_from(dim_1: (u32, u32), dim_2: (u32, u32)) -> (u32, u32) {
    if dim_2 == smallest_dimension(dim_1, dim_2) {
        dim_1
    } else {
        dim_2
    }
}

/// Whether pictures of sizes `dim_1` and `dim_2` can be brought to one
/// size: the resize that this takes is one between resizable sizes.
pub open spec fn can_standardise(dim_1: (u32, u32), dim_2: (u32, u32)) -> bool {
    resizable(resized_from(dim_1, dim_2), smallest_dimension(dim_1, dim_2))
}

/// The pair that `standardise_size` makes of two pictures. Where the second
/// already has the common size the first is resized to it, also if it has
/// that size too; otherwise the second is resized. The other picture is
/// passed on as it is.
pub open spec fn standardised(image_1: DynamicImage, image_2: DynamicImage) -> (
    DynamicImage,
    DynamicImage,
) {
    let target = smallest_dimension(image_dimensions(image_1), image_dimensions(image_2));
    if image_dimensions(image_2) == target {
        (resized_image(image_1, target.0, target.1), image_2)
    } else {
        (image_1, resized_image(image_2, target.0, target.1))
    }
}

/// Decides whether a picture of size `from` can be resized to `to`.
pub fn is_resizable(from: (u32, u32), to: (u32, u32)) -> (ok: bool)
    ensures
        ok == resizable(from, to),
{
    if from.0 < 1 || from.0 > MAX_SIDE || from.1 < 1 || from.1 > MAX_SIDE {
        return false;
    }
    if to.0 < 1 || to.0 > MAX_SIDE || to.1 < 1 || to.1 > MAX_SIDE {
        return false;
    }
    assert(area((from.0, to.1)) <= 1_048_576 * 1_048_576) by (nonlinear_arith)
        requires
            area((from.0, to.1)) == (from.0 as nat) * (to.1 as nat),
            from.0 <= 1_048_576,
            to.1 <= 1_048_576,
    ;
    assert(area(to) <= 1_048_576 * 1_048_576) by (nonlinear_arith)
        requires
            area(to) == (to.0 as nat) * (to.1 as nat),
            to.0 <= 1_048_576,
            to.1 <= 1_048_576,
    ;
    let staged: u64 = 16 * ((from.0 as u64) * (to.1 as u64));
    let made: u64 = 16 * ((to.0 as u64) * (to.1 as u64));
    let limit: u64 = isize::MAX as u64;
    staged <= limit && made <= limit
}

/// Brings two pictures to their common size, the smaller of the two sizes.
/// Exactly one of them goes through the resampler; the other is returned
/// untouched.
pub fn standardise_size(image_1: DynamicImage, image_2: DynamicImage) -> (pair: (
    DynamicImage,
    DynamicImage,
))
    requires
        can_standardise(image_dimensions(image_1), image_dimensions(image_2)),
    ensures
        pair == standardised(image_1, image_2),
        image_dimensions(pair.0) == smallest_dimension(
            image_dimensions(image_1),
            image_dimensions(image_2),
        ),
        image_dimensions(pair.1) == image_dimensions(pair.0),
        image_has_float_samples(pair.0) == image_has_float_samples(image_1),
        image_has_float_samples(pair.1) == image_has_float_samples(image_2),
        ({
            let target = smallest_dimension(image_dimensions(image_1), image_dimensions(image_2));
            if image_dimensions(image_2) == target {
                pair.1 == image_2
            } else {
                pair.0 == image_1 && image_dimensions(image_1) == target
            }
        }),
{
    let dim_2 = dimensions_of(&image_2);
    let (width, height) = get_smallest_dimension(dimensions_of(&image_1), dim_2);
    if dim_2.0 == width && dim_2.1 == height {
        (resize_exact_triangle(&image_1, width, height), image_2)
    } else {
        (image_1, resize_exact_triangle(&image_2, width, height))
    }
}

} // verus!
