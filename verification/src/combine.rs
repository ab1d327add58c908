//! From two decoded pictures to the output image.

use crate::dimension::area;
use crate::dimension::get_smallest_dimension;
use crate::dimension::smallest_dimension;
use crate::interleave::alternate_pixels;
use crate::interleave::interleaved;
use crate::interleave::second_needed;
use crate::normalise::can_standardise;
use crate::normalise::is_resizable;
use crate::normalise::standardise_size;
use crate::normalise::standardised;
use crate::output::FloatingImage;
use crate::output::FloatingImageView;
use crate::output::ImageDataErrors;
use crate::picture::dimensions_of;
use crate::picture::formats_equal;
use crate::picture::has_float_samples;
use crate::picture::image_dimensions;
use crate::picture::image_has_float_samples;
use crate::picture::image_rgb_bytes;
use crate::picture::rgb_bytes_of;
use image::DynamicImage;
use image::ImageFormat;
use vstd::prelude::*;

verus! {

/// Accepts two sources that were decoded from one container format, and
/// refuses two of different formats. Only pictures that pass belong
/// together in `compose`, which does not look at formats itself.
pub fn check_same_format(format_1: ImageFormat, format_2: ImageFormat) -> (result: Result<
    (),
    ImageDataErrors,
>)
    ensures
        format_1 == format_2 ==> result == Ok::<(), ImageDataErrors>(()),
        format_1 != format_2 ==> result == Err::<(), ImageDataErrors>(
            ImageDataErrors::DifferentImageFormats,
        ),
{
    if formats_equal(format_1, format_2) {
        Ok(())
    } else {
        Err(ImageDataErrors::DifferentImageFormats)
    }
}

/// Whether the RGB buffer of a picture can be taken: its samples are
/// integers, and three bytes per pixel can be allocated.
pub open spec fn has_rgb_bytes(image: DynamicImage) -> bool {
    &&& !image_has_float_samples(image)
    &&& 3 * area(image_dimensions(image)) <= isize::MAX
}

/// Interleaves the RGB buffers of two pictures. Pictures of one size, as
/// `standardise_size` returns them, have buffers of one length; all that is
/// asked here is that the second buffer covers the windows read from it.
pub fn combine_images(image_1: DynamicImage, image_2: DynamicImage) -> (combined: Vec<u8>)
    requires
        has_rgb_bytes(image_1),
        has_rgb_bytes(image_2),
        3 * area(image_dimensions(image_2)) >= second_needed(
            3 * area(image_dimensions(image_1)),
        ),
    ensures
        combined@ == interleaved(image_rgb_bytes(image_1), image_rgb_bytes(image_2)),
        combined@.len() == 3 * area(image_dimensions(image_1)),
{
    let vec_1 = rgb_bytes_of(&image_1);
    let vec_2 = rgb_bytes_of(&image_2);
    alternate_pixels(vec_1, vec_2)
}

/// Whether two pictures can be combined: they can be brought to one size,
/// and neither holds float samples.
pub open spec fn composable(image_1: DynamicImage, image_2: DynamicImage) -> bool {
    &&& can_standardise(image_dimensions(image_1), image_dimensions(image_2))
    &&& !image_has_float_samples(image_1)
    &&& !image_has_float_samples(image_2)
}

/// The output image that `compose` makes of two pictures: it has their
/// common size and the given name, and its buffer is the interleaved RGB
/// buffers of the standardised pair.
pub open spec fn composed(
    image_1: DynamicImage,
    image_2: DynamicImage,
    name: Seq<char>,
) -> FloatingImageView {
    let target = smallest_dimension(image_dimensions(image_1), image_dimensions(image_2));
    let pair = standardised(image_1, image_2);
    FloatingImageView {
        width: target.0 as nat,
        height: target.1 as nat,
        data: interleaved(image_rgb_bytes(pair.0), image_rgb_bytes(pair.1)),
        name,
        committed: true,
    }
}

/// Combines two decoded pictures into an output image of the given name:
/// brings them to their common size, reserves the output, interleaves the
/// RGB buffers and commits the result. Returns `None`, and does nothing,
/// for pictures that cannot be combined.
pub fn compose(image_1: DynamicImage, image_2: DynamicImage, name: String) -> (output: Option<
    FloatingImage,
>)
    ensures
        output is Some <==> composable(image_1, image_2),
        output matches Some(image) ==> image@ == composed(image_1, image_2, name@),
{
    if has_float_samples(&image_1) || has_float_samples(&image_2) {
        return None;
    }
    let dim_1 = dimensions_of(&image_1);
    let dim_2 = dimensions_of(&image_2);
    let target = get_smallest_dimension(dim_1, dim_2);
    let from = if dim_2.0 == target.0 && dim_2.1 == target.1 {
        dim_1
    } else {
        dim_2
    };
    if !is_resizable(from, target) {
        return None;
    }
    let (image_s, image_p) = standardise_size(image_1, image_2);
    let (width, height) = dimensions_of(&image_s);
    let mut output = FloatingImage::new(width, height, name);
    let combined_data = combine_images(image_s, image_p);
    // Three bytes per pixel always fit the four that are reserved.
    assert(combined_data@.len() <= output@.capacity()) by (nonlinear_arith)
        requires
            combined_data@.len() == 3 * ((width as nat) * (height as nat)),
            output@.capacity() == (width as nat) * (height as nat) * 4,
    ;
    match output.set_data(combined_data) {
        Ok(()) => Some(output),
        Err(_) => None,
    }
}

} // verus!
