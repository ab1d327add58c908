//! The boundary to the `image` crate. A decoded picture is opaque to the
//! verifier; this module names what the library reads from one and wraps
//! the calls that it makes on one. Everything stated here about those calls
//! is taken on trust.

use crate::dimension::area;
use image::ColorType;
use image::DynamicImage;
use image::GenericImageView;
use image::ImageFormat;
use vstd::prelude::*;

verus! {

/// A decoded picture of the `image` crate.
#[verifier::external_type_specification]
#[verifier::external_body]
pub struct ExDynamicImage(image::DynamicImage);

/// The container format of an encoded image, of the `image` crate.
#[verifier::external_type_specification]
#[verifier::external_body]
pub struct ExImageFormat(image::ImageFormat);

/// Width and height of a picture, as `GenericImageView::dimensions` reports
/// them.
pub uninterp spec fn image_dimensions(image: DynamicImage) -> (u32, u32);

/// Whether the samples of a picture are floating-point numbers, that is,
/// whether `DynamicImage::color` reports one of the two 32-bit float
/// layouts.
pub uninterp spec fn image_has_float_samples(image: DynamicImage) -> bool;

/// The pixels of a picture as 8-bit RGB, row by row, three bytes per pixel:
/// what `DynamicImage::to_rgb8` returns, as a flat buffer.
pub uninterp spec fn image_rgb_bytes(image: DynamicImage) -> Seq<u8>;

/// The picture that `DynamicImage::resize_exact` makes of `image` for the
/// given width and height with the triangle filter.
pub uninterp spec fn resized_image(image: DynamicImage, width: u32, height: u32) -> DynamicImage;

/// The longest side, in pixels, that the library resizes from or to. The
/// resampler computes in 32-bit floats; up to this length it finds for
/// every output pixel a source pixel of weight one half or more, so the
/// weights that it normalises never add up to zero.
pub const MAX_SIDE: u32 = 1_048_576;

/// The sizes between which the library resizes: no side is zero or longer
/// than `MAX_SIDE`, and both the intermediate buffer of the resampler
/// (source width by target height) and its result can be allocated at
/// sixteen bytes per pixel, the widest layout there is.
pub open spec fn resizable(from: (u32, u32), to: (u32, u32)) -> bool {
    &&& 1 <= from.0 <= MAX_SIDE
    &&& 1 <= from.1 <= MAX_SIDE
    &&& 1 <= to.0 <= MAX_SIDE
    &&& 1 <= to.1 <= MAX_SIDE
    &&& 16 * area((from.0, to.1)) <= isize::MAX
    &&& 16 * area(to) <= isize::MAX
}

/// Compares two formats with the `==` that the `image` crate derives for
/// `ImageFormat`. Trusted: a format is nothing but its variant, so the
/// two compare equal exactly if they are the same value.
#[verifier::external_body]
pub(crate) fn formats_equal(format_1: ImageFormat, format_2: ImageFormat) -> (same: bool)
    ensures
        same == (format_1 == format_2),
{
    format_1 == format_2
}

/// Calls `GenericImageView::dimensions` on the picture. Trusted: the pair
/// returned is what `image_dimensions` names.
#[verifier::external_body]
pub(crate) fn dimensions_of(image: &DynamicImage) -> (dim: (u32, u32))
    ensures
        dim == image_dimensions(*image),
{
    image.dimensions()
}

/// Calls `DynamicImage::color` and tells the two float layouts from the
/// others. Trusted: the answer is what `image_has_float_samples` names.
#[verifier::external_body]
pub(crate) fn has_float_samples(image: &DynamicImage) -> (float: bool)
    ensures
        float == image_has_float_samples(*image),
{
    matches!(image.color(), ColorType::Rgb32F | ColorType::Rgba32F)
}

/// Calls `DynamicImage::resize_exact` with the triangle filter. Trusted:
/// between resizable sizes the call returns; the result is the picture that
/// `resized_image` names, it has exactly the size asked for, and it keeps
/// the sample layout of the source.
#[verifier::external_body]
pub(crate) fn resize_exact_triangle(image: &DynamicImage, width: u32, height: u32) -> (resized:
    DynamicImage)
    requires
        resizable(image_dimensions(*image), (width, height)),
    ensures
        resized == resized_image(*image, width, height),
        image_dimensions(resized) == (width, height),
        image_has_float_samples(resized) == image_has_float_samples(*image),
{
    image.resize_exact(width, height, image::imageops::FilterType::Triangle)
}

/// Calls `DynamicImage::to_rgb8` and unwraps the buffer with
/// `ImageBuffer::into_vec`. Trusted: for a picture without float samples
/// whose RGB buffer can be allocated the call returns; the result is the
/// buffer that `image_rgb_bytes` names, three bytes for each pixel.
#[verifier::external_body]
pub(crate) fn rgb_bytes_of(image: &DynamicImage) -> (bytes: Vec<u8>)
    requires
        !image_has_float_samples(*image),
        3 * area(image_dimensions(*image)) <= isize::MAX,
    ensures
        bytes@ == image_rgb_bytes(*image),
        bytes@.len() == 3 * area(image_dimensions(*image)),
{
    image.to_rgb8().into_vec()
}

} // verus!
