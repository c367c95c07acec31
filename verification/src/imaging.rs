//! PNG encoding and decoding of clipboard images, through the `image` crate.
use vstd::prelude::*;

use image::{ImageBuffer, ImageFormat, Rgba};
use std::io::Cursor;

verus! {

/// The PNG file that encodes an RGBA image of `width` by `height` pixels whose
/// rows of 8-bit channels are `pixels`, if the encoder produces one.
pub uninterp spec fn png_encoding(width: u32, height: u32, pixels: Seq<u8>) -> Option<Seq<u8>>;

/// The width, height and RGBA pixels that the image file `bytes` decodes to, if it decodes.
pub uninterp spec fn rgba_decoding(bytes: Seq<u8>) -> Option<(u32, u32, Seq<u8>)>;

/// The PNG file of a copy of the image file `bytes` scaled, up or down and
/// keeping its aspect ratio, to fit within `max_width` by `max_height`, with the
/// copy's width and height, if `bytes` decodes and the copy encodes.
pub uninterp spec fn png_thumbnail(bytes: Seq<u8>, max_width: u32, max_height: u32) -> Option<
    (Seq<u8>, u32, u32),
>;

/// A `width` by `height` copy of a `source_width` by `source_height` image fits
/// a `max_width` by `max_height` box as a thumbnail does: it has at least one
/// pixel each way; in a box of at least one pixel each way it lies within the
/// box and meets it on one side (unless the source has no pixels either way);
/// and its sides keep the source's proportion up to rounding, which moves each
/// side by at most one pixel.
pub open spec fn thumbnail_fits(
    source_width: u32,
    source_height: u32,
    max_width: u32,
    max_height: u32,
    width: u32,
    height: u32,
) -> bool {
    &&& 1 <= width
    &&& 1 <= height
    &&& (1 <= max_width && 1 <= max_height) ==> {
        &&& width <= max_width
        &&& height <= max_height
        &&& (source_width > 0 || source_height > 0) ==> (width == max_width || height == max_height)
    }
    &&& -(source_width + source_height) <= width * source_height - height * source_width
        <= source_width + source_height
}

/// `image::ImageBuffer::<Rgba<u8>, _>::from_raw` followed by `write_to` in PNG format.
/// `from_raw` refuses a buffer shorter than four bytes per pixel, so an encoding
/// exists only when `pixels` is that long; which bytes the PNG holds is left to
/// the name `png_encoding`.
#[verifier::external_body]
pub(crate) fn encode_png(width: u32, height: u32, pixels: Vec<u8>) -> (r: Option<Vec<u8>>)
    ensures
        r matches Some(png) ==> png_encoding(width, height, pixels@) == Some(png@),
        r is None ==> png_encoding(width, height, pixels@) is None,
        r is Some ==> 4 * width * height <= pixels@.len(),
{
    let buffer = ImageBuffer::<Rgba<u8>, Vec<u8>>::from_raw(width, height, pixels)?;
    let mut out: Vec<u8> = Vec::new();
    buffer.write_to(&mut Cursor::new(&mut out), ImageFormat::Png).ok()?;
    Some(out)
}

/// `image::load_from_memory` followed by `into_rgba8`, `dimensions` and `into_raw`:
/// the decoded image as width, height and RGBA pixels, left to the name
/// `rgba_decoding`; `None` when the bytes do not decode.
#[verifier::external_body]
pub(crate) fn decode_rgba(bytes: &[u8]) -> (r: Option<(u32, u32, Vec<u8>)>)
    ensures
        r matches Some(d) ==> rgba_decoding(bytes@) == Some((d.0, d.1, d.2@)),
        r is None ==> rgba_decoding(bytes@) is None,
{
    let image = image::load_from_memory(bytes).ok()?.into_rgba8();
    let (width, height) = image.dimensions();
    Some((width, height, image.into_raw()))
}

/// `image::load_from_memory`, `DynamicImage::thumbnail` and `write_to` in PNG
/// format: the copy scaled to fit, with its width and height, left to the name
/// `png_thumbnail`; `None` when the bytes do not decode or the copy does not
/// encode. The decoding is the one `decode_rgba` makes, so bytes that it refuses
/// give `None`. `thumbnail` sizes the copy with `resize_dimensions`: each side
/// is the source side times the smaller of the two ratios box side / source side,
/// rounded, and at least 1; that is what `thumbnail_fits` says of the sizes.
/// Which pixels the copy holds is left to the name.
#[verifier::external_body]
pub(crate) fn thumbnail_png(bytes: &[u8], max_width: u32, max_height: u32) -> (r: Option<(Vec<u8>, u32, u32)>)
    ensures
        r matches Some(t) ==> png_thumbnail(bytes@, max_width, max_height) == Some((t.0@, t.1, t.2)),
        r is None ==> png_thumbnail(bytes@, max_width, max_height) is None,
        rgba_decoding(bytes@) is None ==> r is None,
        r matches Some(t) ==> rgba_decoding(bytes@) matches Some(d) && thumbnail_fits(
            d.0,
            d.1,
            max_width,
            max_height,
            t.1,
            t.2,
        ),
{
    let image = image::load_from_memory(bytes).ok()?;
    let small = image.thumbnail(max_width, max_height);
    let (width, height) = (small.width(), small.height());
    let mut out = Cursor::new(Vec::new());
    small.write_to(&mut out, ImageFormat::Png).ok()?;
    Some((out.into_inner(), width, height))
}

} // verus!
