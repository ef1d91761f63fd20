use vstd::prelude::*;
use crate::errors::ImageDataErrors;
use crate::images::DecodedImage;
use crate::interleave::{alternate_pixels, interleaved};
use crate::output::{FloatingImage, BUFFER_CAPACITY};
use crate::reconcile::{pixels, resize_of, smallest_dimensions, standardise_size};

verus! {

/// The pixel bytes `img` contributes once dimensions are reconciled to
/// `target`: its own bytes when it is already at `target`, the resampled
/// bytes otherwise.
pub open spec fn reconciled_data(img: DecodedImage, target: (u32, u32)) -> Seq<u8> {
    if img.dim() == target {
        img.data@
    } else {
        resize_of(img.data@, img.width, img.height, target.0, target.1)
    }
}

/// The combined pixel bytes the pipeline produces for two same-format
/// inputs: both reconciled to the smaller pixel count, then interleaved in
/// 4-byte chunks.
pub open spec fn combined_output(image_1: DecodedImage, image_2: DecodedImage) -> Seq<u8> {
    let target = smallest_dimensions(image_1.dim(), image_2.dim());
    interleaved(reconciled_data(image_1, target), reconciled_data(image_2, target))
}

/// Interleaves the pixel data of two images that already share dimensions
/// and channel layout. Equal dimensions make the two buffers equal-length
/// and 4-byte aligned, so interleaving cannot go out of bounds.
pub fn combine_images(image_1: DecodedImage, image_2: DecodedImage) -> (r: Vec<u8>)
    requires
        image_1.wf(),
        image_2.wf(),
        image_1.dim() == image_2.dim(),
    ensures
        r@ == interleaved(image_1.data@, image_2.data@),
        r@.len() == 4 * image_1.pixel_count(),
{
    proof {
        let w = image_1.width as int;
        let h = image_1.height as int;
        let p: int = w * h;
        vstd::arithmetic::div_mod::lemma_mod_multiples_basic(p, 4);
        assert(4 * (image_1.width as nat) * (image_1.height as nat) == p * 4) by (nonlinear_arith)
            requires
                p == (image_1.width as int) * (image_1.height as int),
        ;
        assert(image_1.data@.len() % 4 == 0);
    }
    let vec_1 = image_1.data;
    let vec_2 = image_2.data;
    match alternate_pixels(vec_1, vec_2) {
        Ok(combined_data) => combined_data,
        Err(_) => Vec::new(),
    }
}

/// Runs the in-memory stages of the pipeline on two decoded images: checks
/// that the format tags match, reconciles dimensions to the smaller pixel
/// count, interleaves the pixel data, and populates the output buffer.
/// A format mismatch aborts before any pixel work; a combined buffer over
/// the capacity ceiling is rejected whole. An out-of-bounds failure cannot
/// occur: reconciliation leaves both buffers equal-length and 4-byte
/// aligned.
pub fn combine_to_output(image_1: DecodedImage, image_2: DecodedImage, name: String) -> (r: Result<
    FloatingImage,
    ImageDataErrors,
>)
    requires
        image_1.wf(),
        image_2.wf(),
    ensures
        image_1.format != image_2.format <==> r == Err::<FloatingImage, ImageDataErrors>(
            ImageDataErrors::DifferentImageFormats,
        ),
        image_1.format == image_2.format && 4 * pixels(
            smallest_dimensions(image_1.dim(), image_2.dim()),
        ) > BUFFER_CAPACITY ==> r == Err::<FloatingImage, ImageDataErrors>(
            ImageDataErrors::CapacityExceeded,
        ),
        r is Ok <==> image_1.format == image_2.format && 4 * pixels(
            smallest_dimensions(image_1.dim(), image_2.dim()),
        ) <= BUFFER_CAPACITY,
        r matches Ok(c) ==> {
            &&& (c.width, c.height) == smallest_dimensions(image_1.dim(), image_2.dim())
            &&& c.name@ == name@
            &&& c.capacity == BUFFER_CAPACITY
            &&& c.data@ == combined_output(image_1, image_2)
            &&& c.data@.len() == 4 * pixels(smallest_dimensions(image_1.dim(), image_2.dim()))
            &&& c.wf()
        },
{
    if image_1.format != image_2.format {
        return Err(ImageDataErrors::DifferentImageFormats);
    }
    let (image_1, image_2) = standardise_size(image_1, image_2);
    let mut output = FloatingImage::new(image_1.width, image_1.height, name);
    let combined_data = combine_images(image_1, image_2);
    match output.set_data(combined_data) {
        Ok(()) => Ok(output),
        Err(e) => Err(e),
    }
}

} // verus!
