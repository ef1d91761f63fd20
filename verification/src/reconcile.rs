use vstd::prelude::*;
use crate::images::DecodedImage;

verus! {

/// The number of pixels a (width, height) pair covers.
pub open spec fn pixels(dim: (u32, u32)) -> nat {
    (dim.0 as nat) * (dim.1 as nat)
}

/// The target of dimension reconciliation: the pair with the smaller pixel
/// count; on a tie, the second pair.
pub open spec fn smallest_dimensions(dim_1: (u32, u32), dim_2: (u32, u32)) -> (u32, u32) {
    if pixels(dim_1) < pixels(dim_2) {
        dim_1
    } else {
        dim_2
    }
}

/// Picks the dimension pair with the fewer total pixels; on a tie, the
/// second pair.
pub fn get_smallest_dimensions(dim_1: (u32, u32), dim_2: (u32, u32)) -> (r: (u32, u32))
    ensures
        r == smallest_dimensions(dim_1, dim_2),
        pixels(r) <= pixels(dim_1),
        pixels(r) <= pixels(dim_2),
{
    proof {
        assert((dim_1.0 as nat) * (dim_1.1 as nat) <= u64::MAX && (dim_2.0 as nat) * (
        dim_2.1 as nat) <= u64::MAX) by (nonlinear_arith)
            requires
                dim_1.0 <= u32::MAX,
                dim_1.1 <= u32::MAX,
                dim_2.0 <= u32::MAX,
                dim_2.1 <= u32::MAX,
        ;
    }
    let pix_1: u64 = (dim_1.0 as u64) * (dim_1.1 as u64);
    let pix_2: u64 = (dim_2.0 as u64) * (dim_2.1 as u64);
    if pix_1 < pix_2 {
        dim_1
    } else {
        dim_2
    }
}

/// The RGBA bytes that resampling `data` (a `width` x `height` image) to
/// `new_width` x `new_height` with the fixed triangle filter produces. The
/// result depends on the arguments alone.
pub uninterp spec fn resize_of(
    data: Seq<u8>,
    width: u32,
    height: u32,
    new_width: u32,
    new_height: u32,
) -> Seq<u8>;

/// Relies on image::imageops::resize with the triangle (bilinear) filter:
/// it returns a buffer of exactly the requested dimensions, 4 bytes per
/// pixel, computed from the input pixels alone.
#[verifier::external_body]
fn resize_rgba(data: &Vec<u8>, width: u32, height: u32, new_width: u32, new_height: u32) -> (r:
    Vec<u8>)
    requires
        data@.len() == 4 * (width as nat) * (height as nat),
        4 * (new_width as nat) * (new_height as nat) <= usize::MAX as nat,
    ensures
        r@ == resize_of(data@, width, height, new_width, new_height),
        r@.len() == 4 * (new_width as nat) * (new_height as nat),
{
    let img: image::RgbaImage = image::RgbaImage::from_raw(width, height, data.clone()).unwrap();
    let out = image::imageops::resize(
        &img,
        new_width,
        new_height,
        image::imageops::FilterType::Triangle,
    );
    out.into_raw()
}

/// Reconciles the dimensions of two images so that both come out with the
/// target dimensions: the input pair covering fewer pixels, the second on a
/// tie. The image already at the target passes through unchanged; the other
/// is resampled to the target. Two images that already share dimensions
/// both pass through unchanged.
pub fn standardise_size(image_1: DecodedImage, image_2: DecodedImage) -> (r: (
    DecodedImage,
    DecodedImage,
))
    requires
        image_1.wf(),
        image_2.wf(),
    ensures
        r.0.wf() && r.1.wf(),
        r.0.dim() == smallest_dimensions(image_1.dim(), image_2.dim()),
        r.1.dim() == r.0.dim(),
        r.0.pixel_count() <= image_1.pixel_count() && r.0.pixel_count() <= image_2.pixel_count(),
        r.0.format == image_1.format && r.1.format == image_2.format,
        image_1.dim() == image_2.dim() ==> r == (image_1, image_2),
        image_1.dim() == smallest_dimensions(image_1.dim(), image_2.dim()) ==> r.0 == image_1,
        image_2.dim() == smallest_dimensions(image_1.dim(), image_2.dim()) ==> r.1 == image_2,
        r.0 != image_1 ==> r.0.data@ == resize_of(
            image_1.data@,
            image_1.width,
            image_1.height,
            r.0.width,
            r.0.height,
        ),
        r.1 != image_2 ==> r.1.data@ == resize_of(
            image_2.data@,
            image_2.width,
            image_2.height,
            r.1.width,
            r.1.height,
        ),
{
    let (width, height) = get_smallest_dimensions(
        (image_1.width, image_1.height),
        (image_2.width, image_2.height),
    );
    if image_1.width == width && image_1.height == height {
        if image_2.width == width && image_2.height == height {
            (image_1, image_2)
        } else {
            proof {
                assert(image_1.data.len() <= usize::MAX);
            }
            let data = resize_rgba(&image_2.data, image_2.width, image_2.height, width, height);
            let resized = DecodedImage { width, height, data, format: image_2.format };
            (image_1, resized)
        }
    } else {
        proof {
            assert(image_2.data.len() <= usize::MAX);
        }
        let data = resize_rgba(&image_1.data, image_1.width, image_1.height, width, height);
        let resized = DecodedImage { width, height, data, format: image_1.format };
        (resized, image_2)
    }
}

} // verus!
