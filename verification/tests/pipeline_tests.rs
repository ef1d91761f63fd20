use combiner::errors::{FormatTag, ImageDataErrors};
use combiner::images::DecodedImage;
use combiner::output::{FloatingImage, BUFFER_CAPACITY};
use combiner::pipeline::{combine_images, combine_to_output};

fn solid_image(width: u32, height: u32, byte: u8, format: FormatTag) -> DecodedImage {
    DecodedImage {
        width,
        height,
        data: vec![byte; (width * height * 4) as usize],
        format,
    }
}

#[test]
fn new_output_image_is_empty_with_fixed_capacity() {
    let out = FloatingImage::new(8, 9, String::from("out.png"));
    assert_eq!(out.width, 8);
    assert_eq!(out.height, 9);
    assert_eq!(out.name, "out.png");
    assert!(out.data.is_empty());
    assert_eq!(out.capacity, BUFFER_CAPACITY);
}

#[test]
fn set_data_at_capacity_succeeds() {
    let mut out = FloatingImage::new(956, 956, String::from("out.png"));
    let payload = vec![1u8; BUFFER_CAPACITY];
    assert_eq!(out.set_data(payload), Ok(()));
    assert_eq!(out.data.len(), BUFFER_CAPACITY);
}

#[test]
fn set_data_one_byte_over_capacity_fails() {
    let mut out = FloatingImage::new(956, 956, String::from("out.png"));
    let payload = vec![1u8; BUFFER_CAPACITY + 1];
    assert_eq!(
        out.set_data(payload),
        Err(ImageDataErrors::CapacityExceeded)
    );
    assert!(out.data.is_empty());
}

#[test]
fn combine_images_interleaves_equal_sized_images() {
    let a = solid_image(2, 2, 0x00, FormatTag::Png);
    let b = solid_image(2, 2, 0xFF, FormatTag::Png);
    let combined = combine_images(a, b);
    assert_eq!(
        combined,
        vec![0, 0, 0, 0, 255, 255, 255, 255, 0, 0, 0, 0, 255, 255, 255, 255]
    );
}

#[test]
fn mismatched_formats_abort_before_pixel_work() {
    let a = solid_image(2, 2, 0, FormatTag::Png);
    let b = solid_image(2, 2, 255, FormatTag::Jpeg);
    let r = combine_to_output(a, b, String::from("out.png"));
    assert!(matches!(r, Err(ImageDataErrors::DifferentImageFormats)));
}

#[test]
fn pipeline_combines_two_same_format_images() {
    let a = solid_image(2, 2, 0x00, FormatTag::Png);
    let b = solid_image(2, 2, 0xFF, FormatTag::Png);
    let out = combine_to_output(a, b, String::from("out.png")).unwrap();
    assert_eq!(out.width, 2);
    assert_eq!(out.height, 2);
    assert_eq!(out.name, "out.png");
    assert_eq!(
        out.data,
        vec![0, 0, 0, 0, 255, 255, 255, 255, 0, 0, 0, 0, 255, 255, 255, 255]
    );
}

#[test]
fn pipeline_reconciles_then_combines() {
    let a = solid_image(4, 4, 10, FormatTag::Png);
    let b = solid_image(2, 2, 20, FormatTag::Png);
    let out = combine_to_output(a, b, String::from("out.png")).unwrap();
    assert_eq!(out.width, 2);
    assert_eq!(out.height, 2);
    assert_eq!(out.data.len(), 16);
    assert_eq!(
        out.data,
        vec![10, 10, 10, 10, 20, 20, 20, 20, 10, 10, 10, 10, 20, 20, 20, 20]
    );
}
