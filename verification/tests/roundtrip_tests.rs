use combiner::errors::FormatTag;
use combiner::images::DecodedImage;
use combiner::pipeline::combine_to_output;
use std::io::Cursor;

fn solid_image(width: u32, height: u32, byte: u8, format: FormatTag) -> DecodedImage {
    DecodedImage {
        width,
        height,
        data: vec![byte; (width * height * 4) as usize],
        format,
    }
}

#[test]
fn png_round_trip_keeps_dimensions_and_byte_length() {
    let a = solid_image(3, 2, 0x00, FormatTag::Png);
    let b = solid_image(3, 2, 0xFF, FormatTag::Png);
    let out = combine_to_output(a, b, String::from("out.png")).unwrap();

    let mut encoded: Cursor<Vec<u8>> = Cursor::new(Vec::new());
    image::write_buffer_with_format(
        &mut encoded,
        &out.data,
        out.width,
        out.height,
        image::ExtendedColorType::Rgba8,
        image::ImageFormat::Png,
    )
    .unwrap();

    let decoded =
        image::load_from_memory_with_format(encoded.get_ref(), image::ImageFormat::Png).unwrap();
    assert_eq!(decoded.width(), out.width);
    assert_eq!(decoded.height(), out.height);
    let decoded_bytes = decoded.to_rgba8().into_raw();
    assert_eq!(decoded_bytes.len(), out.data.len());
    // PNG is lossless, so here even the bytes survive.
    assert_eq!(decoded_bytes, out.data);
}

#[test]
fn jpeg_round_trip_keeps_dimensions_and_byte_length() {
    let a = solid_image(4, 4, 0x40, FormatTag::Jpeg);
    let b = solid_image(4, 4, 0x80, FormatTag::Jpeg);
    let out = combine_to_output(a, b, String::from("out.jpg")).unwrap();

    // The JPEG encoder takes no alpha channel, so the RGBA output is encoded
    // from its RGB bytes.
    let rgb: Vec<u8> = out
        .data
        .chunks(4)
        .flat_map(|px| px[..3].to_vec())
        .collect();
    let mut encoded: Cursor<Vec<u8>> = Cursor::new(Vec::new());
    image::write_buffer_with_format(
        &mut encoded,
        &rgb,
        out.width,
        out.height,
        image::ExtendedColorType::Rgb8,
        image::ImageFormat::Jpeg,
    )
    .unwrap();

    let decoded =
        image::load_from_memory_with_format(encoded.get_ref(), image::ImageFormat::Jpeg).unwrap();
    assert_eq!(decoded.width(), out.width);
    assert_eq!(decoded.height(), out.height);
    // JPEG is lossy: the bytes need not match, but the byte length must.
    assert_eq!(decoded.to_rgba8().into_raw().len(), out.data.len());
}
