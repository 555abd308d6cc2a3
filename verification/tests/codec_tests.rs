use std::io::Cursor;

use image_compressor::codec::convert_image;
use image_compressor::codec::decode_image;
use image_compressor::codec::encode_jpeg;
use image_compressor::codec::image_size;
use image_compressor::codec::RawImage;
use image_compressor::error::CompressError;
use image_compressor::codec::resize_image;
use image_compressor::error::FailureKind;
use image_compressor::Factor;

fn encode(data: &Vec<u8>, width: usize, height: usize, quality: u8) -> Result<Vec<u8>, CompressError> {
    encode_jpeg(&RawImage { data: data.clone(), width, height, quality })
}

fn gradient(width: u32, height: u32) -> image::RgbImage {
    image::RgbImage::from_fn(width, height, |x, y| {
        image::Rgb([(x * 7 % 256) as u8, (y * 5 % 256) as u8, ((x + y) % 256) as u8])
    })
}

fn png_bytes(img: image::DynamicImage) -> Vec<u8> {
    let mut out = Vec::new();
    img.write_to(&mut Cursor::new(&mut out), image::ImageOutputFormat::Png).unwrap();
    out
}

#[test]
fn encode_gives_a_jpeg_of_the_given_size() {
    let img = gradient(33, 15);
    let data = img.clone().into_raw();
    let out = encode(&data, 33, 15, 80).unwrap();
    assert!(!out.is_empty());
    assert_eq!(image::guess_format(&out).unwrap(), image::ImageFormat::Jpeg);
    let back = image::load_from_memory(&out).unwrap();
    assert_eq!((back.width(), back.height()), (33, 15));
    // the picture survives, up to what the format loses
    let back = back.to_rgb8();
    let mut total: u64 = 0;
    for (a, b) in back.as_raw().iter().zip(img.as_raw().iter()) {
        total += (*a as i64 - *b as i64).unsigned_abs();
    }
    assert!(total / (33 * 15 * 3) < 40, "mean error {}", total / (33 * 15 * 3));
}

#[test]
fn encode_walks_every_scanline() {
    // the last line differs from all others: it must reach the output
    let mut img = image::RgbImage::from_pixel(16, 24, image::Rgb([0, 0, 0]));
    for x in 0..16 {
        img.put_pixel(x, 23, image::Rgb([255, 255, 255]));
    }
    let out = encode(&img.clone().into_raw(), 16, 24, 95).unwrap();
    let back = image::load_from_memory(&out).unwrap().to_rgb8();
    assert_eq!((back.width(), back.height()), (16, 24));
    assert!(back.get_pixel(8, 23).0[0] > 150);
    assert!(back.get_pixel(8, 0).0[0] < 60);
}

#[test]
fn encode_one_pixel_and_one_line() {
    let out = encode(&vec![10, 20, 30], 1, 1, 85).unwrap();
    let back = image::load_from_memory(&out).unwrap();
    assert_eq!((back.width(), back.height()), (1, 1));
    let out = encode(&vec![128; 50 * 3], 50, 1, 85).unwrap();
    let back = image::load_from_memory(&out).unwrap();
    assert_eq!((back.width(), back.height()), (50, 1));
    let out = encode(&vec![128; 50 * 3], 1, 50, 85).unwrap();
    let back = image::load_from_memory(&out).unwrap();
    assert_eq!((back.width(), back.height()), (1, 50));
}

#[test]
fn encode_refuses_a_buffer_of_the_wrong_length() {
    let data = vec![0u8; 10 * 10 * 3];
    for (w, h) in [(10usize, 9usize), (10, 11), (9, 10), (11, 10), (101, 1), (5, 5)] {
        let e = encode(&data, w, h, 80).unwrap_err();
        assert_eq!(e.kind, FailureKind::Encode);
    }
    let e = encode(&vec![0u8; 10 * 10 * 3 - 1], 10, 10, 80).unwrap_err();
    assert_eq!(e.to_string(), "buffer length does not match the image size");
    let e = encode(&vec![0u8; 10 * 10 * 3 + 1], 10, 10, 80).unwrap_err();
    assert_eq!(e.kind, FailureKind::Encode);
    assert!(encode(&data, 10, 10, 80).is_ok());
    assert!(encode(&data, 100, 1, 80).is_ok());
    assert!(encode(&data, 1, 100, 80).is_ok());
}

#[test]
fn encode_refuses_sides_out_of_range() {
    let empty: Vec<u8> = Vec::new();
    let e = encode(&empty, 0, 0, 80).unwrap_err();
    assert_eq!(e.kind, FailureKind::Encode);
    assert_eq!(e.to_string(), "image size out of range");
    assert!(encode(&empty, 0, 10, 80).is_err());
    assert!(encode(&empty, 10, 0, 80).is_err());
    assert!(encode(&vec![0u8; 65501 * 3], 65501, 1, 80).is_err());
    assert!(encode(&vec![0u8; 65501 * 3], 1, 65501, 80).is_err());
    assert!(encode(&empty, usize::MAX, usize::MAX, 80).is_err());
    assert!(encode(&vec![0u8; 65500 * 3], 65500, 1, 80).is_ok());
}

#[test]
fn quality_changes_the_output() {
    let data = gradient(64, 64).into_raw();
    let low = encode(&data, 64, 64, 10).unwrap();
    let high = encode(&data, 64, 64, 95).unwrap();
    assert!(low.len() < high.len());
    // the extremes are taken too
    assert!(encode(&data, 64, 64, 0).is_ok());
    assert!(encode(&data, 64, 64, 100).is_ok());
    assert!(encode(&data, 64, 64, 255).is_ok());
}

#[test]
fn decode_tells_images_from_other_bytes() {
    let png = png_bytes(image::DynamicImage::ImageRgb8(gradient(20, 10)));
    assert!(decode_image(&png, "png").is_ok());
    assert!(decode_image(&png, "PNG").is_ok());
    let e = decode_image(b"certainly not an image", "png").unwrap_err();
    assert_eq!(e.kind, FailureKind::Decode);
    assert!(!e.to_string().is_empty());
    let e = decode_image(&[], "jpg").unwrap_err();
    assert_eq!(e.kind, FailureKind::Decode);
    let e = decode_image(&png[..png.len() / 2], "png").unwrap_err();
    assert_eq!(e.kind, FailureKind::Decode);
    // the name's format decides, not the bytes
    assert_eq!(decode_image(&png, "jpg").unwrap_err().kind, FailureKind::Decode);
    assert_eq!(decode_image(&png, "jpeg").unwrap_err().kind, FailureKind::Decode);
    let e = decode_image(&png, "").unwrap_err();
    assert_eq!(e.to_string(), "The image format could not be determined");
    assert_eq!(decode_image(&png, "text").unwrap_err().kind, FailureKind::Decode);
}

#[test]
fn resize_scales_each_side_down() {
    let img = decode_image(&png_bytes(image::DynamicImage::ImageRgb8(gradient(200, 100))), "png").unwrap();
    let raw = resize_image(&img, &Factor::new(80, 5000)).unwrap();
    assert_eq!((raw.width, raw.height, raw.quality), (100, 50, 80));
    assert_eq!(raw.data.len(), 100 * 50 * 3);
    let raw = resize_image(&img, &Factor::new(35, 10000)).unwrap();
    assert_eq!((raw.width, raw.height, raw.quality), (200, 100, 35));
    assert_eq!(raw.data.len(), 200 * 100 * 3);
    assert_eq!(raw.data, gradient(200, 100).into_raw());
    let raw = resize_image(&img, &Factor::new(80, 100)).unwrap();
    assert_eq!((raw.width, raw.height), (2, 1));
    assert_eq!(raw.data.len(), 6);
    // sides are scaled one by one, whatever that does to the proportions
    let img = decode_image(&png_bytes(image::DynamicImage::ImageRgb8(gradient(100, 3))), "png").unwrap();
    let raw = resize_image(&img, &Factor::new(80, 7000)).unwrap();
    assert_eq!((raw.width, raw.height), (70, 2));
    assert_eq!(raw.data.len(), 70 * 2 * 3);
}

#[test]
fn resize_refuses_an_empty_result() {
    let img = decode_image(&png_bytes(image::DynamicImage::ImageRgb8(gradient(200, 1))), "png").unwrap();
    let e = resize_image(&img, &Factor::new(80, 5000)).unwrap_err();
    assert_eq!(e.kind, FailureKind::Resize);
    let img = decode_image(&png_bytes(image::DynamicImage::ImageRgb8(gradient(20, 20))), "png").unwrap();
    let e = resize_image(&img, &Factor::new(80, 0)).unwrap_err();
    assert_eq!(e.kind, FailureKind::Resize);
    assert_eq!(e.to_string(), "the resized image would be empty");
    let e = resize_image(&img, &Factor::new(80, 400)).unwrap_err();
    assert_eq!(e.kind, FailureKind::Resize);
    assert!(resize_image(&img, &Factor::new(80, 500)).is_ok());
}

#[test]
fn resize_gives_rgb_whatever_the_input_holds() {
    let rgba = image::RgbaImage::from_pixel(10, 10, image::Rgba([200, 100, 50, 128]));
    let img = decode_image(&png_bytes(image::DynamicImage::ImageRgba8(rgba)), "png").unwrap();
    let raw = resize_image(&img, &Factor::new(80, 5000)).unwrap();
    assert_eq!((raw.width, raw.height, raw.data.len()), (5, 5, 75));
    let gray = image::GrayImage::from_pixel(10, 10, image::Luma([77]));
    let img = decode_image(&png_bytes(image::DynamicImage::ImageLuma8(gray)), "png").unwrap();
    let raw = resize_image(&img, &Factor::new(80, 10000)).unwrap();
    assert_eq!((raw.width, raw.height, raw.data.len()), (10, 10, 300));
    assert!(raw.data.iter().all(|b| *b == 77));
    let deep = image::ImageBuffer::<image::Rgb<u16>, Vec<u16>>::from_pixel(8, 8, image::Rgb([65535, 0, 32768]));
    let img = decode_image(&png_bytes(image::DynamicImage::ImageRgb16(deep)), "png").unwrap();
    let raw = resize_image(&img, &Factor::new(80, 5000)).unwrap();
    assert_eq!((raw.width, raw.height, raw.data.len()), (4, 4, 48));
    assert_eq!(&raw.data[0..3], &[255, 0, 128]);
}

#[test]
fn resized_buffer_encodes() {
    let img = decode_image(&png_bytes(image::DynamicImage::ImageRgb8(gradient(90, 60))), "png").unwrap();
    let factor = Factor::new(70, 8000);
    let raw = resize_image(&img, &factor).unwrap();
    assert_eq!(raw.quality, 70);
    let out = encode_jpeg(&raw).unwrap();
    let back = image::load_from_memory(&out).unwrap();
    assert_eq!((back.width(), back.height()), (72, 48));
}

fn encoded_directly(data: &[u8], width: usize, height: usize, quality: f32, auto_scans: bool) -> Vec<u8> {
    let mut comp = mozjpeg::Compress::new(mozjpeg::ColorSpace::JCS_RGB);
    if auto_scans {
        comp.set_scan_optimization_mode(mozjpeg::ScanMode::Auto);
    }
    comp.set_quality(quality);
    comp.set_size(width, height);
    comp.set_mem_dest();
    comp.set_optimize_scans(true);
    comp.start_compress();
    for line in 0..height {
        assert!(comp.write_scanlines(&data[line * width * 3..(line + 1) * width * 3]));
    }
    comp.finish_compress();
    comp.data_to_vec().unwrap()
}

#[test]
fn encode_gives_what_the_encoder_gives_for_the_same_settings() {
    let data = gradient(48, 40).into_raw();
    let out = encode(&data, 48, 40, 75).unwrap();
    assert_eq!(out, encoded_directly(&data, 48, 40, 75.0, true));
    assert_ne!(out, encoded_directly(&data, 48, 40, 60.0, true));
    let mut other = data.clone();
    other[48 * 3 * 39 + 5] ^= 0xff;
    assert_ne!(out, encoded_directly(&other, 48, 40, 75.0, true));
    // the same call gives the same bytes
    assert_eq!(out, encode(&data, 48, 40, 75).unwrap());
}

fn exr_bytes(img: image::Rgb32FImage) -> Vec<u8> {
    let mut out = Vec::new();
    image::DynamicImage::ImageRgb32F(img)
        .write_to(&mut Cursor::new(&mut out), image::ImageOutputFormat::OpenExr)
        .unwrap();
    out
}

#[test]
fn images_with_fractional_samples_are_refused() {
    // a sample that is not a number would stop the conversion to bytes
    let mut img = image::Rgb32FImage::from_pixel(6, 4, image::Rgb([0.25, 0.5, 0.75]));
    img.put_pixel(2, 1, image::Rgb([f32::NAN, 0.5, f32::INFINITY]));
    let decoded = decode_image(&exr_bytes(img), "exr").unwrap();
    assert_eq!(image_size(&decoded), (6, 4));
    let e = resize_image(&decoded, &Factor::new(80, 5000)).unwrap_err();
    assert_eq!(e.kind, FailureKind::Resize);
    assert_eq!(e.to_string(), "the image holds samples that are not whole numbers");
    let e = resize_image(&decoded, &Factor::new(80, 10000)).unwrap_err();
    assert_eq!(e.kind, FailureKind::Resize);
    // and so is one whose samples are all numbers
    let fine = image::Rgb32FImage::from_pixel(6, 4, image::Rgb([0.25, 0.5, 0.75]));
    let decoded = decode_image(&exr_bytes(fine), "exr").unwrap();
    assert!(resize_image(&decoded, &Factor::new(80, 5000)).is_err());
}

#[test]
fn decoding_the_same_bytes_gives_the_same_image() {
    let png = png_bytes(image::DynamicImage::ImageRgb8(gradient(31, 17)));
    let a = decode_image(&png, "png").unwrap();
    let b = decode_image(&png, "png").unwrap();
    assert_eq!(image_size(&a), (31, 17));
    assert_eq!(image_size(&a), image_size(&b));
    let ra = resize_image(&a, &Factor::new(80, 6000)).unwrap();
    let rb = resize_image(&b, &Factor::new(80, 6000)).unwrap();
    assert_eq!(ra.data, rb.data);
    assert_eq!((ra.width, ra.height), (18, 10));
}

#[test]
fn sides_beyond_the_resize_bound_are_refused() {
    // one row of pixels, wider than the bound by one
    let wide = image::GrayImage::from_pixel(4_194_305, 2, image::Luma([9]));
    let img = decode_image(&png_bytes(image::DynamicImage::ImageLuma8(wide)), "png").unwrap();
    let e = resize_image(&img, &Factor::new(80, 9998)).unwrap_err();
    assert_eq!(e.kind, FailureKind::Resize);
    assert_eq!(e.to_string(), "the image is too large to resize");
    let e = resize_image(&img, &Factor::new(80, 10_000)).unwrap_err();
    assert_eq!(e.kind, FailureKind::Resize);
}

#[test]
fn a_long_row_is_resized_to_its_end() {
    let mut long = image::GrayImage::from_pixel(300_001, 2, image::Luma([10]));
    long.put_pixel(300_000, 0, image::Luma([250]));
    long.put_pixel(300_000, 1, image::Luma([250]));
    let img = decode_image(&png_bytes(image::DynamicImage::ImageLuma8(long)), "png").unwrap();
    // the width stays, the height halves: every column is resampled at ratio one
    let raw = resize_image(&img, &Factor::new(80, 9_999)).unwrap();
    assert_eq!((raw.width, raw.height), (299_970, 1));
    assert_eq!(raw.data.len(), 299_970 * 3);
    assert!(raw.data[raw.data.len() - 1] > 100);
    assert_eq!(raw.data[0], 10);
}

#[test]
fn conversion_gives_a_jpeg_file() {
    let png = png_bytes(image::DynamicImage::ImageRgb8(gradient(20, 10)));
    let out = convert_image(&png, "png").unwrap();
    assert_eq!(image::guess_format(&out).unwrap(), image::ImageFormat::Jpeg);
    let back = image::load_from_memory(&out).unwrap();
    assert_eq!((back.width(), back.height()), (20, 10));
    assert_eq!(convert_image(&png, "bmp").unwrap_err().kind, FailureKind::Decode);
    assert_eq!(convert_image(b"", "png").unwrap_err().kind, FailureKind::Decode);
}

#[test]
fn a_row_as_long_as_the_bound_is_resized_to_its_end() {
    let mut long = image::GrayImage::from_pixel(4_194_304, 2, image::Luma([10]));
    long.put_pixel(4_194_303, 0, image::Luma([250]));
    long.put_pixel(4_194_303, 1, image::Luma([250]));
    let img = decode_image(&png_bytes(image::DynamicImage::ImageLuma8(long)), "png").unwrap();
    assert_eq!(image_size(&img), (4_194_304, 2));
    let raw = resize_image(&img, &Factor::new(80, 9_999)).unwrap();
    assert_eq!((raw.width, raw.height), (4_193_884, 1));
    assert_eq!(raw.data.len(), 4_193_884 * 3);
    assert!(raw.data[raw.data.len() - 1] > 100);
    assert_eq!(raw.data[0], 10);
    let raw = resize_image(&img, &Factor::new(80, 5_000)).unwrap();
    assert_eq!((raw.width, raw.height), (2_097_152, 1));
    assert!(raw.data[raw.data.len() - 1] > 100);
}
