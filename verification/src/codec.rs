//! Decoding, resizing and JPEG encoding of one image, scanline by scanline.

use vstd::prelude::*;
use vstd::slice::*;
use vstd::string::*;
use image::DynamicImage;
use image::ImageError;
use image::ImageFormat;
use mozjpeg::Compress;
use crate::error::CompressError;
use crate::error::FailureKind;
use crate::factor::scaled_side;
use crate::factor::Factor;

verus! {

/// `image::DynamicImage`: a decoded image. Nothing of it is visible here but
/// what the functions below tell.
#[verifier::external_type_specification]
#[verifier::external_body]
pub struct ExDynamicImage(DynamicImage);

/// `image::ImageError`: why an image could not be decoded.
#[verifier::external_type_specification]
#[verifier::external_body]
pub struct ExImageError(ImageError);

/// `image::ImageFormat`: a file format of images.
#[verifier::external_type_specification]
#[verifier::external_body]
pub struct ExImageFormat(ImageFormat);

/// `mozjpeg::Compress`: a JPEG encoder.
#[verifier::external_type_specification]
#[verifier::external_body]
pub struct ExCompress(Compress);

/// Width in pixels of a decoded image.
pub uninterp spec fn image_width(img: DynamicImage) -> nat;

/// Height in pixels of a decoded image.
pub uninterp spec fn image_height(img: DynamicImage) -> nat;

/// Whether a decoded image keeps its samples as fractions rather than as
/// whole numbers of 8 or 16 bits.
pub uninterp spec fn image_has_float_samples(img: DynamicImage) -> bool;

/// The pixels of a decoded image as RGB bytes, three per pixel, row after
/// row.
pub uninterp spec fn image_rgb8(img: DynamicImage) -> Seq<u8>;

/// The file format that a file name's extension stands for, where it stands
/// for one.
pub uninterp spec fn extension_format(extension: Seq<char>) -> Option<ImageFormat>;

/// Whether a file's bytes can be decoded as an image of the given format.
pub uninterp spec fn decodes(bytes: Seq<u8>, format: ImageFormat) -> bool;

/// The image that a file's bytes decode to, read as the given format.
pub uninterp spec fn decoded_image(bytes: Seq<u8>, format: ImageFormat) -> DynamicImage;

/// Whether the image crate's JPEG writer takes an image at a quality.
pub uninterp spec fn writes_as_jpeg(img: DynamicImage, quality: int) -> bool;

/// The JPEG file that the image crate's JPEG writer makes of an image at a
/// quality.
pub uninterp spec fn image_as_jpeg(img: DynamicImage, quality: int) -> Seq<u8>;

/// The image that resampling `img` to `width` by `height` pixels with the
/// triangle filter gives.
pub uninterp spec fn resized_image(img: DynamicImage, width: nat, height: nat) -> DynamicImage;

/// Stage of a JPEG encoder: 0 while its settings are open, 1 while it takes
/// scanlines, 2 once it is finished.
pub uninterp spec fn jpeg_phase(c: Compress) -> int;

/// Width and height that a JPEG encoder was set to.
pub uninterp spec fn jpeg_size(c: Compress) -> (nat, nat);

/// Number of scanlines that a JPEG encoder has taken.
pub uninterp spec fn jpeg_rows(c: Compress) -> nat;

/// Whether a JPEG encoder writes to a buffer in memory.
pub uninterp spec fn jpeg_has_buffer(c: Compress) -> bool;

/// The quality that a JPEG encoder was set to.
pub uninterp spec fn jpeg_quality(c: Compress) -> int;

/// The bytes of the scanlines that a JPEG encoder has taken, in order.
pub uninterp spec fn jpeg_taken(c: Compress) -> Seq<u8>;

/// Whether every setting of a JPEG encoder other than quality, size and
/// output is the one that a new encoder for RGB input has.
pub uninterp spec fn jpeg_plain(c: Compress) -> bool;

/// The JPEG file that an encoder for RGB input, with its other settings as
/// they are in a new encoder, writes for the pixels `data` of a `width` by
/// `height` image at `quality`.
pub uninterp spec fn jpeg_stream(data: Seq<u8>, width: nat, height: nat, quality: int) -> Seq<u8>;

/// The largest side length that a JPEG can have.
pub const MAX_JPEG_SIDE: usize = 65500;

/// The largest side length of an image that is resized here.
///
/// The resampling places the centre of each output pixel by one product in
/// single precision. Up to this bound the pixel's number plus one half is
/// exact, the product is less than half a pixel off, and taking the half
/// away again is exact, so the source pixel nearest to the centre, or the
/// last one where the centre falls beyond it, lies less than one pixel from
/// it and carries weight. Beyond the bound an output pixel can be left
/// without any weight, which the resampling does not survive.
pub const MAX_RESIZE_SIDE: u32 = 4_194_304;

/// The quality at which an input of another format is converted to JPEG.
pub const CONVERT_QUALITY: u8 = 75;

/// Bytes per pixel of the raw buffers handled here (RGB, 8 bits each).
pub const BYTES_PER_PIXEL: usize = 3;

/// How a decoded image keeps its samples.
#[derive(Clone, Copy, Debug, PartialEq, Eq, Structural)]
pub enum SampleFormat {
    L8,
    La8,
    Rgb8,
    Rgba8,
    L16,
    La16,
    Rgb16,
    Rgba16,
    Rgb32F,
    Rgba32F,
    Other,
}

/// The formats whose samples are fractions; a format unknown here counts
/// among them.
pub open spec fn is_float_format(format: SampleFormat) -> bool {
    format is Rgb32F || format is Rgba32F || format is Other
}

/// `ImageFormat::from_extension`: the format that an extension stands for,
/// whatever its case; none for an extension that it does not know.
#[verifier::external_body]
fn format_from_extension(extension: &str) -> (r: Option<ImageFormat>)
    ensures
        r == extension_format(extension@),
{
    ImageFormat::from_extension(extension)
}

/// `image::load_from_memory_with_format`: decodes `bytes` as the given
/// format. Whether that succeeds, and what comes out, is a matter of the
/// bytes and the format alone. What is read as the format of `jpg` has
/// samples of 8 or 16 bits, never fractions.
#[verifier::external_body]
fn load_with_format(bytes: &[u8], format: ImageFormat) -> (r: Result<DynamicImage, ImageError>)
    ensures
        r is Ok <==> decodes(bytes@, format),
        r matches Ok(img) ==> img == decoded_image(bytes@, format),
        r matches Ok(img) ==> (extension_format("jpg"@) == Some(format)
            ==> !image_has_float_samples(img)),
{
    image::load_from_memory_with_format(bytes, format)
}

/// `DynamicImage::write_to` with the JPEG output format, into memory: the
/// file that the writer makes, where it takes the image. Whether it does,
/// and what it writes, is a matter of the image and the quality alone.
#[verifier::external_body]
fn write_jpeg(img: &DynamicImage, quality: u8) -> (r: Result<Vec<u8>, ImageError>)
    ensures
        r is Ok <==> writes_as_jpeg(*img, quality as int),
        r matches Ok(out) ==> out@ == image_as_jpeg(*img, quality as int),
{
    let mut out = Vec::new();
    let done = img.write_to(
        &mut std::io::Cursor::new(&mut out),
        image::ImageOutputFormat::Jpeg(quality),
    );
    done.map(|_| out)
}

/// `DynamicImage::width`: the image's width.
#[verifier::external_body]
fn width_of_image(img: &DynamicImage) -> (w: u32)
    ensures
        w == image_width(*img),
{
    img.width()
}

/// `DynamicImage::height`: the image's height.
#[verifier::external_body]
fn height_of_image(img: &DynamicImage) -> (h: u32)
    ensures
        h == image_height(*img),
{
    img.height()
}

/// `DynamicImage::color`: how the image keeps its samples. The two formats
/// of 32-bit fractions are those of an image with such samples.
#[verifier::external_body]
fn format_of_image(img: &DynamicImage) -> (format: SampleFormat)
    ensures
        is_float_format(format) == image_has_float_samples(*img),
{
    match img.color() {
        image::ColorType::L8 => SampleFormat::L8,
        image::ColorType::La8 => SampleFormat::La8,
        image::ColorType::Rgb8 => SampleFormat::Rgb8,
        image::ColorType::Rgba8 => SampleFormat::Rgba8,
        image::ColorType::L16 => SampleFormat::L16,
        image::ColorType::La16 => SampleFormat::La16,
        image::ColorType::Rgb16 => SampleFormat::Rgb16,
        image::ColorType::Rgba16 => SampleFormat::Rgba16,
        image::ColorType::Rgb32F => SampleFormat::Rgb32F,
        image::ColorType::Rgba32F => SampleFormat::Rgba32F,
        _ => SampleFormat::Other,
    }
}

/// `DynamicImage::resize_exact` with the triangle filter: a new image of
/// exactly the asked size, with samples kept as the image keeps them. It
/// places pixels in single precision, which is close enough only up to
/// `MAX_RESIZE_SIDE`, and works on a buffer as wide as the image and as high
/// as the result, with up to sixteen bytes for each pixel: the sizes beyond
/// either are left out.
#[verifier::external_body]
fn resize_exact(img: &DynamicImage, width: u32, height: u32) -> (r: DynamicImage)
    requires
        1 <= width <= image_width(*img) <= MAX_RESIZE_SIDE,
        1 <= height <= image_height(*img) <= MAX_RESIZE_SIDE,
        16 * image_width(*img) * height <= isize::MAX,
    ensures
        r == resized_image(*img, width as nat, height as nat),
        image_width(r) == width,
        image_height(r) == height,
        image_has_float_samples(r) == image_has_float_samples(*img),
{
    img.resize_exact(width, height, image::imageops::FilterType::Triangle)
}

/// `DynamicImage::to_rgb8`, then `ImageBuffer::into_raw`: the pixels as RGB
/// bytes, three per pixel, row after row. Samples that are fractions are
/// left out: the conversion fails on one that is not a number.
#[verifier::external_body]
fn to_rgb8(img: &DynamicImage) -> (data: Vec<u8>)
    requires
        !image_has_float_samples(*img),
        3 * image_width(*img) * image_height(*img) <= isize::MAX,
    ensures
        data@ == image_rgb8(*img),
        data@.len() == 3 * image_width(*img) * image_height(*img),
{
    img.to_rgb8().into_raw()
}

/// `Compress::new` for RGB input: an encoder whose settings are open and
/// that has no output buffer yet.
#[verifier::external_body]
fn jpeg_new() -> (c: Compress)
    ensures
        jpeg_phase(c) == 0,
        !jpeg_has_buffer(c),
        jpeg_plain(c),
{
    Compress::new(mozjpeg::ColorSpace::JCS_RGB)
}

/// `Compress::set_scan_optimization_mode` with `ScanMode::Auto`. The call
/// ends by restoring the encoder's defaults, the quality among them: stage,
/// size and output stay, and the other settings are those of a new encoder.
#[verifier::external_body]
fn jpeg_set_scan_mode_auto(c: &mut Compress)
    requires
        jpeg_phase(*old(c)) == 0,
    ensures
        jpeg_phase(*final(c)) == 0,
        jpeg_size(*final(c)) == jpeg_size(*old(c)),
        jpeg_has_buffer(*final(c)) == jpeg_has_buffer(*old(c)),
        jpeg_plain(*final(c)),
{
    c.set_scan_optimization_mode(mozjpeg::ScanMode::Auto)
}

/// `Compress::set_quality`: records the quality; nothing else changes.
#[verifier::external_body]
fn jpeg_set_quality(c: &mut Compress, quality: u8)
    requires
        jpeg_phase(*old(c)) == 0,
    ensures
        jpeg_phase(*final(c)) == 0,
        jpeg_size(*final(c)) == jpeg_size(*old(c)),
        jpeg_has_buffer(*final(c)) == jpeg_has_buffer(*old(c)),
        jpeg_plain(*final(c)) == jpeg_plain(*old(c)),
        jpeg_quality(*final(c)) == quality,
{
    c.set_quality(quality.into())
}

/// `Compress::set_size`: records the size of the input; nothing else
/// changes.
#[verifier::external_body]
fn jpeg_set_size(c: &mut Compress, width: usize, height: usize)
    requires
        jpeg_phase(*old(c)) == 0,
        width <= u32::MAX,
        height <= u32::MAX,
    ensures
        jpeg_phase(*final(c)) == 0,
        jpeg_size(*final(c)) == (width as nat, height as nat),
        jpeg_has_buffer(*final(c)) == jpeg_has_buffer(*old(c)),
        jpeg_plain(*final(c)) == jpeg_plain(*old(c)),
        jpeg_quality(*final(c)) == jpeg_quality(*old(c)),
{
    c.set_size(width, height)
}

/// `Compress::set_mem_dest`: the encoder writes to a buffer in memory;
/// nothing else changes.
#[verifier::external_body]
fn jpeg_set_mem_dest(c: &mut Compress)
    requires
        jpeg_phase(*old(c)) == 0,
    ensures
        jpeg_phase(*final(c)) == 0,
        jpeg_size(*final(c)) == jpeg_size(*old(c)),
        jpeg_has_buffer(*final(c)),
        jpeg_plain(*final(c)) == jpeg_plain(*old(c)),
        jpeg_quality(*final(c)) == jpeg_quality(*old(c)),
{
    c.set_mem_dest()
}

/// `Compress::set_optimize_scans`: switches the optimization of scans, which
/// a new encoder has switched on; nothing else changes.
#[verifier::external_body]
fn jpeg_set_optimize_scans(c: &mut Compress, on: bool)
    requires
        jpeg_phase(*old(c)) == 0,
    ensures
        jpeg_phase(*final(c)) == 0,
        jpeg_size(*final(c)) == jpeg_size(*old(c)),
        jpeg_has_buffer(*final(c)) == jpeg_has_buffer(*old(c)),
        jpeg_plain(*final(c)) == (jpeg_plain(*old(c)) && on),
        jpeg_quality(*final(c)) == jpeg_quality(*old(c)),
{
    c.set_optimize_scans(on)
}

/// `Compress::start_compress`: closes the settings; the encoder then takes
/// scanlines, none taken yet. It needs an output buffer and a size that the
/// format allows.
#[verifier::external_body]
fn jpeg_start(c: &mut Compress)
    requires
        jpeg_phase(*old(c)) == 0,
        jpeg_has_buffer(*old(c)),
        1 <= jpeg_size(*old(c)).0 <= MAX_JPEG_SIDE,
        1 <= jpeg_size(*old(c)).1 <= MAX_JPEG_SIDE,
    ensures
        jpeg_phase(*final(c)) == 1,
        jpeg_size(*final(c)) == jpeg_size(*old(c)),
        jpeg_plain(*final(c)) == jpeg_plain(*old(c)),
        jpeg_quality(*final(c)) == jpeg_quality(*old(c)),
        jpeg_rows(*final(c)) == 0,
        jpeg_taken(*final(c)) == Seq::<u8>::empty(),
{
    c.start_compress()
}

/// `Compress::write_scanlines` with one scanline: `true` where the encoder
/// took it, `false` where it took nothing.
#[verifier::external_body]
fn jpeg_write_scanline(c: &mut Compress, row: &[u8]) -> (taken: bool)
    requires
        jpeg_phase(*old(c)) == 1,
        jpeg_size(*old(c)).0 >= 1,
        jpeg_rows(*old(c)) < jpeg_size(*old(c)).1,
        row@.len() == BYTES_PER_PIXEL * jpeg_size(*old(c)).0,
    ensures
        jpeg_phase(*final(c)) == 1,
        jpeg_size(*final(c)) == jpeg_size(*old(c)),
        jpeg_plain(*final(c)) == jpeg_plain(*old(c)),
        jpeg_quality(*final(c)) == jpeg_quality(*old(c)),
        jpeg_rows(*final(c)) == jpeg_rows(*old(c)) + if taken { 1nat } else { 0nat },
        jpeg_taken(*final(c)) == if taken {
            jpeg_taken(*old(c)) + row@
        } else {
            jpeg_taken(*old(c))
        },
{
    c.write_scanlines(row)
}

/// `Compress::finish_compress`: ends the image once every scanline is in;
/// what the encoder was set to and given stays on record.
#[verifier::external_body]
fn jpeg_finish(c: &mut Compress)
    requires
        jpeg_phase(*old(c)) == 1,
        jpeg_rows(*old(c)) == jpeg_size(*old(c)).1,
    ensures
        jpeg_phase(*final(c)) == 2,
        jpeg_size(*final(c)) == jpeg_size(*old(c)),
        jpeg_plain(*final(c)) == jpeg_plain(*old(c)),
        jpeg_quality(*final(c)) == jpeg_quality(*old(c)),
        jpeg_taken(*final(c)) == jpeg_taken(*old(c)),
{
    c.finish_compress()
}

/// `Compress::data_to_vec` on a finished encoder: the file written to the
/// buffer in memory, which is a matter of the pixels, the size and the
/// quality alone; an empty buffer is reported as a failure.
#[verifier::external_body]
fn jpeg_data_to_vec(c: &mut Compress) -> (r: Result<Vec<u8>, ()>)
    requires
        jpeg_phase(*old(c)) == 2,
        jpeg_plain(*old(c)),
    ensures
        r matches Ok(v) ==> v@.len() > 0 && v@ == jpeg_stream(
            jpeg_taken(*old(c)),
            jpeg_size(*old(c)).0,
            jpeg_size(*old(c)).1,
            jpeg_quality(*old(c)),
        ),
{
    c.data_to_vec()
}

/// A raw image: RGB bytes, three per pixel, row after row, with the quality
/// at which it is to be encoded.
#[derive(Debug)]
pub struct RawImage {
    pub data: Vec<u8>,
    pub width: usize,
    pub height: usize,
    pub quality: u8,
}

/// A raw image as plain values.
pub struct RawImageView {
    pub data: Seq<u8>,
    pub width: usize,
    pub height: usize,
    pub quality: u8,
}

impl View for RawImage {
    type V = RawImageView;

    open spec fn view(&self) -> RawImageView {
        RawImageView {
            data: self.data@,
            width: self.width,
            height: self.height,
            quality: self.quality,
        }
    }
}

/// Both sides are within what the JPEG format can hold.
pub open spec fn sides_in_range(width: nat, height: nat) -> bool {
    1 <= width <= MAX_JPEG_SIDE && 1 <= height <= MAX_JPEG_SIDE
}

/// A raw RGB buffer of `len` bytes is a `width` by `height` image that the
/// JPEG format can hold.
pub open spec fn encodable(len: nat, width: nat, height: nat) -> bool {
    sides_in_range(width, height) && len == width * height * BYTES_PER_PIXEL
}

fn encode_error(text: &str) -> (e: CompressError)
    ensures
        e.kind == FailureKind::Encode,
        e.message@ == text@,
{
    CompressError::new(FailureKind::Encode, String::from_str(text))
}

/// Encodes a raw image as a JPEG at the image's quality, one scanline at a
/// time, from line 0 to line `height - 1`.
///
/// A buffer whose length is not `width * height * 3`, or a side that is zero
/// or beyond what the format allows, is refused before the encoder starts.
/// Beyond that only the encoder can fail: by refusing a scanline, or by
/// handing out nothing at the end. What it hands out is the file that it
/// writes for exactly these pixels, this size and this quality.
pub fn encode_jpeg(image: &RawImage) -> (r: Result<Vec<u8>, CompressError>)
    ensures
        !sides_in_range(image.width as nat, image.height as nat) ==> (r matches Err(e)
            && e.message@ == "image size out of range"@),
        sides_in_range(image.width as nat, image.height as nat) && image.data@.len()
            != image.width * image.height * BYTES_PER_PIXEL ==> (r matches Err(e) && e.message@
            == "buffer length does not match the image size"@),
        encodable(image.data@.len(), image.width as nat, image.height as nat) ==> (r matches Err(
            e,
        ) ==> e.message@ == "the encoder refused a scanline"@ || e.message@
            == "data_to_vec failed"@),
        r matches Ok(out) ==> {
            &&& encodable(image.data@.len(), image.width as nat, image.height as nat)
            &&& out@.len() > 0
            &&& out@ == jpeg_stream(
                image.data@,
                image.width as nat,
                image.height as nat,
                image.quality as int,
            )
        },
        r matches Err(e) ==> e.kind == FailureKind::Encode,
{
    let data = &image.data;
    let width: usize = image.width;
    let height: usize = image.height;
    let quality: u8 = image.quality;
    if width == 0 || height == 0 || width > MAX_JPEG_SIDE || height > MAX_JPEG_SIDE {
        return Err(encode_error("image size out of range"));
    }
    assert(width * height <= MAX_JPEG_SIDE * MAX_JPEG_SIDE) by (nonlinear_arith)
        requires
            width <= MAX_JPEG_SIDE,
            height <= MAX_JPEG_SIDE,
    ;
    let expected: u64 = width as u64 * height as u64 * 3;
    if data.len() as u64 != expected {
        return Err(encode_error("buffer length does not match the image size"));
    }
    let row_len: usize = width * 3;
    let mut comp = jpeg_new();
    jpeg_set_scan_mode_auto(&mut comp);
    jpeg_set_quality(&mut comp, quality);
    jpeg_set_size(&mut comp, width, height);
    jpeg_set_mem_dest(&mut comp);
    jpeg_set_optimize_scans(&mut comp, true);
    jpeg_start(&mut comp);
    let mut line: usize = 0;
    assert(data@.subrange(0, 0) =~= Seq::<u8>::empty());
    while line < height
        invariant
            line <= height,
            width == image.width,
            height == image.height,
            data@ == image.data@,
            1 <= width <= MAX_JPEG_SIDE,
            height <= MAX_JPEG_SIDE,
            row_len == width * 3,
            data@.len() == width * height * 3,
            width * height * 3 <= usize::MAX,
            jpeg_phase(comp) == 1,
            jpeg_plain(comp),
            jpeg_quality(comp) == quality,
            jpeg_size(comp) == (width as nat, height as nat),
            jpeg_rows(comp) == line,
            line * row_len <= data@.len(),
            jpeg_taken(comp) == data@.subrange(0, line * row_len),
        decreases height - line,
    {
        assert(height * row_len == width * height * 3) by (nonlinear_arith)
            requires
                row_len == width * 3,
        ;
        assert(0 <= line * row_len && line * row_len + row_len <= height * row_len)
            by (nonlinear_arith)
            requires
                0 <= line < height,
                0 <= row_len,
        ;
        let from: usize = line * row_len;
        let to: usize = from + row_len;
        assert(to == (line + 1) * row_len) by (nonlinear_arith)
            requires
                to == line * row_len + row_len,
        ;
        let row = slice_subrange(data.as_slice(), from, to);
        let taken = jpeg_write_scanline(&mut comp, row);
        if !taken {
            return Err(encode_error("the encoder refused a scanline"));
        }
        assert(data@.subrange(0, from as int) + data@.subrange(from as int, to as int)
            =~= data@.subrange(0, to as int));
        line = line + 1;
    }
    assert(data@.subrange(0, data@.len() as int) =~= data@);
    assert(line * row_len == data@.len()) by (nonlinear_arith)
        requires
            line == height,
            row_len == width * 3,
            data@.len() == width * height * 3,
    ;
    jpeg_finish(&mut comp);
    match jpeg_data_to_vec(&mut comp) {
        Ok(out) => Ok(out),
        Err(_) => Err(encode_error("data_to_vec failed")),
    }
}

/// The size that an image of `width` by `height` pixels is resized to at
/// `scale` ten-thousandths: each side scaled and rounded down.
pub open spec fn target_size(width: nat, height: nat, scale: int) -> (int, int) {
    (scaled_side(width as int, scale), scaled_side(height as int, scale))
}

/// The target size can be produced: no side of the image is beyond
/// `MAX_RESIZE_SIDE`, no side of the target is zero, and a buffer as wide as
/// the image and as high as the target, with sixteen bytes for each pixel,
/// is within what a buffer can hold.
pub open spec fn resizable(width: nat, height: nat, scale: int) -> bool {
    &&& width <= MAX_RESIZE_SIDE
    &&& height <= MAX_RESIZE_SIDE
    &&& target_size(width, height, scale).0 >= 1
    &&& target_size(width, height, scale).1 >= 1
    &&& 16 * width * target_size(width, height, scale).1 <= isize::MAX
}

/// The image can be resized at `scale` ten-thousandths: its samples are whole
/// numbers and its size allows it.
pub open spec fn can_resize(img: DynamicImage, scale: int) -> bool {
    !image_has_float_samples(img) && resizable(image_width(img), image_height(img), scale)
}

/// `image` is `img` resized at `scale` ten-thousandths, to be encoded at
/// `quality`: each side scaled and rounded down, the pixels those of the
/// resampled image, three bytes for each.
pub open spec fn resized_from(
    img: DynamicImage,
    quality: int,
    scale: int,
    image: RawImageView,
) -> bool {
    &&& can_resize(img, scale)
    &&& image.quality == quality
    &&& image.width == scaled_side(image_width(img) as int, scale)
    &&& image.height == scaled_side(image_height(img) as int, scale)
    &&& image.data == image_rgb8(resized_image(img, image.width as nat, image.height as nat))
    &&& image.data.len() == image.width * image.height * BYTES_PER_PIXEL
}

fn resize_error(text: &str) -> (e: CompressError)
    ensures
        e.kind == FailureKind::Resize,
        e.message@ == text@,
{
    CompressError::new(FailureKind::Resize, String::from_str(text))
}

/// Resizes `img` by the factor's scale with the triangle filter and returns
/// the result as a raw RGB image that carries the factor's quality.
///
/// An image whose samples are fractions, one with a side beyond
/// `MAX_RESIZE_SIDE`, and one whose target has an empty side or does not fit
/// in memory are refused.
pub fn resize_image(img: &DynamicImage, factor: &Factor) -> (r: Result<RawImage, CompressError>)
    ensures
        match r {
            Ok(image) => resized_from(
                *img,
                factor.spec_quality(),
                factor.spec_scale(),
                image@,
            ),
            Err(e) => !can_resize(*img, factor.spec_scale()) && e.kind
                == FailureKind::Resize,
        },
{
    let format = format_of_image(img);
    match format {
        SampleFormat::Rgb32F | SampleFormat::Rgba32F | SampleFormat::Other => {
            return Err(resize_error("the image holds samples that are not whole numbers"));
        },
        _ => {},
    }
    let width: u32 = width_of_image(img);
    let height: u32 = height_of_image(img);
    if width > MAX_RESIZE_SIDE || height > MAX_RESIZE_SIDE {
        return Err(resize_error("the image is too large to resize"));
    }
    let target_width: u32 = factor.target_side(width);
    let target_height: u32 = factor.target_side(height);
    if target_width == 0 || target_height == 0 {
        return Err(resize_error("the resized image would be empty"));
    }
    assert(width * target_height <= 0xFFFF_FFFF * 0xFFFF_FFFF) by (nonlinear_arith)
        requires
            width <= 0xFFFF_FFFF,
            target_height <= 0xFFFF_FFFF,
    ;
    let area: u64 = width as u64 * target_height as u64;
    assert(16 * width * target_height == 16 * area) by (nonlinear_arith)
        requires
            area == width * target_height,
    ;
    if area > (isize::MAX / 16) as u64 {
        return Err(resize_error("the resized image would not fit in memory"));
    }
    assert(3 * target_width * target_height <= 16 * area) by (nonlinear_arith)
        requires
            target_width <= width,
            area == width * target_height,
    ;
    let resized = resize_exact(img, target_width, target_height);
    let data = to_rgb8(&resized);
    assert(3 * target_width * target_height == target_width * target_height * 3)
        by (nonlinear_arith);
    Ok(
        RawImage {
            data,
            width: target_width as usize,
            height: target_height as usize,
            quality: factor.quality(),
        },
    )
}

/// The width and height of a decoded image.
pub fn image_size(img: &DynamicImage) -> (size: (u32, u32))
    ensures
        size.0 == image_width(*img),
        size.1 == image_height(*img),
{
    (width_of_image(img), height_of_image(img))
}

/// The text of a failure of the image crate, under `kind`.
fn image_error(kind: FailureKind, e: &ImageError) -> (r: CompressError)
    ensures
        r.kind == kind,
{
    CompressError::new(kind, e.to_string())
}

/// Whether `bytes` decode as the format that `extension` stands for.
pub open spec fn decodes_as(bytes: Seq<u8>, extension: Seq<char>) -> bool {
    match extension_format(extension) {
        Some(format) => decodes(bytes, format),
        None => false,
    }
}

/// The image that `bytes` decode to as the format that `extension` stands
/// for.
pub open spec fn decoded_as(bytes: Seq<u8>, extension: Seq<char>) -> DynamicImage {
    decoded_image(bytes, extension_format(extension).unwrap())
}

/// Decodes an image file held in memory as the format that the extension of
/// its name stands for. An extension that stands for no format, and bytes
/// that are not of the format, are failures of decoding. What is read as
/// `jpg` never has samples that are fractions.
pub fn decode_image(bytes: &[u8], extension: &str) -> (r: Result<DynamicImage, CompressError>)
    ensures
        r is Ok <==> decodes_as(bytes@, extension@),
        r matches Ok(img) ==> img == decoded_as(bytes@, extension@),
        r matches Ok(img) ==> (extension_format(extension@) == extension_format("jpg"@)
            ==> !image_has_float_samples(img)),
        r matches Err(e) ==> e.kind == FailureKind::Decode,
{
    match format_from_extension(extension) {
        Some(format) => match load_with_format(bytes, format) {
            Ok(img) => Ok(img),
            Err(e) => Err(image_error(FailureKind::Decode, &e)),
        },
        None => Err(
            CompressError::new(
                FailureKind::Decode,
                String::from_str("The image format could not be determined"),
            ),
        ),
    }
}

/// Converts an image file held in memory to a JPEG file at
/// `CONVERT_QUALITY`: decodes it as the format that `extension` stands for
/// and writes it anew.
pub fn convert_image(bytes: &[u8], extension: &str) -> (r: Result<Vec<u8>, CompressError>)
    ensures
        r is Ok <==> decodes_as(bytes@, extension@) && writes_as_jpeg(
            decoded_as(bytes@, extension@),
            CONVERT_QUALITY as int,
        ),
        r matches Ok(out) ==> out@ == image_as_jpeg(
            decoded_as(bytes@, extension@),
            CONVERT_QUALITY as int,
        ),
        r matches Err(e) ==> e.kind == (if decodes_as(bytes@, extension@) {
            FailureKind::Encode
        } else {
            FailureKind::Decode
        }),
{
    let img = match decode_image(bytes, extension) {
        Ok(img) => img,
        Err(e) => {
            return Err(e);
        },
    };
    match write_jpeg(&img, CONVERT_QUALITY) {
        Ok(out) => Ok(out),
        Err(e) => Err(image_error(FailureKind::Encode, &e)),
    }
}

} // verus!
