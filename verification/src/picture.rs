use vstd::prelude::*;
use image::DynamicImage;
use image::ImageDecoder;

verus! {

#[verifier::external_type_specification]
#[verifier::external_body]
pub struct ExDynamicImage(image::DynamicImage);

/// The layout of an image's pixels: its channels and the size of each sample.
#[derive(Clone, Copy, Debug, PartialEq, Eq, Structural)]
pub enum PixelFormat {
    L8,
    La8,
    Rgb8,
    Rgba8,
    L16,
    La16,
    Rgb16,
    Rgba16,
    Rgb32F,
    Rgba32F,
    /// A layout that the image library may add later.
    Other,
}

/// What `DynamicImage::dimensions` returns for an image: (width, height).
pub uninterp spec fn spec_image_dimensions(img: DynamicImage) -> (u32, u32);

/// The pixels that an image holds, row by row from the top-left one, each
/// as its bytes in the image's own sample format (the chunks of
/// `DynamicImage::as_bytes`).
pub uninterp spec fn spec_image_pixels(img: DynamicImage) -> Seq<Seq<u8>>;

/// What `DynamicImage::color` returns for an image, as a `PixelFormat`.
pub uninterp spec fn spec_image_format(img: DynamicImage) -> PixelFormat;

/// What `image::load_from_memory` makes of encoded image bytes: `None` when
/// they do not decode, else the decoded image's width, height, pixel format
/// and pixels.
pub uninterp spec fn spec_decode_image(bytes: Seq<u8>) -> Option<(u32, u32, PixelFormat, Seq<Seq<u8>>)>;

/// The text of the error (its `Display`) that `image::load_from_memory`
/// gives for encoded bytes that do not decode.
pub uninterp spec fn spec_decode_message(bytes: Seq<u8>) -> Seq<char>;

/// The EXIF orientation value (1 to 8) that the image library's decoder
/// reports for encoded image bytes (1 when they carry none), or `None` when
/// the bytes are not an image it can read.
pub uninterp spec fn spec_exif_orientation(bytes: Seq<u8>) -> Option<u8>;

/// The EXIF chunk that the image library's decoder finds in encoded image
/// bytes, or `None` when they carry none or are not an image it can read.
pub uninterp spec fn spec_exif_chunk(bytes: Seq<u8>) -> Option<Seq<u8>>;

/// An EXIF chunk with its Orientation tag set to 1 ("no transforms"), as
/// `Orientation::remove_from_exif_chunk` leaves it.
pub uninterp spec fn spec_exif_without_orientation(chunk: Seq<u8>) -> Seq<u8>;

/// The (width, height) of an image.
pub open spec fn image_dims(img: DynamicImage) -> (int, int) {
    (spec_image_dimensions(img).0 as int, spec_image_dimensions(img).1 as int)
}

/// The bytes of the pixel at column `x`, row `y`.
pub open spec fn pixel_at(img: DynamicImage, x: int, y: int) -> Seq<u8> {
    spec_image_pixels(img)[y * image_dims(img).0 + x]
}

/// Whether `(x, y)` is a pixel position of a `w` x `h` image.
pub open spec fn in_image(w: int, h: int, x: int, y: int) -> bool {
    0 <= x < w && 0 <= y < h
}

/// Whether two images show the same picture: same dimensions, same pixel
/// format, and the same bytes at every pixel position.
pub open spec fn same_picture(a: DynamicImage, b: DynamicImage) -> bool {
    &&& image_dims(a) == image_dims(b)
    &&& spec_image_format(a) == spec_image_format(b)
    &&& forall|x: int, y: int|
        in_image(image_dims(a).0, image_dims(a).1, x, y) ==> #[trigger] pixel_at(a, x, y) == pixel_at(b, x, y)
}

/// Whether an image is the picture that `spec_decode_image` gives.
pub open spec fn is_decoded_picture(img: DynamicImage, p: (u32, u32, PixelFormat, Seq<Seq<u8>>)) -> bool {
    (spec_image_dimensions(img).0, spec_image_dimensions(img).1, spec_image_format(img), spec_image_pixels(img)) == p
}

/// Whether a pixel format has an alpha channel.
pub open spec fn spec_has_alpha(f: PixelFormat) -> bool {
    match f {
        PixelFormat::La8 | PixelFormat::Rgba8 | PixelFormat::La16 | PixelFormat::Rgba16
        | PixelFormat::Rgba32F => true,
        _ => false,
    }
}

/// Whether an image has an alpha channel, and so is encoded as RGBA rather
/// than RGB.
pub fn source_has_alpha(img: &DynamicImage) -> (r: bool)
    ensures
        r == spec_has_alpha(spec_image_format(*img)),
{
    match image_format(img) {
        PixelFormat::La8 | PixelFormat::Rgba8 | PixelFormat::La16 | PixelFormat::Rgba16
        | PixelFormat::Rgba32F => true,
        _ => false,
    }
}

/// Whether a pixel format has more than 8 bits per sample.
pub open spec fn spec_is_high_depth(f: PixelFormat) -> bool {
    match f {
        PixelFormat::L8 | PixelFormat::La8 | PixelFormat::Rgb8 | PixelFormat::Rgba8 => false,
        _ => true,
    }
}

/// The size in bits of one sample of a pixel format (0 for one the library
/// does not know).
pub open spec fn sample_bits(f: PixelFormat) -> int {
    match f {
        PixelFormat::L8 | PixelFormat::La8 | PixelFormat::Rgb8 | PixelFormat::Rgba8 => 8,
        PixelFormat::L16 | PixelFormat::La16 | PixelFormat::Rgb16 | PixelFormat::Rgba16 => 16,
        PixelFormat::Rgb32F | PixelFormat::Rgba32F => 32,
        PixelFormat::Other => 0,
    }
}

/// The number of channels of a pixel format (0 for one the library does not
/// know).
pub open spec fn channel_count(f: PixelFormat) -> int {
    match f {
        PixelFormat::L8 | PixelFormat::L16 => 1,
        PixelFormat::La8 | PixelFormat::La16 => 2,
        PixelFormat::Rgb8 | PixelFormat::Rgb16 | PixelFormat::Rgb32F => 3,
        PixelFormat::Rgba8 | PixelFormat::Rgba16 | PixelFormat::Rgba32F => 4,
        PixelFormat::Other => 0,
    }
}

/// A known pixel format is deep exactly when its samples have more than 8
/// bits, and has alpha exactly when it has a channel beside its grey or its
/// red, green and blue ones.
pub proof fn lemma_format_depth_and_alpha(f: PixelFormat)
    requires
        f != PixelFormat::Other,
    ensures
        spec_is_high_depth(f) == (sample_bits(f) > 8),
        spec_has_alpha(f) == (channel_count(f) == 2 || channel_count(f) == 4),
{
}

/// Whether a pixel format has more than 8 bits per sample.
pub fn is_high_depth(f: PixelFormat) -> (r: bool)
    ensures
        r == spec_is_high_depth(f),
{
    match f {
        PixelFormat::L8 | PixelFormat::La8 | PixelFormat::Rgb8 | PixelFormat::Rgba8 => false,
        _ => true,
    }
}

/// Calls `DynamicImage::color` and tells its variants apart, one for one.
#[verifier::external_body]
pub(crate) fn image_format(img: &DynamicImage) -> (r: PixelFormat)
    ensures
        r == spec_image_format(*img),
{
    match img.color() {
        image::ColorType::L8 => PixelFormat::L8,
        image::ColorType::La8 => PixelFormat::La8,
        image::ColorType::Rgb8 => PixelFormat::Rgb8,
        image::ColorType::Rgba8 => PixelFormat::Rgba8,
        image::ColorType::L16 => PixelFormat::L16,
        image::ColorType::La16 => PixelFormat::La16,
        image::ColorType::Rgb16 => PixelFormat::Rgb16,
        image::ColorType::Rgba16 => PixelFormat::Rgba16,
        image::ColorType::Rgb32F => PixelFormat::Rgb32F,
        image::ColorType::Rgba32F => PixelFormat::Rgba32F,
        _ => PixelFormat::Other,
    }
}

/// Whether an image has more than 8 bits per sample.
pub fn source_is_high_depth(img: &DynamicImage) -> (r: bool)
    ensures
        r == spec_is_high_depth(spec_image_format(*img)),
{
    is_high_depth(image_format(img))
}

/// Calls `image::load_from_memory`, which guesses the format from the bytes
/// and decodes them; the outcome is named by `spec_decode_image`, the
/// error's text by `spec_decode_message`.
#[verifier::external_body]
pub(crate) fn decode_image(bytes: &[u8]) -> (r: Result<DynamicImage, String>)
    ensures
        r is Ok <==> spec_decode_image(bytes@) is Some,
        r matches Ok(img) ==> spec_decode_image(bytes@) == Some((
            spec_image_dimensions(img).0,
            spec_image_dimensions(img).1,
            spec_image_format(img),
            spec_image_pixels(img),
        )),
        r matches Err(m) ==> m@ == spec_decode_message(bytes@),
{
    match image::load_from_memory(bytes) {
        Ok(img) => Ok(img),
        Err(e) => Err(e.to_string()),
    }
}

/// Reads the orientation that the image library's decoder reports for
/// encoded bytes (`ImageDecoder::orientation`, as an EXIF value by
/// `Orientation::to_exif`); the outcome is named by `spec_exif_orientation`.
#[verifier::external_body]
pub(crate) fn exif_orientation(bytes: &[u8]) -> (r: Option<u8>)
    ensures
        r == spec_exif_orientation(bytes@),
{
    let reader = image::ImageReader::new(std::io::Cursor::new(bytes)).with_guessed_format().ok()?;
    let mut decoder = reader.into_decoder().ok()?;
    decoder.orientation().ok().map(|o| o.to_exif())
}

/// Reads the EXIF chunk that the image library's decoder reports for encoded
/// bytes (`ImageDecoder::exif_metadata`); a decoder error or bytes that are
/// not an image give `None`. The outcome is named by `spec_exif_chunk`.
#[verifier::external_body]
pub(crate) fn exif_chunk(bytes: &[u8]) -> (r: Option<Vec<u8>>)
    ensures
        r is None <==> spec_exif_chunk(bytes@) is None,
        r matches Some(v) ==> spec_exif_chunk(bytes@) == Some(v@),
{
    let reader = image::ImageReader::new(std::io::Cursor::new(bytes)).with_guessed_format().ok()?;
    let mut decoder = reader.into_decoder().ok()?;
    decoder.exif_metadata().ok().flatten()
}

/// Calls `Orientation::remove_from_exif_chunk`, which overwrites the value of
/// a valid Orientation tag in the chunk with 1, in place; the chunk keeps its
/// length. The outcome is named by `spec_exif_without_orientation`.
#[verifier::external_body]
pub(crate) fn clear_exif_orientation(chunk: Vec<u8>) -> (r: Vec<u8>)
    ensures
        r@ == spec_exif_without_orientation(chunk@),
        r@.len() == chunk@.len(),
{
    let mut chunk = chunk;
    let _ = image::metadata::Orientation::remove_from_exif_chunk(&mut chunk);
    chunk
}

/// Calls `DynamicImage::clone`, which copies the image: same dimensions, and the pixel at `(x, y)` stays at `(x, y)`.
/// (The image library copies each pixel, with its bytes, to that place, and
/// keeps the image's pixel format.)
#[verifier::external_body]
pub(crate) fn image_clone(img: &DynamicImage) -> (r: DynamicImage)
    ensures
        spec_image_format(r) == spec_image_format(*img),
        spec_image_dimensions(r) == spec_image_dimensions(*img),
        forall|x: int, y: int|
            #![trigger pixel_at(*img, x, y)]
            in_image(image_dims(*img).0, image_dims(*img).1, x, y) ==> pixel_at(*img, x, y) == spec_image_pixels(r)[y * image_dims(*img).0 + x],
{
    img.clone()
}

/// Calls `DynamicImage::fliph`, which mirrors the image left to right: same dimensions, and the pixel at `(x, y)` goes to `(w - 1 - x, y)`.
/// (The image library copies each pixel, with its bytes, to that place, and
/// keeps the image's pixel format.)
#[verifier::external_body]
pub(crate) fn image_fliph(img: &DynamicImage) -> (r: DynamicImage)
    ensures
        spec_image_format(r) == spec_image_format(*img),
        spec_image_dimensions(r) == spec_image_dimensions(*img),
        forall|x: int, y: int|
            #![trigger pixel_at(*img, x, y)]
            in_image(image_dims(*img).0, image_dims(*img).1, x, y) ==> pixel_at(*img, x, y) == spec_image_pixels(r)[y * image_dims(*img).0 + (image_dims(*img).0 - 1 - x)],
{
    img.fliph()
}

/// Calls `DynamicImage::flipv`, which mirrors the image top to bottom: same dimensions, and the pixel at `(x, y)` goes to `(x, h - 1 - y)`.
/// (The image library copies each pixel, with its bytes, to that place, and
/// keeps the image's pixel format.)
#[verifier::external_body]
pub(crate) fn image_flipv(img: &DynamicImage) -> (r: DynamicImage)
    ensures
        spec_image_format(r) == spec_image_format(*img),
        spec_image_dimensions(r) == spec_image_dimensions(*img),
        forall|x: int, y: int|
            #![trigger pixel_at(*img, x, y)]
            in_image(image_dims(*img).0, image_dims(*img).1, x, y) ==> pixel_at(*img, x, y) == spec_image_pixels(r)[(image_dims(*img).1 - 1 - y) * image_dims(*img).0 + x],
{
    img.flipv()
}

/// Calls `DynamicImage::rotate90`, which turns the image a quarter clockwise: the result is `h` wide and `w` high, and the pixel at `(x, y)` goes to `(h - 1 - y, x)`.
/// (The image library copies each pixel, with its bytes, to that place, and
/// keeps the image's pixel format.)
#[verifier::external_body]
pub(crate) fn image_rotate90(img: &DynamicImage) -> (r: DynamicImage)
    ensures
        spec_image_format(r) == spec_image_format(*img),
        spec_image_dimensions(r) == (spec_image_dimensions(*img).1, spec_image_dimensions(*img).0),
        forall|x: int, y: int|
            #![trigger pixel_at(*img, x, y)]
            in_image(image_dims(*img).0, image_dims(*img).1, x, y) ==> pixel_at(*img, x, y) == spec_image_pixels(r)[x * image_dims(*img).1 + (image_dims(*img).1 - 1 - y)],
{
    img.rotate90()
}

/// Calls `DynamicImage::rotate180`, which turns the image half round: same dimensions, and the pixel at `(x, y)` goes to `(w - 1 - x, h - 1 - y)`.
/// (The image library copies each pixel, with its bytes, to that place, and
/// keeps the image's pixel format.)
#[verifier::external_body]
pub(crate) fn image_rotate180(img: &DynamicImage) -> (r: DynamicImage)
    ensures
        spec_image_format(r) == spec_image_format(*img),
        spec_image_dimensions(r) == spec_image_dimensions(*img),
        forall|x: int, y: int|
            #![trigger pixel_at(*img, x, y)]
            in_image(image_dims(*img).0, image_dims(*img).1, x, y) ==> pixel_at(*img, x, y) == spec_image_pixels(r)[(image_dims(*img).1 - 1 - y) * image_dims(*img).0 + (image_dims(*img).0 - 1 - x)],
{
    img.rotate180()
}

/// Calls `DynamicImage::rotate270`, which turns the image three quarters clockwise: the result is `h` wide and `w` high, and the pixel at `(x, y)` goes to `(y, w - 1 - x)`.
/// (The image library copies each pixel, with its bytes, to that place, and
/// keeps the image's pixel format.)
#[verifier::external_body]
pub(crate) fn image_rotate270(img: &DynamicImage) -> (r: DynamicImage)
    ensures
        spec_image_format(r) == spec_image_format(*img),
        spec_image_dimensions(r) == (spec_image_dimensions(*img).1, spec_image_dimensions(*img).0),
        forall|x: int, y: int|
            #![trigger pixel_at(*img, x, y)]
            in_image(image_dims(*img).0, image_dims(*img).1, x, y) ==> pixel_at(*img, x, y) == spec_image_pixels(r)[(image_dims(*img).0 - 1 - x) * image_dims(*img).1 + y],
{
    img.rotate270()
}

} // verus!
