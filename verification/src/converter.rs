use vstd::prelude::*;
use crate::config::{BitDepthArg, ColorSpaceArg, Config, RotateArg};
use crate::float_bits::F32_HUNDRED;
use crate::error::ConversionError;
use crate::picture::{
    clear_exif_orientation, decode_image, exif_chunk, spec_decode_image, spec_decode_message,
    spec_exif_chunk, spec_exif_without_orientation, spec_image_dimensions, spec_image_format,
    spec_image_pixels,
};
use crate::raw_decoder::{
    RawOrientation, spec_orientation_code, spec_raw_decode_message, spec_raw_decode_orientation, RawDecoder,
};
use crate::exif::{
    exif_display_dims, exif_display_point, lemma_auto_rotation_shows_upright,
    lemma_exif_orientation_meanings, lemma_manual_rotation_moves, ops_dims, ops_point, orient_image, transformed_by, spec_manual_transform, spec_orientation_transform,
    transform_ops, ImageOp,
};
use crate::picture::{
    exif_orientation, image_dims, image_format, in_image, is_high_depth, pixel_at,
    spec_exif_orientation, spec_is_high_depth, PixelFormat,
};
use image::DynamicImage;

verus! {

/// The encoding settings of a conversion, taken from the configuration.
/// `quality` and `alpha_quality` hold `f32` bit patterns.
pub struct Converter {
    pub quality: u32,
    pub alpha_quality: u32,
    pub speed: u8,
    pub color_space: ColorSpaceArg,
    pub bit_depth: BitDepthArg,
    pub lossless: bool,
    pub discard_if_larger: bool,
    pub keep_metadata: bool,
    pub quiet: bool,
    pub verbose: bool,
}

/// The colour model in which the AV1 encoder works internally.
#[derive(Clone, Copy, Debug, PartialEq, Eq, Structural)]
pub enum EncoderColorModel {
    YCbCr,
    Rgb,
}

/// A bit depth that the AV1 encoder is told to use.
#[derive(Clone, Copy, Debug, PartialEq, Eq, Structural)]
pub enum EncoderBitDepth {
    Eight,
    Ten,
}

/// What the AV1 encoder is set to. `quality` and `alpha_quality` hold `f32`
/// bit patterns; `bit_depth` is `None` where the encoder keeps its default.
#[derive(Clone, Copy, Debug, PartialEq, Eq, Structural)]
pub struct EncoderSettings {
    pub quality: u32,
    pub alpha_quality: u32,
    pub speed: u8,
    pub color_model: EncoderColorModel,
    pub bit_depth: Option<EncoderBitDepth>,
}

/// The encoder settings of a converter for a source image that has more than
/// 8 bits per sample (`high_depth`) or not: full quality when lossless, the
/// configured quality otherwise; the RGB internal colour model for the RGB
/// colour space and YCbCr for the two YUV ones; 8 or 10 bits when asked for;
/// for `Auto`, 8 bits from an 8-bit source and 10 from a deeper one; the
/// encoder's default (10 bits, its deepest) for 12 bits.
pub open spec fn spec_encoder_settings(c: Converter, high_depth: bool) -> EncoderSettings {
    EncoderSettings {
        quality: if c.lossless { F32_HUNDRED } else { c.quality },
        alpha_quality: c.alpha_quality,
        speed: c.speed,
        color_model: match c.color_space {
            ColorSpaceArg::Rgb => EncoderColorModel::Rgb,
            _ => EncoderColorModel::YCbCr,
        },
        bit_depth: match c.bit_depth {
            BitDepthArg::Bit8 => Some(EncoderBitDepth::Eight),
            BitDepthArg::Bit10 => Some(EncoderBitDepth::Ten),
            BitDepthArg::Bit12 => None,
            BitDepthArg::Auto => if high_depth {
                Some(EncoderBitDepth::Ten)
            } else {
                Some(EncoderBitDepth::Eight)
            },
        },
    }
}

/// The EXIF chunk that a converter embeds in the AVIF file made from the
/// encoded bytes `source`: none unless it keeps metadata or where the source
/// carries none; else the source's chunk, with its Orientation tag reset
/// wherever the rotation setting lets the converter turn the image (all but
/// `NoRotation`), so that a viewer does not turn the image a second time.
pub open spec fn spec_metadata_to_keep(c: Converter, source: Seq<u8>, rotate: RotateArg) -> Option<
    Seq<u8>,
> {
    if !c.keep_metadata {
        None
    } else {
        match spec_exif_chunk(source) {
            None => None,
            Some(chunk) => Some(
                if rotate == RotateArg::NoRotation {
                    chunk
                } else {
                    spec_exif_without_orientation(chunk)
                },
            ),
        }
    }
}

/// What goes into the AV1 encoder for one input: the image upright as the
/// rotation setting asks, the encoder settings, and the EXIF chunk to embed.
pub struct EncodeJob {
    pub image: DynamicImage,
    pub settings: EncoderSettings,
    pub exif: Option<Vec<u8>>,
}

/// The orientation value that encoded image bytes carry: the one their
/// decoder reports, 1 where it reports none.
pub open spec fn spec_source_orientation(source: Seq<u8>) -> u16 {
    match spec_exif_orientation(source) {
        Some(v) => v as u16,
        None => 1,
    }
}

/// The moves that a rotation setting makes of an image decoded from the
/// encoded bytes `source`: `Auto` follows the orientation the bytes carry.
pub open spec fn rotation_ops(rotate: RotateArg, source: Seq<u8>) -> Seq<ImageOp> {
    if rotate == RotateArg::Auto {
        transform_ops(spec_orientation_transform(spec_source_orientation(source)))
    } else {
        transform_ops(spec_manual_transform(rotate))
    }
}

/// The moves that a rotation setting makes of an image developed from the
/// raw-file bytes `source`, which decode: `Auto` follows the orientation the
/// raw file records.
pub open spec fn raw_rotation_ops(rotate: RotateArg, source: Seq<u8>) -> Seq<ImageOp> {
    if rotate == RotateArg::Auto {
        transform_ops(
            spec_orientation_transform(
                spec_orientation_code(spec_raw_decode_orientation(source)->Some_0),
            ),
        )
    } else {
        transform_ops(spec_manual_transform(rotate))
    }
}

/// Under `Auto`, an image decoded from `source` is moved as the EXIF meaning
/// of the orientation that the decoder reports says: each stored pixel lands
/// where that orientation displays it, and the image takes the displayed
/// dimensions. In particular orientation 6 is a quarter turn clockwise, 8 a
/// quarter turn counter-clockwise and 3 a half turn. Where the decoder
/// reports none, the image stays as it is.
pub proof fn lemma_auto_rotation_follows_exif(source: Seq<u8>, w: int, h: int, x: int, y: int)
    ensures
        ({
            let v = spec_exif_orientation(source)->Some_0;
            spec_exif_orientation(source) is Some && 1 <= v <= 8 ==> {
                &&& ops_point(rotation_ops(RotateArg::Auto, source), w, h, x, y)
                    == exif_display_point(v as u16, w, h, x, y)
                &&& ops_dims(rotation_ops(RotateArg::Auto, source), w, h) == exif_display_dims(
                    v as u16,
                    w,
                    h,
                )
            }
        }),
        spec_exif_orientation(source) == Some(6u8) ==> {
            &&& ops_point(rotation_ops(RotateArg::Auto, source), w, h, x, y) == (h - 1 - y, x)
            &&& ops_dims(rotation_ops(RotateArg::Auto, source), w, h) == (h, w)
        },
        spec_exif_orientation(source) == Some(8u8) ==> {
            &&& ops_point(rotation_ops(RotateArg::Auto, source), w, h, x, y) == (y, w - 1 - x)
            &&& ops_dims(rotation_ops(RotateArg::Auto, source), w, h) == (h, w)
        },
        spec_exif_orientation(source) == Some(3u8) ==> {
            &&& ops_point(rotation_ops(RotateArg::Auto, source), w, h, x, y) == (w - 1 - x, h - 1 - y)
            &&& ops_dims(rotation_ops(RotateArg::Auto, source), w, h) == (w, h)
        },
        spec_exif_orientation(source) is None ==> {
            &&& ops_point(rotation_ops(RotateArg::Auto, source), w, h, x, y) == (x, y)
            &&& ops_dims(rotation_ops(RotateArg::Auto, source), w, h) == (w, h)
        },
{
    match spec_exif_orientation(source) {
        Some(v) => {
            if 1 <= v <= 8 {
                lemma_auto_rotation_shows_upright(v as u16, w, h, x, y);
            }
        },
        None => {
            lemma_auto_rotation_shows_upright(1, w, h, x, y);
        },
    }
}

/// Where the stored pixel at `(x, y)` of a `w` x `h` image belongs upright,
/// by the name of the orientation that a raw file records: a flip mirrors,
/// `Rotate90` is a quarter turn clockwise, `Rotate270` counter-clockwise,
/// `Transpose` mirrors along the main diagonal and `Transverse` along the
/// other; `Normal` and an unknown orientation leave the pixel where it is.
pub open spec fn raw_orientation_place(o: RawOrientation, w: int, h: int, x: int, y: int) -> (int, int) {
    match o {
        RawOrientation::Normal | RawOrientation::Unknown => (x, y),
        RawOrientation::HorizontalFlip => (w - 1 - x, y),
        RawOrientation::Rotate180 => (w - 1 - x, h - 1 - y),
        RawOrientation::VerticalFlip => (x, h - 1 - y),
        RawOrientation::Transpose => (y, x),
        RawOrientation::Rotate90 => (h - 1 - y, x),
        RawOrientation::Transverse => (h - 1 - y, w - 1 - x),
        RawOrientation::Rotate270 => (y, w - 1 - x),
    }
}

/// Whether a raw orientation swaps width and height.
pub open spec fn raw_orientation_turns(o: RawOrientation) -> bool {
    match o {
        RawOrientation::Transpose | RawOrientation::Rotate90 | RawOrientation::Transverse
        | RawOrientation::Rotate270 => true,
        _ => false,
    }
}

/// Each rotation setting moves the pixels of the image as it says, for a
/// decoded image and for one developed from a raw file alike: the manual
/// rotations turn clockwise by their angle and `NoRotation` leaves the
/// image as it is; under `Auto` a raw image is moved as the orientation its
/// file records is named.
pub proof fn lemma_rotation_settings_move(source: Seq<u8>, w: int, h: int, x: int, y: int)
    ensures
        ops_point(rotation_ops(RotateArg::Rotate90, source), w, h, x, y) == (h - 1 - y, x),
        ops_point(raw_rotation_ops(RotateArg::Rotate90, source), w, h, x, y) == (h - 1 - y, x),
        ops_dims(rotation_ops(RotateArg::Rotate90, source), w, h) == (h, w),
        ops_dims(raw_rotation_ops(RotateArg::Rotate90, source), w, h) == (h, w),
        ops_point(rotation_ops(RotateArg::Rotate180, source), w, h, x, y) == (w - 1 - x, h - 1 - y),
        ops_point(raw_rotation_ops(RotateArg::Rotate180, source), w, h, x, y) == (w - 1 - x, h - 1 - y),
        ops_dims(rotation_ops(RotateArg::Rotate180, source), w, h) == (w, h),
        ops_dims(raw_rotation_ops(RotateArg::Rotate180, source), w, h) == (w, h),
        ops_point(rotation_ops(RotateArg::Rotate270, source), w, h, x, y) == (y, w - 1 - x),
        ops_point(raw_rotation_ops(RotateArg::Rotate270, source), w, h, x, y) == (y, w - 1 - x),
        ops_dims(rotation_ops(RotateArg::Rotate270, source), w, h) == (h, w),
        ops_dims(raw_rotation_ops(RotateArg::Rotate270, source), w, h) == (h, w),
        ops_point(rotation_ops(RotateArg::NoRotation, source), w, h, x, y) == (x, y),
        ops_point(raw_rotation_ops(RotateArg::NoRotation, source), w, h, x, y) == (x, y),
        ops_dims(rotation_ops(RotateArg::NoRotation, source), w, h) == (w, h),
        ops_dims(raw_rotation_ops(RotateArg::NoRotation, source), w, h) == (w, h),
        spec_raw_decode_orientation(source) is Some ==> {
            let o = spec_raw_decode_orientation(source)->Some_0;
            &&& ops_point(raw_rotation_ops(RotateArg::Auto, source), w, h, x, y) == raw_orientation_place(
                o,
                w,
                h,
                x,
                y,
            )
            &&& ops_dims(raw_rotation_ops(RotateArg::Auto, source), w, h) == (if raw_orientation_turns(o) {
                (h, w)
            } else {
                (w, h)
            })
        },
{
    lemma_manual_rotation_moves(w, h, x, y);
    lemma_exif_orientation_meanings(w, h, x, y);
    if spec_raw_decode_orientation(source) is Some {
        let o = spec_raw_decode_orientation(source)->Some_0;
        lemma_auto_rotation_shows_upright(spec_orientation_code(o), w, h, x, y);
    }
}

/// Metadata is embedded only when asked for, and only what the source
/// carries: the source's own EXIF chunk, as it is when the image is not
/// turned (`NoRotation`), with its Orientation tag reset under every other
/// setting; a source without EXIF data gives none.
pub proof fn lemma_metadata_comes_from_source(c: Converter, source: Seq<u8>, rotate: RotateArg)
    ensures
        !c.keep_metadata ==> spec_metadata_to_keep(c, source, rotate) is None,
        spec_exif_chunk(source) is None ==> spec_metadata_to_keep(c, source, rotate) is None,
        c.keep_metadata && rotate == RotateArg::NoRotation ==> spec_metadata_to_keep(c, source, rotate)
            == spec_exif_chunk(source),
        c.keep_metadata && rotate != RotateArg::NoRotation && spec_exif_chunk(source) is Some
            ==> spec_metadata_to_keep(c, source, rotate) == Some(
            spec_exif_without_orientation(spec_exif_chunk(source)->Some_0),
        ),
{
}

/// The encoder settings follow the configuration: an explicit bit depth is
/// used whatever the source (8 and 10 bits as asked; 12 bits, which the
/// encoder cannot give, leaves its default), and `Auto` gives 8 bits for an
/// 8-bit source and 10 for a deeper one; the RGB colour space, and only it,
/// encodes in the RGB model, the YUV ones in YCbCr; lossless encodes at full
/// quality, otherwise at the configured quality; alpha quality and speed are
/// the configured ones.
pub proof fn lemma_encoder_settings_follow_config(c: Converter, high_depth: bool)
    ensures
        c.bit_depth == BitDepthArg::Bit8 ==> spec_encoder_settings(c, high_depth).bit_depth == Some(
            EncoderBitDepth::Eight,
        ),
        c.bit_depth == BitDepthArg::Bit10 ==> spec_encoder_settings(c, high_depth).bit_depth == Some(
            EncoderBitDepth::Ten,
        ),
        c.bit_depth == BitDepthArg::Bit12 ==> spec_encoder_settings(c, high_depth).bit_depth is None,
        c.bit_depth != BitDepthArg::Auto ==> spec_encoder_settings(c, true).bit_depth
            == spec_encoder_settings(c, false).bit_depth,
        c.bit_depth == BitDepthArg::Auto ==> spec_encoder_settings(c, false).bit_depth == Some(
            EncoderBitDepth::Eight,
        ) && spec_encoder_settings(c, true).bit_depth == Some(EncoderBitDepth::Ten),
        (spec_encoder_settings(c, high_depth).color_model == EncoderColorModel::Rgb) == (c.color_space
            == ColorSpaceArg::Rgb),
        (spec_encoder_settings(c, high_depth).color_model == EncoderColorModel::YCbCr) == (
        c.color_space == ColorSpaceArg::Yuv420 || c.color_space == ColorSpaceArg::Yuv444),
        spec_encoder_settings(c, high_depth).quality == (if c.lossless {
            F32_HUNDRED
        } else {
            c.quality
        }),
        spec_encoder_settings(c, high_depth).alpha_quality == c.alpha_quality,
        spec_encoder_settings(c, high_depth).speed == c.speed,
{
}

/// Whether `r` is the decoded picture `p` (width, height, pixel format,
/// pixels) moved by `ops`: its dimensions and format, and each pixel of `p`
/// at the place the moves take it.
pub open spec fn picture_moved(p: (u32, u32, PixelFormat, Seq<Seq<u8>>), r: DynamicImage, ops: Seq<ImageOp>) -> bool {
    let w = p.0 as int;
    let h = p.1 as int;
    &&& image_dims(r) == ops_dims(ops, w, h)
    &&& spec_image_format(r) == p.2
    &&& forall|x: int, y: int|
        in_image(w, h, x, y) ==> pixel_at(r, ops_point(ops, w, h, x, y).0, ops_point(ops, w, h, x, y).1)
            == #[trigger] p.3[y * w + x]
}

/// In lossless mode the configured quality plays no part: two converters that
/// differ only in their quality get the same encoder settings.
pub proof fn lemma_lossless_ignores_quality(a: Converter, b: Converter)
    requires
        a.lossless,
        b == (Converter { quality: b.quality, ..a }),
    ensures
        forall|high_depth: bool|
            spec_encoder_settings(a, high_depth) == spec_encoder_settings(b, high_depth)
                && #[trigger] spec_encoder_settings(a, high_depth).quality == F32_HUNDRED,
{
}

impl Converter {
    /// The converter made from a configuration.
    pub open spec fn from_config_spec(config: Config) -> Converter {
        Converter {
            quality: config.quality,
            alpha_quality: config.alpha_quality,
            speed: config.speed,
            color_space: config.color_space,
            bit_depth: config.bit_depth,
            lossless: config.lossless,
            discard_if_larger: config.discard_if_larger,
            keep_metadata: config.keep_metadata,
            quiet: config.quiet,
            verbose: config.verbose,
        }
    }

    /// Takes the encoding settings out of a configuration.
    pub fn from_config(config: &Config) -> (r: Converter)
        ensures
            r == Converter::from_config_spec(*config),
    {
        Converter {
            quality: config.quality,
            alpha_quality: config.alpha_quality,
            speed: config.speed,
            color_space: config.color_space,
            bit_depth: config.bit_depth,
            lossless: config.lossless,
            discard_if_larger: config.discard_if_larger,
            keep_metadata: config.keep_metadata,
            quiet: config.quiet,
            verbose: config.verbose,
        }
    }

    /// The settings to give the AV1 encoder for a source image with more
    /// than 8 bits per sample (`high_depth`) or not.
    pub fn encoder_settings(&self, high_depth: bool) -> (r: EncoderSettings)
        ensures
            r == spec_encoder_settings(*self, high_depth),
    {
        let quality = if self.lossless {
            F32_HUNDRED
        } else {
            self.quality
        };
        let bit_depth = match self.bit_depth {
            BitDepthArg::Bit8 => Some(EncoderBitDepth::Eight),
            BitDepthArg::Bit10 => Some(EncoderBitDepth::Ten),
            BitDepthArg::Bit12 => None,
            BitDepthArg::Auto => if high_depth {
                Some(EncoderBitDepth::Ten)
            } else {
                Some(EncoderBitDepth::Eight)
            },
        };
        let color_model = match self.color_space {
            ColorSpaceArg::Rgb => EncoderColorModel::Rgb,
            _ => EncoderColorModel::YCbCr,
        };
        EncoderSettings {
            quality,
            alpha_quality: self.alpha_quality,
            speed: self.speed,
            color_model,
            bit_depth,
        }
    }

    /// The EXIF chunk to embed in the AVIF file made from the encoded bytes
    /// `source` under the rotation setting `rotate`.
    pub fn metadata_to_keep(&self, source: &[u8], rotate: RotateArg) -> (r: Option<Vec<u8>>)
        ensures
            r is None <==> spec_metadata_to_keep(*self, source@, rotate) is None,
            r matches Some(v) ==> spec_metadata_to_keep(*self, source@, rotate) == Some(v@),
    {
        if !self.keep_metadata {
            return None;
        }
        match exif_chunk(source) {
            None => None,
            Some(chunk) => if rotate == RotateArg::NoRotation {
                Some(chunk)
            } else {
                Some(clear_exif_orientation(chunk))
            },
        }
    }

    /// Prepares the encoding of an image file's bytes: decodes them, turns
    /// the image as `rotate` asks (for `Auto`, by the orientation the bytes
    /// carry), and picks the encoder settings by the source's sample depth and
    /// the EXIF chunk to keep. An image-decoding error when the bytes are not
    /// an image.
    pub fn prepare_image(&self, source: &[u8], rotate: RotateArg) -> (r: Result<EncodeJob, ConversionError>)
        ensures
            r is Ok <==> spec_decode_image(source@) is Some,
            r matches Ok(job) ==> {
                let p = spec_decode_image(source@)->Some_0;
                &&& picture_moved(p, job.image, rotation_ops(rotate, source@))
                &&& job.settings == spec_encoder_settings(*self, spec_is_high_depth(p.2))
                &&& job.exif is None <==> spec_metadata_to_keep(*self, source@, rotate) is None
                &&& job.exif matches Some(v) ==> spec_metadata_to_keep(*self, source@, rotate) == Some(v@)
            },
            r matches Err(e) ==> e matches ConversionError::ImageDecode(m) && m@ == spec_decode_message(source@),
    {
        let img = self.load_image(source)?;
        let orientation: u16 = if rotate == RotateArg::Auto {
            match exif_orientation(source) {
                Some(v) => v as u16,
                None => 1,
            }
        } else {
            1
        };
        let image = orient_image(&img, rotate, orientation);
        let settings = self.encoder_settings(is_high_depth(image_format(&img)));
        let exif = self.metadata_to_keep(source, rotate);
        proof {
            let p = spec_decode_image(source@)->Some_0;
            let ops = rotation_ops(rotate, source@);
            let w = p.0 as int;
            let h = p.1 as int;
            assert forall|x: int, y: int| in_image(w, h, x, y) implies pixel_at(
                image,
                ops_point(ops, w, h, x, y).0,
                ops_point(ops, w, h, x, y).1,
            ) == #[trigger] p.3[y * w + x] by {
                assert(pixel_at(img, x, y) == p.3[y * w + x]);
            }
        }
        Ok(EncodeJob { image, settings, exif })
    }

    /// Prepares the encoding of a raw file, from its bytes `source` and the
    /// image `developed` from its sensor data: turns the image as `rotate`
    /// asks (for `Auto`, by the orientation the raw file records) and picks
    /// the encoder settings for a source of more than 8 bits per sample (raw
    /// sensor data is) and the EXIF chunk to keep. Under `Auto`, bytes that
    /// do not decode give the raw-decoding error with the decoder's text.
    pub fn prepare_raw_image(&self, source: &[u8], developed: &DynamicImage, rotate: RotateArg) -> (r:
        Result<EncodeJob, ConversionError>)
        ensures
            r is Err <==> (rotate == RotateArg::Auto && spec_raw_decode_orientation(source@) is None),
            r matches Err(e) ==> e matches ConversionError::RawDecode(m) && m@ == spec_raw_decode_message(source@),
            r matches Ok(job) ==> {
                &&& transformed_by(*developed, job.image, raw_rotation_ops(rotate, source@))
                &&& job.settings == spec_encoder_settings(*self, true)
                &&& job.exif is None <==> spec_metadata_to_keep(*self, source@, rotate) is None
                &&& job.exif matches Some(v) ==> spec_metadata_to_keep(*self, source@, rotate) == Some(v@)
            },
    {
        let orientation: u16 = if rotate == RotateArg::Auto {
            RawDecoder::get_raw_orientation(source)?
        } else {
            1
        };
        let image = orient_image(developed, rotate, orientation);
        let settings = self.encoder_settings(true);
        let exif = self.metadata_to_keep(source, rotate);
        Ok(EncodeJob { image, settings, exif })
    }

    /// Decodes the bytes of an image file; an image-decoding error carrying
    /// the decoder's message when they are not an image.
    pub fn load_image(&self, bytes: &[u8]) -> (r: Result<DynamicImage, ConversionError>)
        ensures
            r is Ok <==> spec_decode_image(bytes@) is Some,
            r matches Ok(img) ==> spec_decode_image(bytes@) == Some((
                spec_image_dimensions(img).0,
                spec_image_dimensions(img).1,
                spec_image_format(img),
                spec_image_pixels(img),
            )),
            r matches Err(e) ==> e matches ConversionError::ImageDecode(m) && m@ == spec_decode_message(bytes@),
    {
        match decode_image(bytes) {
            Ok(img) => Ok(img),
            Err(msg) => Err(ConversionError::ImageDecode(msg)),
        }
    }

    /// What becomes of an encoding of an original of `original_size` bytes:
    /// an encoder failure is an AVIF-encoding error with the encoder's message; a result that is thrown
    /// away for being larger gives `None`; any other result is kept.
    pub fn finish(&self, encoded: Result<Vec<u8>, String>, original_size: u64) -> (r: Result<
        Option<Vec<u8>>,
        ConversionError,
    >)
        ensures
            encoded matches Err(m) ==> r matches Err(ConversionError::AvifEncode(m2)) && m2 == m,
            encoded matches Ok(b) ==> (if self.discard_if_larger && b@.len() > original_size {
                r matches Ok(None)
            } else {
                r matches Ok(Some(kept)) && kept@ == b@
            }),
    {
        match encoded {
            Ok(b) => {
                let size = b.len() as u64;
                if self.discards(size, original_size) {
                    Ok(None)
                } else {
                    Ok(Some(b))
                }
            },
            Err(msg) => Err(ConversionError::AvifEncode(msg)),
        }
    }

    /// Whether an encoded file of `avif_size` bytes is thrown away instead of
    /// written: only when asked to, and only when it is larger than the
    /// original of `original_size` bytes.
    pub fn discards(&self, avif_size: u64, original_size: u64) -> (r: bool)
        ensures
            r == (self.discard_if_larger && avif_size > original_size),
    {
        self.discard_if_larger && avif_size > original_size
    }
}

} // verus!
