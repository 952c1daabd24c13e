use img2avif::picture::source_has_alpha;
use img2avif::config::{BitDepthArg, ColorSpaceArg, Config, RotateArg};
use img2avif::error::ConversionError;
use img2avif::converter::{Converter, EncoderBitDepth, EncoderColorModel};

fn config() -> Config {
    Config {
        input: Some("a.png".to_string()),
        directory: None,
        recursive_dir: None,
        output: None,
        delete_original: true,
        quality: 75.0f32.to_bits(),
        alpha_quality: 60.0f32.to_bits(),
        speed: 6,
        color_space: ColorSpaceArg::Rgb,
        bit_depth: BitDepthArg::Bit10,
        lossless: false,
        discard_if_larger: true,
        keep_metadata: true,
        quiet: true,
        verbose: false,
        rotate: RotateArg::Auto,
        raw_exposure: "auto".to_string(),
        raw_percentile: 0.95f32.to_bits(),
        raw_saturation: "auto".to_string(),
        raw_contrast: 1.0f32.to_bits(),
    }
}

#[test]
fn converter_takes_config_settings() {
    let c = Converter::from_config(&config());
    assert_eq!(c.quality, 75.0f32.to_bits());
    assert_eq!(c.alpha_quality, 60.0f32.to_bits());
    assert_eq!(c.speed, 6);
    assert_eq!(c.color_space, ColorSpaceArg::Rgb);
    assert_eq!(c.bit_depth, BitDepthArg::Bit10);
    assert!(!c.lossless && c.discard_if_larger && c.keep_metadata && c.quiet && !c.verbose);
}

#[test]
fn encoder_settings_follow_config() {
    let s = Converter::from_config(&config()).encoder_settings(false);
    assert_eq!(s.quality, 75.0f32.to_bits());
    assert_eq!(s.alpha_quality, 60.0f32.to_bits());
    assert_eq!(s.speed, 6);
    assert_eq!(s.color_model, EncoderColorModel::Rgb);
    assert_eq!(s.bit_depth, Some(EncoderBitDepth::Ten));
    assert_eq!(Converter::from_config(&config()).encoder_settings(true), s);
}

#[test]
fn lossless_uses_full_quality() {
    let mut cfg = config();
    cfg.lossless = true;
    cfg.bit_depth = BitDepthArg::Bit8;
    let s = Converter::from_config(&cfg).encoder_settings(false);
    assert_eq!(f32::from_bits(s.quality), 100.0);
    assert_eq!(s.bit_depth, Some(EncoderBitDepth::Eight));
    cfg.bit_depth = BitDepthArg::Bit12;
    assert_eq!(Converter::from_config(&cfg).encoder_settings(false).bit_depth, None);
    cfg.bit_depth = BitDepthArg::Auto;
    assert_eq!(Converter::from_config(&cfg).encoder_settings(false).bit_depth, Some(EncoderBitDepth::Eight));
    assert_eq!(Converter::from_config(&cfg).encoder_settings(true).bit_depth, Some(EncoderBitDepth::Ten));
}

#[test]
fn discarding_larger_results() {
    let c = Converter::from_config(&config());
    assert!(c.discards(1001, 1000));
    assert!(!c.discards(1000, 1000));
    assert_eq!(c.finish(Ok(vec![1, 2, 3]), 2), Ok(None));
    assert_eq!(c.finish(Ok(vec![1, 2, 3]), 3), Ok(Some(vec![1, 2, 3])));
    assert!(matches!(c.finish(Err("no".to_string()), 3), Err(ConversionError::AvifEncode(_))));
    assert!(!c.discards(10, 1000));
    let mut cfg = config();
    cfg.discard_if_larger = false;
    assert!(!Converter::from_config(&cfg).discards(5000, 1));
}

#[test]
fn lossless_ignores_quality() {
    let mut a = config();
    a.lossless = true;
    a.quality = 10.0f32.to_bits();
    let mut b = config();
    b.lossless = true;
    b.quality = 90.0f32.to_bits();
    assert_eq!(
        Converter::from_config(&a).encoder_settings(false),
        Converter::from_config(&b).encoder_settings(false)
    );
}

#[test]
fn yuv_colour_spaces_use_ycbcr() {
    let mut cfg = config();
    for (space, model) in [(ColorSpaceArg::Yuv420, EncoderColorModel::YCbCr), (ColorSpaceArg::Yuv444, EncoderColorModel::YCbCr), (ColorSpaceArg::Rgb, EncoderColorModel::Rgb)] {
        cfg.color_space = space;
        assert_eq!(Converter::from_config(&cfg).encoder_settings(false).color_model, model);
    }
}

#[test]
fn images_load_from_bytes() {
    let c = Converter::from_config(&config());
    let mut png = Vec::new();
    image::DynamicImage::new_rgb8(3, 2)
        .write_to(&mut std::io::Cursor::new(&mut png), image::ImageFormat::Png)
        .unwrap();
    let img = c.load_image(&png).unwrap();
    assert_eq!((img.width(), img.height()), (3, 2));
    assert!(matches!(c.load_image(b"not an image"), Err(ConversionError::ImageDecode(_))));
}

/// A small JPEG whose EXIF block records orientation `o`.
fn jpeg_with_exif_orientation(o: u8) -> (Vec<u8>, Vec<u8>) {
    let img = image::DynamicImage::ImageRgb8(image::RgbImage::new(4, 2));
    let mut jpg = Vec::new();
    img.write_to(&mut std::io::Cursor::new(&mut jpg), image::ImageFormat::Jpeg).unwrap();
    // Big-endian TIFF with one IFD entry: tag 0x0112 SHORT 1 = o.
    let tiff: Vec<u8> = vec![
        b'M', b'M', 0, 42, 0, 0, 0, 8, 0, 1, 0x01, 0x12, 0, 3, 0, 0, 0, 1, 0, o, 0, 0, 0, 0, 0, 0,
    ];
    let mut payload = b"Exif\0\0".to_vec();
    payload.extend_from_slice(&tiff);
    let len = (payload.len() + 2) as u16;
    let mut out = vec![0xFF, 0xD8, 0xFF, 0xE1, (len >> 8) as u8, (len & 0xff) as u8];
    out.extend_from_slice(&payload);
    out.extend_from_slice(&jpg[2..]);
    (out, tiff)
}

#[test]
fn metadata_kept_only_when_asked() {
    let (jpg, _) = jpeg_with_exif_orientation(6);
    let mut cfg = config();
    cfg.keep_metadata = false;
    let c = Converter::from_config(&cfg);
    assert_eq!(c.metadata_to_keep(&jpg, RotateArg::Auto), None);
}

#[test]
fn metadata_kept_with_orientation_reset_after_turning() {
    let (jpg, tiff) = jpeg_with_exif_orientation(6);
    let c = Converter::from_config(&config());
    let kept = c.metadata_to_keep(&jpg, RotateArg::Auto).unwrap();
    assert_eq!(kept.len(), tiff.len());
    assert_eq!(image::metadata::Orientation::from_exif_chunk(&kept), Some(image::metadata::Orientation::NoTransforms));
    let mut expected = tiff.clone();
    expected[19] = 1;
    assert_eq!(kept, expected);
    let turned = c.metadata_to_keep(&jpg, RotateArg::Rotate90).unwrap();
    assert_eq!(turned, expected);
}

#[test]
fn metadata_kept_unchanged_without_rotation() {
    let (jpg, tiff) = jpeg_with_exif_orientation(6);
    let c = Converter::from_config(&config());
    assert_eq!(c.metadata_to_keep(&jpg, RotateArg::NoRotation), Some(tiff));
}

#[test]
fn metadata_absent_from_plain_image() {
    let img = image::DynamicImage::ImageRgb8(image::RgbImage::new(2, 2));
    let mut png = Vec::new();
    img.write_to(&mut std::io::Cursor::new(&mut png), image::ImageFormat::Png).unwrap();
    let c = Converter::from_config(&config());
    assert_eq!(c.metadata_to_keep(&png, RotateArg::Auto), None);
    assert_eq!(c.metadata_to_keep(b"not an image", RotateArg::Auto), None);
}

#[test]
fn prepared_image_turned_and_settings_picked() {
    let mut src = image::RgbImage::new(3, 2);
    for y in 0..2 {
        for x in 0..3 {
            src.put_pixel(x, y, image::Rgb([x as u8 * 40, y as u8 * 90, 7]));
        }
    }
    let mut png = Vec::new();
    image::DynamicImage::ImageRgb8(src.clone())
        .write_to(&mut std::io::Cursor::new(&mut png), image::ImageFormat::Png)
        .unwrap();
    let mut cfg = config();
    cfg.bit_depth = BitDepthArg::Auto;
    cfg.keep_metadata = false;
    let c = Converter::from_config(&cfg);
    let job = c.prepare_image(&png, RotateArg::Rotate90).unwrap();
    assert_eq!((job.image.width(), job.image.height()), (2, 3));
    let out = job.image.to_rgb8();
    for y in 0..2u32 {
        for x in 0..3u32 {
            // 90 degrees clockwise: (x, y) goes to (h - 1 - y, x).
            assert_eq!(out.get_pixel(1 - y, x), src.get_pixel(x, y));
        }
    }
    assert_eq!(job.settings.bit_depth, Some(EncoderBitDepth::Eight));
    assert_eq!(job.exif, None);
    let same = c.prepare_image(&png, RotateArg::NoRotation).unwrap();
    assert_eq!(same.image.to_rgb8(), src);
}

#[test]
fn prepared_image_follows_exif_orientation() {
    let (jpg, _) = jpeg_with_exif_orientation(6);
    let c = Converter::from_config(&config());
    let job = c.prepare_image(&jpg, RotateArg::Auto).unwrap();
    assert_eq!((job.image.width(), job.image.height()), (2, 4));
    assert!(job.exif.is_some());
    let kept = c.prepare_image(&jpg, RotateArg::NoRotation).unwrap();
    assert_eq!((kept.image.width(), kept.image.height()), (4, 2));
    assert!(matches!(c.prepare_image(b"junk", RotateArg::Auto), Err(ConversionError::ImageDecode(_))));
}

#[test]
fn alpha_channel_detected() {
    assert!(source_has_alpha(&image::DynamicImage::new_rgba8(1, 1)));
    assert!(source_has_alpha(&image::DynamicImage::new_luma_a8(1, 1)));
    assert!(!source_has_alpha(&image::DynamicImage::new_rgb8(1, 1)));
    assert!(!source_has_alpha(&image::DynamicImage::new_rgb16(1, 1)));
}

#[test]
fn errors_carry_the_outside_messages() {
    let c = Converter::from_config(&config());
    let decoder_text = image::load_from_memory(b"not an image").unwrap_err().to_string();
    assert_eq!(c.load_image(b"not an image").err(), Some(ConversionError::ImageDecode(decoder_text.clone())));
    assert_eq!(
        c.prepare_image(b"not an image", RotateArg::Auto).err(),
        Some(ConversionError::ImageDecode(decoder_text))
    );
    assert_eq!(c.finish(Err("encoder gave up".to_string()), 10), Err(ConversionError::AvifEncode("encoder gave up".to_string())));
}

#[test]
fn raw_image_prepared_for_encoding() {
    let mut cfg = config();
    cfg.bit_depth = BitDepthArg::Auto;
    cfg.keep_metadata = false;
    let c = Converter::from_config(&cfg);
    let developed = image::DynamicImage::new_rgb8(3, 2);
    let job = c.prepare_raw_image(b"not raw", &developed, RotateArg::Rotate270).unwrap();
    assert_eq!((job.image.width(), job.image.height()), (2, 3));
    assert_eq!(job.settings.bit_depth, Some(EncoderBitDepth::Ten));
    assert_eq!(job.exif, None);
    let decoder_text = rawloader::decode(&mut std::io::Cursor::new(&b"not raw"[..])).unwrap_err().to_string();
    assert_eq!(
        c.prepare_raw_image(b"not raw", &developed, RotateArg::Auto).err(),
        Some(ConversionError::RawDecode(decoder_text))
    );
}
