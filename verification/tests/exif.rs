use image::{DynamicImage, GenericImageView, Rgb, RgbImage};
use img2avif::config::RotateArg;
use img2avif::error::ConversionError;
use img2avif::exif::{
    apply_manual_rotation, apply_rotation, apply_transform, get_orientation, manual_transform, orient_image,
    orientation_transform, ImageTransform,
};

/// A 3 x 2 image whose pixel at (x, y) has red = x and green = y.
fn tagged() -> DynamicImage {
    let mut img = RgbImage::new(3, 2);
    for y in 0..2 {
        for x in 0..3 {
            img.put_pixel(x, y, Rgb([x as u8, y as u8, 0]));
        }
    }
    DynamicImage::ImageRgb8(img)
}

/// Where EXIF says the stored pixel (x, y) of a w x h image belongs upright.
fn exif_place(o: u16, w: u32, h: u32, x: u32, y: u32) -> (u32, u32) {
    match o {
        1 => (x, y),
        2 => (w - 1 - x, y),
        3 => (w - 1 - x, h - 1 - y),
        4 => (x, h - 1 - y),
        5 => (y, x),
        6 => (h - 1 - y, x),
        7 => (h - 1 - y, w - 1 - x),
        8 => (y, w - 1 - x),
        _ => unreachable!(),
    }
}

#[test]
fn auto_rotation_places_every_pixel_as_exif_says() {
    let img = tagged();
    for o in 1..=8u16 {
        let out = apply_rotation(&img, o);
        let swapped = o >= 5;
        assert_eq!(out.dimensions(), if swapped { (2, 3) } else { (3, 2) });
        for y in 0..2 {
            for x in 0..3 {
                let (dx, dy) = exif_place(o, 3, 2, x, y);
                let p = out.get_pixel(dx, dy);
                assert_eq!((p[0] as u32, p[1] as u32), (x, y), "orientation {}", o);
            }
        }
    }
}

#[test]
fn unknown_orientation_keeps_image() {
    let img = tagged();
    for o in [0u16, 9, 200] {
        let out = apply_rotation(&img, o);
        assert_eq!(out.dimensions(), (3, 2));
        assert_eq!(out.get_pixel(2, 1), img.get_pixel(2, 1));
    }
}

#[test]
fn manual_rotation_matches_exif_rotation() {
    let img = tagged();
    let pairs = [(RotateArg::Rotate90, 6u16), (RotateArg::Rotate180, 3), (RotateArg::Rotate270, 8),
        (RotateArg::NoRotation, 1), (RotateArg::Auto, 1)];
    for (r, o) in pairs {
        assert_eq!(manual_transform(r), orientation_transform(o));
        let a = apply_manual_rotation(&img, r);
        let b = apply_rotation(&img, o);
        assert_eq!(a.dimensions(), b.dimensions());
        assert_eq!(a.as_bytes(), b.as_bytes());
    }
}

#[test]
fn transforms_of_orientations() {
    assert_eq!(orientation_transform(1), ImageTransform::Identity);
    assert_eq!(orientation_transform(2), ImageTransform::FlipHorizontal);
    assert_eq!(orientation_transform(5), ImageTransform::Rotate90ThenFlipHorizontal);
    assert_eq!(orientation_transform(7), ImageTransform::Rotate90ThenFlipVertical);
    assert_eq!(orientation_transform(8), ImageTransform::Rotate270);
    assert_eq!(orientation_transform(0), ImageTransform::Identity);
    let out = apply_transform(&tagged(), ImageTransform::Rotate90);
    assert_eq!(out.dimensions(), (2, 3));
}

#[test]
fn orientation_of_ordinary_file_is_upright() {
    let mut png = Vec::new();
    tagged().write_to(&mut std::io::Cursor::new(&mut png), image::ImageFormat::Png).unwrap();
    assert_eq!(get_orientation("holiday/photo.png", &png), Ok(1));
    assert_eq!(get_orientation("no_extension", b"garbage"), Ok(1));
}

#[test]
fn orientation_of_unreadable_raw_is_error() {
    let r = get_orientation("/nonexistent/place/picture.CR2", b"garbage");
    assert!(matches!(r, Err(ConversionError::RawDecode(_))));
}

/// A minimal JPEG whose EXIF block records orientation `o`.
fn jpeg_with_orientation(o: u8) -> Vec<u8> {
    let mut jpg = Vec::new();
    tagged().write_to(&mut std::io::Cursor::new(&mut jpg), image::ImageFormat::Jpeg).unwrap();
    // APP1 Exif segment, big-endian TIFF, one IFD entry: tag 0x0112 SHORT 1 = o.
    let tiff: Vec<u8> = vec![
        b'M', b'M', 0, 42, 0, 0, 0, 8, 0, 1, 0x01, 0x12, 0, 3, 0, 0, 0, 1, 0, o, 0, 0, 0, 0, 0, 0,
    ];
    let mut payload = b"Exif\0\0".to_vec();
    payload.extend_from_slice(&tiff);
    let len = (payload.len() + 2) as u16;
    let mut out = vec![0xFF, 0xD8, 0xFF, 0xE1, (len >> 8) as u8, (len & 0xff) as u8];
    out.extend_from_slice(&payload);
    out.extend_from_slice(&jpg[2..]);
    out
}

#[test]
fn orientation_read_from_exif() {
    for o in 1..=8u8 {
        assert_eq!(get_orientation("portrait.jpg", &jpeg_with_orientation(o)), Ok(o as u16));
    }
}

#[test]
fn rotations_undo_each_other() {
    let img = tagged();
    for o in 1..=8u16 {
        let inv = match o { 6 => 8, 8 => 6, x => x };
        let back = apply_rotation(&apply_rotation(&img, o), inv);
        assert_eq!(back.dimensions(), img.dimensions());
        assert_eq!(back.color(), img.color());
        assert_eq!(back.as_bytes(), img.as_bytes());
    }
}

#[test]
fn orient_follows_setting() {
    let img = tagged();
    assert_eq!(orient_image(&img, RotateArg::Auto, 6).as_bytes(), apply_rotation(&img, 6).as_bytes());
    assert_eq!(orient_image(&img, RotateArg::Rotate270, 6).as_bytes(), apply_rotation(&img, 8).as_bytes());
    assert_eq!(orient_image(&img, RotateArg::NoRotation, 6).as_bytes(), img.as_bytes());
}

#[test]
fn raw_orientation_error_passed_on() {
    let junk = b"no raw data here";
    let decoder_text = rawloader::decode(&mut std::io::Cursor::new(&junk[..])).unwrap_err().to_string();
    assert_eq!(get_orientation("shot.nef", junk), Err(ConversionError::RawDecode(decoder_text)));
}
