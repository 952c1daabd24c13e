use img2avif::error::ConversionError;
use img2avif::raw_decoder::{
    cfa_color_at, demosaic_pixel, demosaic_row, exposure_sample_step, exposure_samples,
    is_raw_extension_name, orientation_code, pattern_from_cfa_name, raw_orientation_result,
    BayerPattern, CfaColor, RawDecoder, RawOrientation,
};

#[test]
fn test_raw_file_detection() {
    assert!(RawDecoder::is_raw_file("photo.nef"));
    assert!(RawDecoder::is_raw_file("photo.CR2"));
    assert!(RawDecoder::is_raw_file("photo.dng"));
    assert!(!RawDecoder::is_raw_file("photo.jpg"));
    assert!(!RawDecoder::is_raw_file("photo.png"));
}

#[test]
fn raw_file_detection_edge_cases() {
    assert!(RawDecoder::is_raw_file("dir/sub/IMG_0001.ArW"));
    assert!(RawDecoder::is_raw_file("x.3fr"));
    assert!(!RawDecoder::is_raw_file("nef"));
    assert!(!RawDecoder::is_raw_file(".nef"));
    assert!(!RawDecoder::is_raw_file("photo.nef.jpg"));
    assert!(!RawDecoder::is_raw_file("photo."));
    assert!(is_raw_extension_name("rwz"));
    assert!(!is_raw_extension_name("RWZ"));
}

fn ramp() -> Vec<u16> {
    vec![10, 20, 30, 40, 50, 60, 70, 80, 90, 100, 110, 120, 130, 140, 150, 160]
}

#[test]
fn demosaic_red_site_at_corner() {
    // (0,0) under RGGB is red; edges repeat the nearest photosite.
    assert_eq!(demosaic_pixel(&ramp(), 0, 0, 4, 4, BayerPattern::RGGB), (40, 60, 140));
}

#[test]
fn demosaic_green_site_in_red_row() {
    assert_eq!(demosaic_pixel(&ramp(), 1, 0, 4, 4, BayerPattern::RGGB), (80, 80, 160));
}

#[test]
fn demosaic_green_site_in_blue_row() {
    // (0,1) under RGGB is green on a blue row: red from above and below.
    let d = ramp();
    // vertical: 2*(10+90) = 200, horizontal: 2*(50+60) = 220 (x-1 clamps to 0)
    assert_eq!(demosaic_pixel(&d, 0, 1, 4, 4, BayerPattern::RGGB), (200, 200, 220));
}

#[test]
fn demosaic_blue_site() {
    assert_eq!(demosaic_pixel(&ramp(), 1, 1, 4, 4, BayerPattern::RGGB), (240, 240, 240));
}

#[test]
fn demosaic_equal_gradients_average_all_four() {
    let d: Vec<u16> = vec![1, 4, 1, 2, 9, 6, 1, 8, 1];
    // (1,1) under BGGR is red: n=4, s=8, w=2, e=6, both gradients are 4.
    assert_eq!(demosaic_pixel(&d, 1, 1, 3, 3, BayerPattern::BGGR), (36, 20, 4));
}

#[test]
fn demosaic_flat_field_is_grey() {
    let d: Vec<u16> = vec![7; 20];
    for pattern in [BayerPattern::RGGB, BayerPattern::BGGR, BayerPattern::GRBG, BayerPattern::GBRG] {
        for y in 0..4u32 {
            for x in 0..5u32 {
                assert_eq!(demosaic_pixel(&d, x, y, 5, 4, pattern), (28, 28, 28));
            }
        }
    }
}

#[test]
fn demosaic_keeps_measured_channel() {
    let d = ramp();
    for y in 0..4u32 {
        for x in 0..4u32 {
            let own = 4 * d[(y * 4 + x) as usize] as u32;
            let p = demosaic_pixel(&d, x, y, 4, 4, BayerPattern::GRBG);
            match cfa_color_at(BayerPattern::GRBG, x, y) {
                CfaColor::Red => assert_eq!(p.0, own),
                CfaColor::Green => assert_eq!(p.1, own),
                CfaColor::Blue => assert_eq!(p.2, own),
            }
        }
    }
}

#[test]
fn demosaic_row_matches_pixels() {
    let d = ramp();
    let row = demosaic_row(&d, 2, 4, 4, BayerPattern::GBRG);
    assert_eq!(row.len(), 4);
    for x in 0..4u32 {
        assert_eq!(row[x as usize], demosaic_pixel(&d, x, 2, 4, 4, BayerPattern::GBRG));
    }
}

#[test]
fn cfa_colors_of_each_pattern() {
    assert_eq!(cfa_color_at(BayerPattern::RGGB, 0, 0), CfaColor::Red);
    assert_eq!(cfa_color_at(BayerPattern::RGGB, 1, 1), CfaColor::Blue);
    assert_eq!(cfa_color_at(BayerPattern::BGGR, 0, 0), CfaColor::Blue);
    assert_eq!(cfa_color_at(BayerPattern::BGGR, 3, 1), CfaColor::Red);
    assert_eq!(cfa_color_at(BayerPattern::GRBG, 1, 0), CfaColor::Red);
    assert_eq!(cfa_color_at(BayerPattern::GRBG, 0, 1), CfaColor::Blue);
    assert_eq!(cfa_color_at(BayerPattern::GBRG, 1, 0), CfaColor::Blue);
    assert_eq!(cfa_color_at(BayerPattern::GBRG, 2, 3), CfaColor::Red);
    assert_eq!(cfa_color_at(BayerPattern::GBRG, 0, 0), CfaColor::Green);
}

#[test]
fn patterns_from_cfa_names() {
    assert_eq!(pattern_from_cfa_name("RGGB"), BayerPattern::RGGB);
    assert_eq!(pattern_from_cfa_name("BGGR"), BayerPattern::BGGR);
    assert_eq!(pattern_from_cfa_name("GRBG"), BayerPattern::GRBG);
    assert_eq!(pattern_from_cfa_name("GBRG"), BayerPattern::GBRG);
    assert_eq!(pattern_from_cfa_name("RGBE"), BayerPattern::RGGB);
    assert_eq!(pattern_from_cfa_name(""), BayerPattern::RGGB);
}

#[test]
fn exposure_sampling_stride() {
    assert_eq!(exposure_sample_step(0), 1);
    assert_eq!(exposure_sample_step(9_999), 1);
    assert_eq!(exposure_sample_step(19_999), 1);
    assert_eq!(exposure_sample_step(20_000), 2);
    assert_eq!(exposure_sample_step(1_000_000), 100);
}

#[test]
fn exposure_samples_take_every_step() {
    let small: Vec<u16> = vec![3, 1, 4, 1, 5];
    assert_eq!(exposure_samples(&small), small);
    let big: Vec<u16> = (0..30_001u32).map(|i| (i % 65_536) as u16).collect();
    let s = exposure_samples(&big);
    assert_eq!(s.len(), 10_001);
    assert_eq!(s[0], 0);
    assert_eq!(s[1], 3);
    assert_eq!(s[10_000], 30_000);
    assert!(exposure_samples(&[]).is_empty());
}

#[test]
fn orientation_codes() {
    assert_eq!(orientation_code(RawOrientation::Normal), 1);
    assert_eq!(orientation_code(RawOrientation::HorizontalFlip), 2);
    assert_eq!(orientation_code(RawOrientation::Rotate180), 3);
    assert_eq!(orientation_code(RawOrientation::VerticalFlip), 4);
    assert_eq!(orientation_code(RawOrientation::Transpose), 5);
    assert_eq!(orientation_code(RawOrientation::Rotate90), 6);
    assert_eq!(orientation_code(RawOrientation::Transverse), 7);
    assert_eq!(orientation_code(RawOrientation::Rotate270), 8);
    assert_eq!(orientation_code(RawOrientation::Unknown), 1);
}

#[test]
fn raw_orientation_results() {
    assert_eq!(raw_orientation_result(Ok(RawOrientation::Rotate90)), Ok(6));
    assert_eq!(
        raw_orientation_result(Err("bad file".to_string())),
        Err(ConversionError::RawDecode("bad file".to_string()))
    );
}

#[test]
fn raw_orientation_of_garbage_is_decode_error() {
    let r = RawDecoder::get_raw_orientation(b"these bytes are no raw file");
    assert!(matches!(r, Err(ConversionError::RawDecode(_))));
}

/// The floating-point demosaicing of one photosite, written as the tool's
/// float pipeline computes it, to check the exact integer results against.
fn float_reference(raw: &[u16], x: u32, y: u32, width: u32, height: u32, pattern: BayerPattern) -> (f32, f32, f32) {
    let (xi, yi) = (x as i32, y as i32);
    let get = |px: i32, py: i32| -> f32 {
        let cx = px.max(0).min(width as i32 - 1) as u32;
        let cy = py.max(0).min(height as i32 - 1) as u32;
        raw[(cy * width + cx) as usize] as f32
    };
    let green = || {
        let (n, s, w, e) = (get(xi, yi - 1), get(xi, yi + 1), get(xi - 1, yi), get(xi + 1, yi));
        let (gv, gh) = ((n - s).abs(), (w - e).abs());
        if gv < gh { (n + s) / 2.0 } else if gh < gv { (w + e) / 2.0 } else { (n + s + w + e) / 4.0 }
    };
    let diag = || (get(xi - 1, yi - 1) + get(xi + 1, yi - 1) + get(xi - 1, yi + 1) + get(xi + 1, yi + 1)) / 4.0;
    match cfa_color_at(pattern, x, y) {
        CfaColor::Red => (get(xi, yi), green(), diag()),
        CfaColor::Blue => (diag(), green(), get(xi, yi)),
        CfaColor::Green => {
            let red_row = match pattern {
                BayerPattern::RGGB | BayerPattern::GRBG => yi % 2 == 0,
                BayerPattern::BGGR | BayerPattern::GBRG => yi % 2 == 1,
            };
            let h = (get(xi - 1, yi) + get(xi + 1, yi)) / 2.0;
            let v = (get(xi, yi - 1) + get(xi, yi + 1)) / 2.0;
            if red_row { (h, get(xi, yi), v) } else { (v, get(xi, yi), h) }
        }
    }
}

#[test]
fn demosaic_quarters_are_exact_float_values() {
    let (w, h) = (7u32, 5u32);
    let mut state: u32 = 12345;
    let data: Vec<u16> = (0..w * h)
        .map(|_| {
            state = state.wrapping_mul(1_103_515_245).wrapping_add(12_345);
            (state >> 16) as u16
        })
        .collect();
    for pattern in [BayerPattern::RGGB, BayerPattern::BGGR, BayerPattern::GRBG, BayerPattern::GBRG] {
        for y in 0..h {
            for x in 0..w {
                let (r, g, b) = demosaic_pixel(&data, x, y, w, h, pattern);
                let f = float_reference(&data, x, y, w, h, pattern);
                assert_eq!((r as f32 / 4.0, g as f32 / 4.0, b as f32 / 4.0), f);
            }
        }
    }
}

#[test]
fn demosaic_stays_within_raw_maximum() {
    let d: Vec<u16> = vec![0, 65535, 0, 65535, 65535, 0, 65535, 0, 0, 65535, 0, 65535];
    for y in 0..3u32 {
        for x in 0..4u32 {
            let (r, g, b) = demosaic_pixel(&d, x, y, 4, 3, BayerPattern::RGGB);
            assert!(r <= 4 * 65535 && g <= 4 * 65535 && b <= 4 * 65535);
        }
    }
}

#[test]
fn raw_decode_of_garbage_is_error() {
    assert!(matches!(RawDecoder::decode(&[0u8; 16]), Err(ConversionError::RawDecode(_))));
}

fn sample_raw(data: rawloader::RawImageData) -> rawloader::RawImage {
    rawloader::RawImage {
        make: "Maker".to_string(),
        model: "Model".to_string(),
        clean_make: "Maker".to_string(),
        clean_model: "Model".to_string(),
        width: 2,
        height: 2,
        cpp: 1,
        wb_coeffs: [2.0, 1.0, 1.5, 0.0],
        whitelevels: [4095, 4095, 4095, 4095],
        blacklevels: [64, 64, 64, 64],
        xyz_to_cam: [[0.0; 3]; 4],
        cfa: rawloader::CFA::new("GBRG"),
        crops: [0, 0, 0, 0],
        blackareas: Vec::new(),
        orientation: rawloader::Orientation::Rotate90,
        data,
    }
}

#[test]
fn raw_decode_error_names_the_decoder_message() {
    let junk = b"definitely not a raw file";
    let decoder_text = rawloader::decode(&mut std::io::Cursor::new(&junk[..])).unwrap_err().to_string();
    match RawDecoder::decode(junk) {
        Err(ConversionError::RawDecode(m)) => assert_eq!(m, format!("Failed to decode RAW: {}", decoder_text)),
        _ => panic!("junk bytes decoded"),
    }
    assert_eq!(RawDecoder::get_raw_orientation(junk), Err(ConversionError::RawDecode(decoder_text)));
}

#[test]
fn sensor_frame_of_integer_data() {
    let frame = RawDecoder::sensor_frame(sample_raw(rawloader::RawImageData::Integer(vec![1, 2, 3, 4]))).unwrap();
    assert_eq!((frame.width, frame.height), (2, 2));
    assert_eq!(frame.data, vec![1, 2, 3, 4]);
    assert_eq!(frame.pattern, BayerPattern::GBRG);
    assert_eq!((frame.black_level, frame.white_level), (64, 4095));
}

#[test]
fn sensor_frame_refuses_float_data() {
    assert_eq!(
        RawDecoder::sensor_frame(sample_raw(rawloader::RawImageData::Float(vec![0.5; 4]))).err(),
        Some(ConversionError::RawDecode("Float RAW data not supported".to_string()))
    );
}

#[test]
fn red_and_blue_sites_exchange_channels() {
    let data: Vec<u16> = (0..16).map(|i| (i * 37 % 101) as u16).collect();
    for (p, q) in [(BayerPattern::RGGB, BayerPattern::BGGR), (BayerPattern::GRBG, BayerPattern::GBRG)] {
        for y in 0..4 {
            for x in 0..4 {
                let (r, g, b) = demosaic_pixel(&data, x, y, 4, 4, p);
                assert_eq!(demosaic_pixel(&data, x, y, 4, 4, q), (b, g, r));
            }
        }
    }
}
