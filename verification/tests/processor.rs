use img2avif::config::{BitDepthArg, ColorSpaceArg, Config, RotateArg};
use img2avif::error::ConversionError;
use img2avif::processor::{check_images_found, keep_entry, keep_walk_entry, FileStep, ImageProcessor, RunPlan, RunSummary};

fn config() -> Config {
    Config {
        input: Some("pics/a.png".to_string()),
        directory: None,
        recursive_dir: None,
        output: None,
        delete_original: true,
        quality: 80.0f32.to_bits(),
        alpha_quality: 80.0f32.to_bits(),
        speed: 4,
        color_space: ColorSpaceArg::Yuv420,
        bit_depth: BitDepthArg::Auto,
        lossless: false,
        discard_if_larger: false,
        keep_metadata: false,
        quiet: false,
        verbose: false,
        rotate: RotateArg::Auto,
        raw_exposure: "auto".to_string(),
        raw_percentile: 0.95f32.to_bits(),
        raw_saturation: "auto".to_string(),
        raw_contrast: 1.0f32.to_bits(),
    }
}

#[test]
fn image_files_by_extension() {
    let p = ImageProcessor::new(config());
    for name in ["a.jpg", "b.JPEG", "c.Png", "d.bmp", "e.gif", "f.tiff", "g.TIF", "h.webp", "i.ico"] {
        assert!(p.is_image_file(name), "{}", name);
    }
    for name in ["a.nef", "b.CR2", "c.dng"] {
        assert!(p.is_image_file(name), "{}", name);
    }
    for name in ["b.txt", "noext", ".png", "dir.jpg/file"] {
        assert!(!p.is_image_file(name), "{}", name);
    }
}

#[test]
fn processor_keeps_config_and_converter() {
    let p = ImageProcessor::new(config());
    assert_eq!(p.config().speed, 4);
    assert_eq!(p.converter().quality, 80.0f32.to_bits());
}

#[test]
fn plans_of_runs() {
    let p = ImageProcessor::new(config());
    assert_eq!(p.plan(), Ok(RunPlan::SingleFile("pics/a.png".to_string())));
    let mut c = config();
    c.input = None;
    c.recursive_dir = Some("archive".to_string());
    assert_eq!(ImageProcessor::new(c).plan(), Ok(RunPlan::Directory("archive".to_string())));
    let mut c = config();
    c.input = None;
    assert_eq!(
        ImageProcessor::new(c).plan(),
        Err(ConversionError::InvalidParameter(
            "No input specified. Use -i for single file, -d for directory, or -r for recursive directory".to_string()
        ))
    );
}

#[test]
fn steps_after_conversion() {
    let p = ImageProcessor::new(config());
    assert_eq!(p.after_conversion("in/a.jpg", "out/a.avif", Ok(1234)), FileStep::DeleteOriginal(1234));
    assert_eq!(p.after_conversion("in/a.jpg", "out/a.avif", Ok(0)), FileStep::Done(0));
    assert_eq!(
        p.after_conversion("in/a.jpg", "out/a.avif", Err(ConversionError::AvifEncode("x".to_string()))),
        FileStep::Failed(ConversionError::AvifEncode("x".to_string()))
    );
    let mut c = config();
    c.delete_original = false;
    assert_eq!(ImageProcessor::new(c).after_conversion("in/a.jpg", "out/a.avif", Ok(55)), FileStep::Done(55));
}

#[test]
fn summary_counts_outcomes() {
    let mut s = RunSummary::new();
    s.record(&Ok(100));
    s.record(&Err(ConversionError::ImageDecode("bad".to_string())));
    s.record(&Ok(0));
    s.record(&Ok(50));
    assert_eq!(s, RunSummary { successful: 3, failed: 1, total_size: 150 });
}

#[test]
fn hidden_entries_are_skipped() {
    assert!(!keep_entry(".git"));
    assert!(!keep_entry("."));
    assert!(keep_entry("photos"));
    assert!(keep_entry(""));
}

#[test]
fn empty_directory_is_an_error() {
    assert_eq!(
        check_images_found("./empty", 0),
        Err(ConversionError::NoImagesFound("./empty".to_string()))
    );
    assert_eq!(check_images_found("./full", 3), Ok(()));
}

#[test]
fn originals_kept_unless_written() {
    let p = ImageProcessor::new(config());
    assert_eq!(p.after_conversion("in/a.jpg", "out/a.avif", Ok(0)), FileStep::Done(0));
    assert!(matches!(
        p.after_conversion("in/a.jpg", "out/a.avif", Err(ConversionError::Io("disk full".to_string()))),
        FileStep::Failed(_)
    ));
    assert_eq!(p.after_conversion("in/a.jpg", "out/a.avif", Ok(1)), FileStep::DeleteOriginal(1));
}

#[test]
fn avif_written_over_its_input_is_kept() {
    let p = ImageProcessor::new(config());
    assert_eq!(p.after_conversion("/pics/a.avif", "/pics/a.avif", Ok(10)), FileStep::Done(10));
    assert_eq!(p.after_conversion("/pics/a.jpg", "/pics/a.avif", Ok(10)), FileStep::DeleteOriginal(10));
}

#[test]
fn walk_root_is_always_kept() {
    assert!(keep_walk_entry(".", 0));
    assert!(keep_walk_entry(".photos", 0));
    assert!(!keep_walk_entry(".cache", 1));
    assert!(keep_walk_entry("2023", 2));
}
