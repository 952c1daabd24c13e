use vstd::prelude::*;
use crate::float_bits::{
    f32_bits_in_range, f32_in_range, F32_FIVE, F32_HALF, F32_HUNDRED, F32_ONE, F32_TWO, F32_ZERO,
};
use crate::paths::{
    path_file_stem, path_join, path_parent, spec_path_file_stem, spec_path_join, spec_path_parent,
};
use crate::text::str_equal;

verus! {

/// How colour is encoded in the output.
#[derive(Clone, Copy, Debug, PartialEq, Eq, Structural)]
pub enum ColorSpaceArg {
    /// YUV 4:2:0 (standard, good quality/size tradeoff)
    Yuv420,
    /// YUV 4:4:4 (better color quality)
    Yuv444,
    /// RGB (maximum quality, larger files)
    Rgb,
}

/// The name under which a colour space is shown and given on the command line.
pub open spec fn color_space_name(c: ColorSpaceArg) -> Seq<char> {
    match c {
        ColorSpaceArg::Yuv420 => "yuv420"@,
        ColorSpaceArg::Yuv444 => "yuv444"@,
        ColorSpaceArg::Rgb => "rgb"@,
    }
}

impl ColorSpaceArg {
    /// The colour space's name, as it is displayed.
    #[allow(clippy::inherent_to_string)]
    pub fn to_string(&self) -> (r: String)
        ensures
            r@ == color_space_name(*self),
    {
        match self {
            ColorSpaceArg::Yuv420 => String::from_str("yuv420"),
            ColorSpaceArg::Yuv444 => String::from_str("yuv444"),
            ColorSpaceArg::Rgb => String::from_str("rgb"),
        }
    }
}

/// Bits per colour channel in the output.
#[derive(Clone, Copy, Debug, PartialEq, Eq, Structural)]
pub enum BitDepthArg {
    /// 8 bits per channel (standard)
    Bit8,
    /// 10 bits per channel (better for gradients)
    Bit10,
    /// 12 bits per channel (professional quality)
    Bit12,
    /// Automatic based on source image
    Auto,
}

/// The name under which a bit depth is shown.
pub open spec fn bit_depth_name(b: BitDepthArg) -> Seq<char> {
    match b {
        BitDepthArg::Bit8 => "8"@,
        BitDepthArg::Bit10 => "10"@,
        BitDepthArg::Bit12 => "12"@,
        BitDepthArg::Auto => "auto"@,
    }
}

impl BitDepthArg {
    /// The bit depth's name, as it is displayed.
    #[allow(clippy::inherent_to_string)]
    pub fn to_string(&self) -> (r: String)
        ensures
            r@ == bit_depth_name(*self),
    {
        match self {
            BitDepthArg::Bit8 => String::from_str("8"),
            BitDepthArg::Bit10 => String::from_str("10"),
            BitDepthArg::Bit12 => String::from_str("12"),
            BitDepthArg::Auto => String::from_str("auto"),
        }
    }

    /// The bit depth a command-line value names, if any.
    pub fn from_name(name: &str) -> (r: Option<BitDepthArg>)
        ensures
            r == bit_depth_from_name(name@),
    {
        if str_equal(name, "8") {
            Some(BitDepthArg::Bit8)
        } else if str_equal(name, "10") {
            Some(BitDepthArg::Bit10)
        } else if str_equal(name, "12") {
            Some(BitDepthArg::Bit12)
        } else if str_equal(name, "auto") {
            Some(BitDepthArg::Auto)
        } else {
            None
        }
    }
}

/// The bit depth that a command-line value names: the one whose name it is.
pub open spec fn bit_depth_from_name(name: Seq<char>) -> Option<BitDepthArg> {
    if name == "8"@ {
        Some(BitDepthArg::Bit8)
    } else if name == "10"@ {
        Some(BitDepthArg::Bit10)
    } else if name == "12"@ {
        Some(BitDepthArg::Bit12)
    } else if name == "auto"@ {
        Some(BitDepthArg::Auto)
    } else {
        None
    }
}

/// Every bit depth is read back from the name it is shown under, and a
/// value that is read as a bit depth is that bit depth's name.
pub proof fn lemma_bit_depth_name_round_trip(b: BitDepthArg, name: Seq<char>)
    ensures
        bit_depth_from_name(bit_depth_name(b)) == Some(b),
        bit_depth_from_name(name) == Some(b) ==> name == bit_depth_name(b),
{
    reveal_strlit("8");
    reveal_strlit("10");
    reveal_strlit("12");
    reveal_strlit("auto");
    assert("8"@.len() != "10"@.len() && "8"@.len() != "auto"@.len() && "10"@.len() != "auto"@.len());
    assert("10"@[1] != "12"@[1]);
}

/// How the image is rotated before encoding.
#[derive(Clone, Copy, Debug, PartialEq, Eq, Structural)]
pub enum RotateArg {
    /// Auto-rotate based on EXIF orientation
    Auto,
    /// No rotation
    NoRotation,
    /// Rotate 90 degrees clockwise
    Rotate90,
    /// Rotate 180 degrees
    Rotate180,
    /// Rotate 270 degrees clockwise (or 90 counter-clockwise)
    Rotate270,
}

/// The name under which a rotation is shown.
pub open spec fn rotate_name(r: RotateArg) -> Seq<char> {
    match r {
        RotateArg::Auto => "auto"@,
        RotateArg::NoRotation => "none"@,
        RotateArg::Rotate90 => "90"@,
        RotateArg::Rotate180 => "180"@,
        RotateArg::Rotate270 => "270"@,
    }
}

impl RotateArg {
    /// The rotation's name, as it is displayed.
    #[allow(clippy::inherent_to_string)]
    pub fn to_string(&self) -> (r: String)
        ensures
            r@ == rotate_name(*self),
    {
        match self {
            RotateArg::Auto => String::from_str("auto"),
            RotateArg::NoRotation => String::from_str("none"),
            RotateArg::Rotate90 => String::from_str("90"),
            RotateArg::Rotate180 => String::from_str("180"),
            RotateArg::Rotate270 => String::from_str("270"),
        }
    }

    /// The rotation a command-line value names, if any.
    pub fn from_name(name: &str) -> (r: Option<RotateArg>)
        ensures
            r == rotate_from_name(name@),
    {
        if str_equal(name, "auto") {
            Some(RotateArg::Auto)
        } else if str_equal(name, "none") {
            Some(RotateArg::NoRotation)
        } else if str_equal(name, "90") {
            Some(RotateArg::Rotate90)
        } else if str_equal(name, "180") {
            Some(RotateArg::Rotate180)
        } else if str_equal(name, "270") {
            Some(RotateArg::Rotate270)
        } else {
            None
        }
    }
}

/// The rotation that a command-line value names: the one whose name it is.
pub open spec fn rotate_from_name(name: Seq<char>) -> Option<RotateArg> {
    if name == "auto"@ {
        Some(RotateArg::Auto)
    } else if name == "none"@ {
        Some(RotateArg::NoRotation)
    } else if name == "90"@ {
        Some(RotateArg::Rotate90)
    } else if name == "180"@ {
        Some(RotateArg::Rotate180)
    } else if name == "270"@ {
        Some(RotateArg::Rotate270)
    } else {
        None
    }
}

/// Every rotation is read back from the name it is shown under, and a value
/// that is read as a rotation is that rotation's name.
pub proof fn lemma_rotate_name_round_trip(r: RotateArg, name: Seq<char>)
    ensures
        rotate_from_name(rotate_name(r)) == Some(r),
        rotate_from_name(name) == Some(r) ==> name == rotate_name(r),
{
    reveal_strlit("auto");
    reveal_strlit("none");
    reveal_strlit("90");
    reveal_strlit("180");
    reveal_strlit("270");
    assert("auto"@[0] != "none"@[0] && "180"@[0] != "270"@[0]);
    assert("90"@.len() != "auto"@.len() && "90"@.len() != "180"@.len() && "auto"@.len() != "180"@.len());
}

/// The settings of one run of the tool.
///
/// Paths are strings. The fields `quality`, `alpha_quality`, `raw_percentile`
/// and `raw_contrast` hold the IEEE-754 bit patterns of their `f32` values
/// (see `float_bits`).
pub struct Config {
    /// Input file (single file mode)
    pub input: Option<String>,
    /// Input directory (process all images in this directory)
    pub directory: Option<String>,
    /// Input directory with recursive processing
    pub recursive_dir: Option<String>,
    /// Output file or directory (default: input.avif or input_dir/*.avif)
    pub output: Option<String>,
    /// Delete original files after successful conversion
    pub delete_original: bool,
    /// Compression quality (0-100), as `f32` bits
    pub quality: u32,
    /// Alpha channel quality (0-100), as `f32` bits
    pub alpha_quality: u32,
    /// Encoding speed (0-10, 0 = best compression)
    pub speed: u8,
    /// Color space
    pub color_space: ColorSpaceArg,
    /// Bit depth
    pub bit_depth: BitDepthArg,
    /// Lossless mode
    pub lossless: bool,
    /// Don't convert if AVIF file is larger than original
    pub discard_if_larger: bool,
    /// Keep EXIF metadata (if available)
    pub keep_metadata: bool,
    /// Quiet mode (no messages)
    pub quiet: bool,
    /// Verbose mode
    pub verbose: bool,
    /// Rotate image (auto, none, 90, 180, 270)
    pub rotate: RotateArg,
    /// RAW exposure compensation ("auto", or a number from 0.5 to 5.0)
    pub raw_exposure: String,
    /// Target percentile for auto-exposure (0.5-1.0), as `f32` bits
    pub raw_percentile: u32,
    /// RAW saturation ("auto", or a number from 0.5 to 2.0)
    pub raw_saturation: String,
    /// RAW contrast (0.5-2.0), as `f32` bits
    pub raw_contrast: u32,
}

/// The view of an optional string.
pub open spec fn opt_view(o: Option<String>) -> Option<Seq<char>> {
    match o {
        Some(s) => Some(s@),
        None => None,
    }
}

/// The input path of a configuration: the single file, else the directory,
/// else the recursive directory.
pub open spec fn spec_input_path(c: Config) -> Option<Seq<char>> {
    if c.input is Some {
        opt_view(c.input)
    } else if c.directory is Some {
        opt_view(c.directory)
    } else {
        opt_view(c.recursive_dir)
    }
}

pub open spec fn spec_is_directory_mode(c: Config) -> bool {
    c.directory is Some || c.recursive_dir is Some
}

pub open spec fn no_input_message() -> Seq<char> {
    "No input specified. Use -i for single file, -d for directory, or -r for recursive directory"@
}

/// The name of the output file made from an input's file stem.
pub open spec fn spec_avif_file_name(stem: Option<Seq<char>>) -> Seq<char> {
    match stem {
        Some(s) => s + ".avif"@,
        None => ".avif"@,
    }
}

/// The directory of an input, or the current directory when it has none.
pub open spec fn spec_parent_or_current(parent: Option<Seq<char>>) -> Seq<char> {
    match parent {
        Some(p) => p,
        None => "."@,
    }
}

/// Where the AVIF file for an input goes: in directory mode, into the output
/// directory, one file per input stem; in single-file mode, to the output
/// path as given; without an output, beside the input.
pub open spec fn spec_output_path(c: Config, input: Seq<char>) -> Seq<char> {
    let name = spec_avif_file_name(spec_path_file_stem(input));
    match c.output {
        Some(o) => if spec_is_directory_mode(c) {
            spec_path_join(o@, name)
        } else {
            o@
        },
        None => spec_path_join(spec_parent_or_current(spec_path_parent(input)), name),
    }
}

/// Whether an optional number, given as text and already parsed, is
/// acceptable: "auto", or a number in the range.
pub open spec fn auto_or_in_range(text: Seq<char>, parsed: Option<u32>, lo: u32, hi: u32) -> bool {
    text == "auto"@ || (parsed matches Some(v) && f32_in_range(v, lo, hi))
}

/// The first rule that a configuration breaks, in the order in which they
/// are checked, with its message; `Ok` when it breaks none.
///
/// `input_exists` and `input_is_dir` tell what the file system holds at the
/// input path; `exposure` and `saturation` are the `f32` bit patterns of
/// `raw_exposure` and `raw_saturation` parsed as numbers (`None` when they are
/// not numbers).
pub open spec fn spec_validate(
    c: Config,
    input_exists: bool,
    input_is_dir: bool,
    exposure: Option<u32>,
    saturation: Option<u32>,
) -> Result<(), Seq<char>> {
    if spec_input_path(c) is None {
        Err(no_input_message())
    } else if !input_exists {
        Err("Input path does not exist: "@ + spec_input_path(c).unwrap())
    } else if !f32_in_range(c.quality, F32_ZERO, F32_HUNDRED) {
        Err("Quality must be between 0 and 100"@)
    } else if !f32_in_range(c.alpha_quality, F32_ZERO, F32_HUNDRED) {
        Err("Alpha quality must be between 0 and 100"@)
    } else if c.speed > 10 {
        Err("Speed must be between 0 and 10"@)
    } else if c.raw_exposure@ != "auto"@ && exposure is None {
        Err("RAW exposure must be 'auto' or a number between 0.5 and 5.0"@)
    } else if !auto_or_in_range(c.raw_exposure@, exposure, F32_HALF, F32_FIVE) {
        Err("RAW exposure must be between 0.5 and 5.0"@)
    } else if !f32_in_range(c.raw_percentile, F32_HALF, F32_ONE) {
        Err("RAW percentile must be between 0.5 and 1.0"@)
    } else if c.raw_saturation@ != "auto"@ && saturation is None {
        Err("RAW saturation must be 'auto' or a number between 0.5 and 2.0"@)
    } else if !auto_or_in_range(c.raw_saturation@, saturation, F32_HALF, F32_TWO) {
        Err("RAW saturation must be between 0.5 and 2.0"@)
    } else if !f32_in_range(c.raw_contrast, F32_HALF, F32_TWO) {
        Err("RAW contrast must be between 0.5 and 2.0"@)
    } else if spec_is_directory_mode(c) && !input_is_dir {
        Err("Directory mode requires a directory as input"@)
    } else if !spec_is_directory_mode(c) && c.input is Some && input_is_dir {
        Err("Input is a directory. Use -d for directory or -r for recursive mode"@)
    } else {
        Ok(())
    }
}

/// A configuration that passes validation has an input that exists, numbers
/// within their documented ranges, raw settings that are "auto" or numbers
/// within range, and an input of the kind that its mode needs.
pub proof fn lemma_valid_config_within_ranges(
    c: Config,
    input_exists: bool,
    input_is_dir: bool,
    exposure: Option<u32>,
    saturation: Option<u32>,
)
    requires
        spec_validate(c, input_exists, input_is_dir, exposure, saturation) is Ok,
    ensures
        spec_input_path(c) is Some,
        input_exists,
        f32_in_range(c.quality, F32_ZERO, F32_HUNDRED),
        f32_in_range(c.alpha_quality, F32_ZERO, F32_HUNDRED),
        c.speed <= 10,
        auto_or_in_range(c.raw_exposure@, exposure, F32_HALF, F32_FIVE),
        f32_in_range(c.raw_percentile, F32_HALF, F32_ONE),
        auto_or_in_range(c.raw_saturation@, saturation, F32_HALF, F32_TWO),
        f32_in_range(c.raw_contrast, F32_HALF, F32_TWO),
        spec_is_directory_mode(c) ==> input_is_dir,
        !spec_is_directory_mode(c) ==> !input_is_dir,
{
}

/// A configuration whose every setting lies in its documented range passes
/// validation: an input that exists and is of the kind its mode needs,
/// quality and alpha quality from 0 to 100, speed at most 10, raw exposure
/// "auto" or a number from 0.5 to 5.0, percentile from 0.5 to 1.0, raw
/// saturation "auto" or a number from 0.5 to 2.0, contrast from 0.5 to 2.0.
pub proof fn lemma_config_within_ranges_is_valid(
    c: Config,
    input_exists: bool,
    input_is_dir: bool,
    exposure: Option<u32>,
    saturation: Option<u32>,
)
    requires
        spec_input_path(c) is Some,
        input_exists,
        spec_is_directory_mode(c) ==> input_is_dir,
        !spec_is_directory_mode(c) ==> !input_is_dir,
        f32_in_range(c.quality, F32_ZERO, F32_HUNDRED),
        f32_in_range(c.alpha_quality, F32_ZERO, F32_HUNDRED),
        c.speed <= 10,
        c.raw_exposure@ == "auto"@ || (exposure matches Some(v) && f32_in_range(v, F32_HALF, F32_FIVE)),
        f32_in_range(c.raw_percentile, F32_HALF, F32_ONE),
        c.raw_saturation@ == "auto"@ || (saturation matches Some(v) && f32_in_range(
            v,
            F32_HALF,
            F32_TWO,
        )),
        f32_in_range(c.raw_contrast, F32_HALF, F32_TWO),
    ensures
        spec_validate(c, input_exists, input_is_dir, exposure, saturation) == Ok::<(), Seq<char>>(()),
{
}

/// The name of an output file is the input's file stem, unchanged, followed
/// by ".avif".
pub proof fn lemma_avif_name_keeps_stem(stem: Seq<char>)
    ensures
        spec_avif_file_name(Some(stem)).len() == stem.len() + 5,
        spec_avif_file_name(Some(stem)).subrange(0, stem.len() as int) == stem,
        spec_avif_file_name(Some(stem)).subrange(stem.len() as int, stem.len() + 5int) == seq![
            '.',
            'a',
            'v',
            'i',
            'f',
        ],
{
    let n = spec_avif_file_name(Some(stem));
    reveal_strlit(".avif");
    assert(n.subrange(0, stem.len() as int) =~= stem);
    assert(n.subrange(stem.len() as int, stem.len() + 5int) =~= seq!['.', 'a', 'v', 'i', 'f']);
}

/// Where output files go: in directory mode with an output directory, the
/// file is named after the input's stem alone, so inputs with the same stem
/// in different directories meet the same path; in single-file mode the given
/// output path is used whatever the input; without an output, the file goes
/// beside its input, into the current directory for an input without one.
pub proof fn lemma_output_path_placement(c: Config, a: Seq<char>, b: Seq<char>)
    ensures
        c.output is Some && spec_is_directory_mode(c) ==> spec_output_path(c, a) == spec_path_join(
            c.output->Some_0@,
            spec_avif_file_name(spec_path_file_stem(a)),
        ),
        c.output is Some && spec_is_directory_mode(c) && spec_path_file_stem(a) == spec_path_file_stem(b)
            ==> spec_output_path(c, a) == spec_output_path(c, b),
        c.output is Some && !spec_is_directory_mode(c) ==> spec_output_path(c, a) == c.output->Some_0@,
        c.output is None && spec_path_parent(a) is Some ==> spec_output_path(c, a) == spec_path_join(
            spec_path_parent(a)->Some_0,
            spec_avif_file_name(spec_path_file_stem(a)),
        ),
        c.output is None && spec_path_parent(a) is None ==> spec_output_path(c, a) == spec_path_join(
            "."@,
            spec_avif_file_name(spec_path_file_stem(a)),
        ),
{
}

/// The input is the single file when one is given, else the directory, else
/// the recursive directory.
pub proof fn lemma_input_path_priority(c: Config)
    ensures
        c.input is Some ==> spec_input_path(c) == Some(c.input->Some_0@),
        c.input is None && c.directory is Some ==> spec_input_path(c) == Some(c.directory->Some_0@),
        c.input is None && c.directory is None && c.recursive_dir is Some ==> spec_input_path(c) == Some(
            c.recursive_dir->Some_0@,
        ),
        c.input is None && c.directory is None && c.recursive_dir is None ==> spec_input_path(c) is None,
{
}

/// The view of a validation outcome.
pub open spec fn outcome_view(r: Result<(), String>) -> Result<(), Seq<char>> {
    match r {
        Ok(()) => Ok(()),
        Err(m) => Err(m@),
    }
}

/// Whether an optional raw setting asks to be chosen automatically.
pub fn is_auto_setting(text: &str) -> (r: bool)
    ensures
        r == (text@ == "auto"@),
{
    str_equal(text, "auto")
}

/// The name of the AVIF file for an input with the given file stem.
pub fn avif_file_name(stem: Option<String>) -> (r: String)
    ensures
        r@ == spec_avif_file_name(opt_view(stem)),
{
    match stem {
        Some(s) => s.concat(".avif"),
        None => String::from_str(".avif"),
    }
}

/// The directory of an input, or `.` when it has none.
pub fn parent_or_current(parent: Option<String>) -> (r: String)
    ensures
        r@ == spec_parent_or_current(opt_view(parent)),
{
    match parent {
        Some(p) => p,
        None => String::from_str("."),
    }
}

impl Config {
    /// The input path: the single file, else the directory, else the recursive
    /// directory; an error message when none is given.
    pub fn get_input_path(&self) -> (r: Result<String, String>)
        ensures
            spec_input_path(*self) matches Some(p) ==> (r matches Ok(s) && s@ == p),
            spec_input_path(*self) is None ==> (r matches Err(m) && m@ == no_input_message()),
    {
        if let Some(path) = &self.input {
            Ok(path.clone())
        } else if let Some(path) = &self.directory {
            Ok(path.clone())
        } else if let Some(path) = &self.recursive_dir {
            Ok(path.clone())
        } else {
            Err(String::from_str(
                "No input specified. Use -i for single file, -d for directory, or -r for recursive directory",
            ))
        }
    }

    /// Whether a directory is to be processed (with or without recursion).
    pub fn is_directory_mode(&self) -> (r: bool)
        ensures
            r == spec_is_directory_mode(*self),
    {
        self.directory.is_some() || self.recursive_dir.is_some()
    }

    /// Whether subdirectories are processed too.
    pub fn is_recursive(&self) -> (r: bool)
        ensures
            r == self.recursive_dir is Some,
    {
        self.recursive_dir.is_some()
    }

    /// The path of the AVIF file for an input (see `spec_output_path`).
    pub fn get_output_path(&self, input_path: &str) -> (r: String)
        ensures
            r@ == spec_output_path(*self, input_path@),
    {
        if let Some(output) = &self.output {
            if self.is_directory_mode() {
                let name = avif_file_name(path_file_stem(input_path));
                path_join(output.as_str(), name.as_str())
            } else {
                output.clone()
            }
        } else {
            let name = avif_file_name(path_file_stem(input_path));
            let parent = parent_or_current(path_parent(input_path));
            path_join(parent.as_str(), name.as_str())
        }
    }

    /// Checks the configuration and returns the message of the first rule it
    /// breaks (see `spec_validate` for the rules, their order and the meaning
    /// of the arguments).
    pub fn validate(
        &self,
        input_exists: bool,
        input_is_dir: bool,
        exposure: Option<u32>,
        saturation: Option<u32>,
    ) -> (r: Result<(), String>)
        ensures
            outcome_view(r) == spec_validate(*self, input_exists, input_is_dir, exposure, saturation),
    {
        if self.input.is_none() && self.directory.is_none() && self.recursive_dir.is_none() {
            return Err(String::from_str(
                "No input specified. Use -i for single file, -d for directory, or -r for recursive directory",
            ));
        }
        let input_path = match self.get_input_path() {
            Ok(p) => p,
            Err(m) => return Err(m),
        };
        if !input_exists {
            return Err(String::from_str("Input path does not exist: ").concat(input_path.as_str()));
        }
        if !f32_bits_in_range(self.quality, F32_ZERO, F32_HUNDRED) {
            return Err(String::from_str("Quality must be between 0 and 100"));
        }
        if !f32_bits_in_range(self.alpha_quality, F32_ZERO, F32_HUNDRED) {
            return Err(String::from_str("Alpha quality must be between 0 and 100"));
        }
        if self.speed > 10 {
            return Err(String::from_str("Speed must be between 0 and 10"));
        }
        if !is_auto_setting(self.raw_exposure.as_str()) {
            match exposure {
                Some(v) => {
                    if !f32_bits_in_range(v, F32_HALF, F32_FIVE) {
                        return Err(String::from_str("RAW exposure must be between 0.5 and 5.0"));
                    }
                },
                None => {
                    return Err(String::from_str(
                        "RAW exposure must be 'auto' or a number between 0.5 and 5.0",
                    ));
                },
            }
        }
        if !f32_bits_in_range(self.raw_percentile, F32_HALF, F32_ONE) {
            return Err(String::from_str("RAW percentile must be between 0.5 and 1.0"));
        }
        if !is_auto_setting(self.raw_saturation.as_str()) {
            match saturation {
                Some(v) => {
                    if !f32_bits_in_range(v, F32_HALF, F32_TWO) {
                        return Err(String::from_str("RAW saturation must be between 0.5 and 2.0"));
                    }
                },
                None => {
                    return Err(String::from_str(
                        "RAW saturation must be 'auto' or a number between 0.5 and 2.0",
                    ));
                },
            }
        }
        if !f32_bits_in_range(self.raw_contrast, F32_HALF, F32_TWO) {
            return Err(String::from_str("RAW contrast must be between 0.5 and 2.0"));
        }
        if self.is_directory_mode() && !input_is_dir {
            return Err(String::from_str("Directory mode requires a directory as input"));
        }
        if !self.is_directory_mode() && self.input.is_some() && input_is_dir {
            return Err(String::from_str(
                "Input is a directory. Use -d for directory or -r for recursive mode",
            ));
        }
        Ok(())
    }
}

} // verus!
