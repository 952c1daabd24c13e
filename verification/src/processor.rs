use vstd::prelude::*;
use crate::config::{no_input_message, spec_input_path, spec_is_directory_mode, Config};
use crate::raw_decoder::{spec_is_raw_file, RawDecoder};
use crate::converter::Converter;
use crate::error::ConversionError;
use crate::paths::{path_extension, spec_path_extension};
use crate::text::{spec_to_lowercase, starts_with_dot, str_equal, to_lowercase};

verus! {

/// The lower-case extensions of the ordinary image formats that are converted.
pub open spec fn image_extension_list() -> Seq<Seq<char>> {
    seq!["jpg"@, "jpeg"@, "png"@, "bmp"@, "gif"@, "tiff"@, "tif"@, "webp"@, "ico"@]
}

/// The ordinary image formats are recognised by their extensions (JPEG as
/// jpg or jpeg, PNG, BMP, GIF, TIFF as tiff or tif, WebP, ICO), and every raw
/// camera file is an image to convert too.
pub proof fn lemma_supported_formats_are_images(path: Seq<char>)
    ensures
        ({
            let ext = spec_to_lowercase(spec_path_extension(path)->Some_0);
            spec_path_extension(path) is Some && (ext == "jpg"@ || ext == "jpeg"@ || ext == "png"@
                || ext == "bmp"@ || ext == "gif"@ || ext == "tiff"@ || ext == "tif"@ || ext == "webp"@
                || ext == "ico"@) ==> spec_is_image_file(path)
        }),
        spec_is_raw_file(path) ==> spec_is_image_file(path),
{
    let l = image_extension_list();
    assert(l[0] == "jpg"@ && l[1] == "jpeg"@ && l[2] == "png"@ && l[3] == "bmp"@ && l[4] == "gif"@);
    assert(l[5] == "tiff"@ && l[6] == "tif"@ && l[7] == "webp"@ && l[8] == "ico"@);
}

/// Whether a path names an image file that is converted: its extension,
/// lower-cased, is one of the ordinary image formats, or it is a raw camera
/// file.
pub open spec fn spec_is_image_file(path: Seq<char>) -> bool {
    ||| match spec_path_extension(path) {
        Some(e) => image_extension_list().contains(spec_to_lowercase(e)),
        None => false,
    }
    ||| spec_is_raw_file(path)
}

/// What to do with an input after its conversion.
#[derive(Debug, PartialEq, Eq)]
pub enum FileStep {
    /// The AVIF file of this many bytes was written; remove the original.
    DeleteOriginal(u64),
    /// Leave the original; the result is this many bytes (0 when the AVIF
    /// file was thrown away for being larger).
    Done(u64),
    /// The conversion failed with this error; leave the original.
    Failed(ConversionError),
}

/// What follows a conversion whose outcome is `outcome`, when originals are
/// to be deleted (`delete_original`) or not, and where the output was
/// written to the input's own path (`same_file`) or not.
pub open spec fn spec_after_conversion(
    delete_original: bool,
    same_file: bool,
    outcome: Result<u64, ConversionError>,
) -> FileStep {
    match outcome {
        Ok(size) => if delete_original && size > 0 && !same_file {
            FileStep::DeleteOriginal(size)
        } else {
            FileStep::Done(size)
        },
        Err(e) => FileStep::Failed(e),
    }
}

/// An original file is removed only after its conversion succeeded and wrote
/// an AVIF file (of positive size), and only when deletion was asked for: a
/// failed conversion, or a result thrown away for being larger (size 0),
/// always leaves the original in place; and the file removed is never the
/// AVIF file just written.
pub proof fn lemma_original_removed_only_after_written(
    delete_original: bool,
    same_file: bool,
    outcome: Result<u64, ConversionError>,
)
    ensures
        spec_after_conversion(delete_original, same_file, outcome) matches FileStep::DeleteOriginal(s)
            ==> (delete_original && !same_file && outcome == Ok::<u64, ConversionError>(s) && s > 0),
        outcome is Err ==> spec_after_conversion(delete_original, same_file, outcome) is Failed,
        outcome == Ok::<u64, ConversionError>(0) ==> spec_after_conversion(
            delete_original,
            same_file,
            outcome,
        ) == FileStep::Done(0),
{
}

/// When deletion is asked for, a conversion that wrote an AVIF file (of
/// positive size) to another path than the input's has its original
/// removed; without it, every success is done with its size; a failure is
/// passed on as it is.
pub proof fn lemma_original_removed_after_success(
    delete_original: bool,
    same_file: bool,
    outcome: Result<u64, ConversionError>,
)
    ensures
        outcome matches Ok(s) && s > 0 && delete_original && !same_file ==> spec_after_conversion(
            delete_original,
            same_file,
            outcome,
        ) == FileStep::DeleteOriginal(outcome->Ok_0),
        outcome is Ok && !delete_original ==> spec_after_conversion(delete_original, same_file, outcome)
            == FileStep::Done(outcome->Ok_0),
        outcome is Err ==> spec_after_conversion(delete_original, same_file, outcome) == FileStep::Failed(
            outcome->Err_0,
        ),
{
}

/// How a run begins.
#[derive(Debug, PartialEq, Eq)]
pub enum RunPlan {
    /// Convert this single file.
    SingleFile(String),
    /// Gather the images under this directory and convert each.
    Directory(String),
}

/// The counts of a directory run.
#[derive(Clone, Copy, Debug, PartialEq, Eq, Structural)]
pub struct RunSummary {
    pub successful: u64,
    pub failed: u64,
    /// The sum of the sizes of the AVIF files written.
    pub total_size: u64,
}

impl RunSummary {
    /// A summary of no file.
    pub fn new() -> (r: RunSummary)
        ensures
            r.successful == 0,
            r.failed == 0,
            r.total_size == 0,
    {
        RunSummary { successful: 0, failed: 0, total_size: 0 }
    }

    /// Counts one more file: a success adds its size to the total, a failure
    /// only counts.
    pub fn record(&mut self, outcome: &Result<u64, ConversionError>)
        requires
            old(self).successful < u64::MAX,
            old(self).failed < u64::MAX,
            outcome matches Ok(size) ==> old(self).total_size + *size <= u64::MAX,
        ensures
            outcome matches Ok(size) ==> *final(self) == (RunSummary {
                successful: (old(self).successful + 1) as u64,
                failed: old(self).failed,
                total_size: (old(self).total_size + *size) as u64,
            }),
            outcome is Err ==> *final(self) == (RunSummary {
                successful: old(self).successful,
                failed: (old(self).failed + 1) as u64,
                total_size: old(self).total_size,
            }),
    {
        match outcome {
            Ok(size) => {
                self.successful = self.successful + 1;
                self.total_size = self.total_size + *size;
            },
            Err(_) => {
                self.failed = self.failed + 1;
            },
        }
    }
}

/// Whether a directory entry is looked at: hidden entries (whose name
/// begins with a dot) are skipped, with all that they contain.
pub fn keep_entry(name: &str) -> (r: bool)
    ensures
        r == !(name@.len() > 0 && name@[0] == '.'),
{
    !starts_with_dot(name)
}

/// Whether an entry of a directory walk is looked at: the directory that the
/// walk starts from (at depth 0) always is, whatever its name (such as `.`);
/// below it, hidden entries are skipped.
pub fn keep_walk_entry(name: &str, depth: usize) -> (r: bool)
    ensures
        r == (depth == 0 || !(name@.len() > 0 && name@[0] == '.')),
{
    depth == 0 || keep_entry(name)
}

/// The outcome of a directory search: an error naming the directory when it
/// holds no image.
pub fn check_images_found(input_path: &str, count: usize) -> (r: Result<(), ConversionError>)
    ensures
        count == 0 ==> (r matches Err(ConversionError::NoImagesFound(d)) && d@ == input_path@),
        count > 0 ==> r is Ok,
{
    if count == 0 {
        Err(ConversionError::NoImagesFound(String::from_str(input_path)))
    } else {
        Ok(())
    }
}

/// Runs the conversion of a single file or of the images of a directory.
pub struct ImageProcessor {
    config: Config,
    converter: Converter,
    supported_extensions: Vec<String>,
}

impl ImageProcessor {
    #[verifier::type_invariant]
    spec fn supported_list(self) -> bool {
        self.supported_extensions@.map_values(|s: String| s@) == image_extension_list()
    }

    pub closed spec fn spec_config(self) -> Config {
        self.config
    }

    pub closed spec fn spec_converter(self) -> Converter {
        self.converter
    }

    /// A processor for a configuration, with the converter made from it.
    pub fn new(config: Config) -> (r: ImageProcessor)
        ensures
            r.spec_config() == config,
            r.spec_converter() == Converter::from_config_spec(config),
    {
        let converter = Converter::from_config(&config);
        let mut exts: Vec<String> = Vec::new();
        exts.push(String::from_str("jpg"));
        exts.push(String::from_str("jpeg"));
        exts.push(String::from_str("png"));
        exts.push(String::from_str("bmp"));
        exts.push(String::from_str("gif"));
        exts.push(String::from_str("tiff"));
        exts.push(String::from_str("tif"));
        exts.push(String::from_str("webp"));
        exts.push(String::from_str("ico"));
        assert(exts@.map_values(|s: String| s@) =~= image_extension_list());
        ImageProcessor { config, converter, supported_extensions: exts }
    }

    /// The configuration of the run.
    pub fn config(&self) -> (r: &Config)
        ensures
            *r == self.spec_config(),
    {
        &self.config
    }

    /// The converter of the run.
    pub fn converter(&self) -> (r: &Converter)
        ensures
            *r == self.spec_converter(),
    {
        &self.converter
    }

    /// Whether a path names an image file that is converted, by its
    /// extension in any case.
    pub fn is_image_file(&self, path: &str) -> (r: bool)
        ensures
            r == spec_is_image_file(path@),
    {
        if RawDecoder::is_raw_file(path) {
            return true;
        }
        proof {
            use_type_invariant(self);
        }
        let found = path_extension(path);
        match found {
            Some(ext) => {
                assert(spec_path_extension(path@) == Some(ext@));
                let lower = to_lowercase(ext.as_str());
                assert(lower@ == spec_to_lowercase(ext@));
                let n = self.supported_extensions.len();
                let mut i: usize = 0;
                while i < n
                    invariant
                        n == self.supported_extensions@.len(),
                        self.supported_extensions@.map_values(|s: String| s@) == image_extension_list(),
                        i <= n,
                        lower@ == spec_to_lowercase(ext@),
                        spec_path_extension(path@) == Some(ext@),
                        forall|j: int| 0 <= j < i ==> image_extension_list()[j] != lower@,
                    decreases n - i,
                {
                    if str_equal(self.supported_extensions[i].as_str(), lower.as_str()) {
                        assert(self.supported_extensions@.map_values(|s: String| s@)[i as int]
                            == self.supported_extensions@[i as int]@);
                        assert(image_extension_list()[i as int] == lower@);
                        assert(image_extension_list().contains(lower@));
                        return true;
                    }
                    assert(self.supported_extensions@.map_values(|s: String| s@)[i as int]
                        == self.supported_extensions@[i as int]@);
                    i = i + 1;
                }
                assert(!image_extension_list().contains(lower@));
                false
            },
            None => false,
        }
    }

    /// How the run begins: with the single input file, or with the input
    /// directory; an invalid-parameter error when no input is given.
    pub fn plan(&self) -> (r: Result<RunPlan, ConversionError>)
        ensures
            spec_input_path(self.spec_config()) matches Some(p) ==> (if spec_is_directory_mode(
                self.spec_config(),
            ) {
                r matches Ok(RunPlan::Directory(d)) && d@ == p
            } else {
                r matches Ok(RunPlan::SingleFile(f)) && f@ == p
            }),
            spec_input_path(self.spec_config()) is None ==> (r matches Err(
                ConversionError::InvalidParameter(m),
            ) && m@ == no_input_message()),
    {
        let input_path = match self.config.get_input_path() {
            Ok(p) => p,
            Err(e) => return Err(ConversionError::InvalidParameter(e)),
        };
        if !self.config.is_directory_mode() {
            Ok(RunPlan::SingleFile(input_path))
        } else {
            Ok(RunPlan::Directory(input_path))
        }
    }

    /// What to do after converting `input_path` into `output_path`: a
    /// failure leaves the original; a written file of positive size has its
    /// original removed when the configuration asks for it, unless the two
    /// paths are the same (the original was then overwritten by the AVIF
    /// file, which stays). The paths are compared as given: a caller passes
    /// them in canonical form.
    pub fn after_conversion(
        &self,
        input_path: &str,
        output_path: &str,
        outcome: Result<u64, ConversionError>,
    ) -> (r: FileStep)
        ensures
            r == spec_after_conversion(
                self.spec_config().delete_original,
                input_path@ == output_path@,
                outcome,
            ),
    {
        let same_file = str_equal(input_path, output_path);
        match outcome {
            Ok(size) => {
                if self.config.delete_original && size > 0 && !same_file {
                    FileStep::DeleteOriginal(size)
                } else {
                    FileStep::Done(size)
                }
            },
            Err(e) => FileStep::Failed(e),
        }
    }
}

} // verus!
