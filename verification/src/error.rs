use vstd::prelude::*;

verus! {

/// Everything that can go wrong while converting an image.
///
/// Each variant carries the text that its message shows after the prefix.
#[derive(Debug, PartialEq, Eq)]
pub enum ConversionError {
    /// A file could not be read, written or removed; holds the system's message.
    Io(String),
    ImageDecode(String),
    AvifEncode(String),
    InputNotFound(String),
    UnsupportedFormat(String),
    InvalidParameter(String),
    RawDecode(String),
    NoImagesFound(String),
}

/// The fixed text that stands before the payload in each variant's message.
pub open spec fn message_prefix(e: ConversionError) -> Seq<char> {
    match e {
        ConversionError::Io(_) => "I/O error: "@,
        ConversionError::ImageDecode(_) => "Image decode error: "@,
        ConversionError::AvifEncode(_) => "AVIF encode error: "@,
        ConversionError::InputNotFound(_) => "Input file not found: "@,
        ConversionError::UnsupportedFormat(_) => "Unsupported format: "@,
        ConversionError::InvalidParameter(_) => "Invalid parameter: "@,
        ConversionError::RawDecode(_) => "Raw image decode error: "@,
        ConversionError::NoImagesFound(_) => "No valid images found in directory: "@,
    }
}

/// The text that a variant carries.
pub open spec fn payload(e: ConversionError) -> Seq<char> {
    match e {
        ConversionError::Io(s) => s@,
        ConversionError::ImageDecode(s) => s@,
        ConversionError::AvifEncode(s) => s@,
        ConversionError::InputNotFound(s) => s@,
        ConversionError::UnsupportedFormat(s) => s@,
        ConversionError::InvalidParameter(s) => s@,
        ConversionError::RawDecode(s) => s@,
        ConversionError::NoImagesFound(s) => s@,
    }
}

impl ConversionError {
    /// The human-readable message of the error: its prefix, then its payload.
    pub fn message(&self) -> (r: String)
        ensures
            r@ == message_prefix(*self) + payload(*self),
    {
        let (prefix, text) = match self {
            ConversionError::Io(s) => ("I/O error: ", s),
            ConversionError::ImageDecode(s) => ("Image decode error: ", s),
            ConversionError::AvifEncode(s) => ("AVIF encode error: ", s),
            ConversionError::InputNotFound(s) => ("Input file not found: ", s),
            ConversionError::UnsupportedFormat(s) => ("Unsupported format: ", s),
            ConversionError::InvalidParameter(s) => ("Invalid parameter: ", s),
            ConversionError::RawDecode(s) => ("Raw image decode error: ", s),
            ConversionError::NoImagesFound(s) => ("No valid images found in directory: ", s),
        };
        let r = String::from_str(prefix);
        r.concat(text.as_str())
    }
}

} // verus!
