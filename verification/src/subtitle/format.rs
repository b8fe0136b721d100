use crate::error::Error;
use crate::text::same_text;
use crate::utils::{extension_of, get_file_extension};
use vstd::prelude::*;
use vstd::string::StringExecFns;

verus! {

/// The formats that a subtitle file can be in.
#[derive(Debug, Clone, Copy, PartialEq, Eq, Structural)]
pub enum SubtitleFormat {
    Srt,
}

impl SubtitleFormat {
    /// The format that goes by `extension`.
    pub open spec fn for_extension(extension: Seq<char>) -> Option<SubtitleFormat> {
        if extension == "srt"@ {
            Some(SubtitleFormat::Srt)
        } else {
            None
        }
    }

    /// The format of the file at `file`, by its extension.
    pub open spec fn for_path(file: Seq<char>) -> Result<SubtitleFormat, Error> {
        match extension_of(file) {
            Some(extension) => match Self::for_extension(extension) {
                Some(format) => Ok(format),
                None => Err(Error::UnsupportedExtension),
            },
            None => Err(Error::UnsupportedExtension),
        }
    }

    /// The extension that files of this format go by, which is also the
    /// name that the merge tool knows the format under.
    pub open spec fn extension(self) -> Seq<char> {
        match self {
            SubtitleFormat::Srt => "srt"@,
        }
    }

    /// Looks `extension` up among the supported subtitle extensions. The
    /// match is exact: `"SRT"` is not `"srt"`.
    pub fn from_extension(extension: &str) -> (format: Option<SubtitleFormat>)
        ensures
            format == Self::for_extension(extension@),
    {
        if same_text(extension, "srt") {
            Some(SubtitleFormat::Srt)
        } else {
            None
        }
    }

    /// The format of the subtitle file at `file`. A path without an extension,
    /// or with one that is not a subtitle's, is refused with
    /// `UnsupportedExtension`.
    pub fn new(file: &str) -> (format: Result<SubtitleFormat, Error>)
        ensures
            format == Self::for_path(file@),
    {
        match get_file_extension(file) {
            Ok(extension) => match Self::from_extension(extension.as_str()) {
                Some(format) => Ok(format),
                None => Err(Error::UnsupportedExtension),
            },
            Err(error) => Err(error),
        }
    }

    /// The extension of this format, without the dot.
    pub fn to_extension(&self) -> (extension: String)
        ensures
            extension@ == self.extension(),
    {
        match self {
            SubtitleFormat::Srt => String::from_str("srt"),
        }
    }
}

} // verus!
