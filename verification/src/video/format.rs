use crate::error::Error;
use crate::text::same_text;
use crate::utils::{extension_of, get_file_extension};
use vstd::prelude::*;

verus! {

/// The container formats that a video can be read from and written to.
#[derive(Debug, Clone, Copy, PartialEq, Eq, Structural)]
pub enum VideoFormat {
    MP4,
    MKV,
}

impl VideoFormat {
    /// The format that goes by `extension`.
    pub open spec fn for_extension(extension: Seq<char>) -> Option<VideoFormat> {
        if extension == "mp4"@ {
            Some(VideoFormat::MP4)
        } else if extension == "mkv"@ {
            Some(VideoFormat::MKV)
        } else {
            None
        }
    }

    /// The format of the file at `file`, by its extension.
    pub open spec fn for_path(file: Seq<char>) -> Result<VideoFormat, Error> {
        match extension_of(file) {
            Some(extension) => match Self::for_extension(extension) {
                Some(format) => Ok(format),
                None => Err(Error::UnsupportedExtension),
            },
            None => Err(Error::UnsupportedExtension),
        }
    }

    /// Whether a container of this format holds more than one subtitle stream.
    pub open spec fn holds_many_subtitles(self) -> bool {
        self != VideoFormat::MP4
    }

    /// Looks `extension` up among the supported video extensions. The match
    /// is exact: `"MP4"` is not `"mp4"`.
    pub fn from_extension(extension: &str) -> (format: Option<VideoFormat>)
        ensures
            format == Self::for_extension(extension@),
    {
        if same_text(extension, "mp4") {
            Some(VideoFormat::MP4)
        } else if same_text(extension, "mkv") {
            Some(VideoFormat::MKV)
        } else {
            None
        }
    }

    /// The format of the video at `file`. A path without an extension, or
    /// with one that is not a video's, is refused with `UnsupportedExtension`.
    pub fn new(file: &str) -> (format: Result<VideoFormat, Error>)
        ensures
            format == Self::for_path(file@),
    {
        match get_file_extension(file) {
            Ok(extension) => match Self::from_extension(extension.as_str()) {
                Some(format) => Ok(format),
                None => Err(Error::UnsupportedExtension),
            },
            Err(error) => Err(error),
        }
    }
}

} // verus!
