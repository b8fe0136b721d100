use vstd::prelude::*;
use vstd::string::StringExecFns;

verus! {

/// Why a merge cannot go on. Every error ends the run where it is found.
#[derive(Clone, Copy, Debug, PartialEq, Eq, Structural)]
pub enum Error {
    /// Nothing exists at the path of an input file.
    FileNotFound,
    /// The path of an input file names something that is not a regular file,
    /// or has no file name at all.
    NotAFile,
    /// The path has no extension, or one that no known format goes by.
    UnsupportedExtension,
    /// The language is not one of the supported ones.
    UnsupportedLanguage,
    /// The file is not UTF-8 and no fallback encoding decodes it.
    EncodingDetectionFailure,
    /// The path cannot be written as text.
    InvalidPathEncoding,
    /// The output path is the input path, or is taken already.
    OutputPathCollision,
    /// The output container cannot hold as many subtitle streams as were asked for.
    ContainerCapabilityViolation,
    /// The merge tool could not be run to its end.
    ExternalProcessFailure,
    /// A file could not be read or written.
    IoFailure,
    /// A record was built before its file was given.
    MissingFileName,
    /// A record was built before its format was known.
    MissingFormat,
    /// A subtitle record was built before its handling policy was given.
    MissingHandling,
}

impl Error {
    /// The text of `message`.
    pub open spec fn message_text(self) -> Seq<char> {
        match self {
            Error::FileNotFound => "The file does not exist. Please select an existing file."@,
            Error::NotAFile => "The path is not a file. Please select a valid file path."@,
            Error::UnsupportedExtension => "The file extension is missing or not supported."@,
            Error::UnsupportedLanguage => "Language not supported"@,
            Error::EncodingDetectionFailure =>
                "Failed to read the file with UTF-8 or any of the preferred encoders."@,
            Error::InvalidPathEncoding => "The file name is not valid UTF-8. Please rename the file."@,
            Error::OutputPathCollision =>
                "Output file can't be an existing path or the same path as input file"@,
            Error::ContainerCapabilityViolation =>
                "The output video format does not support multiple subtitle streams."@,
            Error::ExternalProcessFailure => "The external tool did not finish."@,
            Error::IoFailure => "A file could not be read or written."@,
            Error::MissingFileName => "A file name is required."@,
            Error::MissingFormat => "The file format is not defined."@,
            Error::MissingHandling =>
                "The subtitle mode is not defined. Please select a valid mode."@,
        }
    }

    /// What to tell the user.
    pub fn message(&self) -> (text: String)
        ensures
            text@ == self.message_text(),
    {
        let text = match self {
            Error::FileNotFound => "The file does not exist. Please select an existing file.",
            Error::NotAFile => "The path is not a file. Please select a valid file path.",
            Error::UnsupportedExtension => "The file extension is missing or not supported.",
            Error::UnsupportedLanguage => "Language not supported",
            Error::EncodingDetectionFailure =>
                "Failed to read the file with UTF-8 or any of the preferred encoders.",
            Error::InvalidPathEncoding => "The file name is not valid UTF-8. Please rename the file.",
            Error::OutputPathCollision =>
                "Output file can't be an existing path or the same path as input file",
            Error::ContainerCapabilityViolation =>
                "The output video format does not support multiple subtitle streams.",
            Error::ExternalProcessFailure => "The external tool did not finish.",
            Error::IoFailure => "A file could not be read or written.",
            Error::MissingFileName => "A file name is required.",
            Error::MissingFormat => "The file format is not defined.",
            Error::MissingHandling =>
                "The subtitle mode is not defined. Please select a valid mode.",
        };
        String::from_str(text)
    }
}

} // verus!
