use crate::error::Error;
use crate::text::{join, text_of, text_or_error};
use crate::video::file::{built, with_checked_file, VideoFile, VideoFileBuilder};
use crate::video::format::VideoFormat;
use vstd::prelude::*;
use vstd::string::StringExecFns;

verus! {

/// What the file system holds at a path.
#[derive(Debug, Clone, Copy, PartialEq, Eq, Structural)]
pub enum FileStatus {
    /// Nothing.
    Missing,
    /// A regular file.
    File,
    /// Something that is not a regular file, such as a directory.
    Other,
}

/// Whether a file can be read from a path with this status.
pub open spec fn input_check(status: FileStatus) -> Result<(), Error> {
    match status {
        FileStatus::Missing => Err(Error::FileNotFound),
        FileStatus::Other => Err(Error::NotAFile),
        FileStatus::File => Ok(()),
    }
}

/// Whether a file can be written to a path with this status: the path must
/// be free.
pub open spec fn output_check(status: FileStatus) -> Result<(), Error> {
    match status {
        FileStatus::Missing => Ok(()),
        _ => Err(Error::OutputPathCollision),
    }
}

/// Whether a file can be read from a path with this status.
pub fn check_input(status: FileStatus) -> (checked: Result<(), Error>)
    ensures
        checked == input_check(status),
{
    match status {
        FileStatus::Missing => Err(Error::FileNotFound),
        FileStatus::Other => Err(Error::NotAFile),
        FileStatus::File => Ok(()),
    }
}

/// Whether a file can be written to a path with this status.
pub fn check_output(status: FileStatus) -> (checked: Result<(), Error>)
    ensures
        checked == output_check(status),
{
    match status {
        FileStatus::Missing => Ok(()),
        _ => Err(Error::OutputPathCollision),
    }
}

/// What `std::path::Path::file_stem` gives for the path written as `path`,
/// in the path syntax of the platform: the file name without its extension,
/// where the path has a file name.
pub uninterp spec fn file_stem_of(path: Seq<char>) -> Option<Seq<char>>;

/// What `std::path::Path::extension` gives for the path written as `path`,
/// in the path syntax of the platform: what follows the last dot of the file
/// name, where there is such a part.
pub uninterp spec fn extension_of(path: Seq<char>) -> Option<Seq<char>>;

/// Whether the paths written as `first` and `second` are equal as
/// `std::path::Path` values, that is, component by component.
pub uninterp spec fn same_path(first: Seq<char>, second: Seq<char>) -> bool;

/// What `std::path::Path::with_file_name` makes of the path written as
/// `path` and of `file_name`, in the path syntax of the platform: the path
/// with its file name replaced by `file_name`, and so a path in the same
/// directory.
pub uninterp spec fn with_file_name_of(path: Seq<char>, file_name: Seq<char>) -> Seq<char>;

/// Calls `std::path::Path::file_stem` on the path that `file` spells. Only
/// that the result depends on the spelling alone is taken on trust; a part of
/// a path spelled as text is text again.
#[verifier::external_body]
fn path_file_stem(file: &str) -> (stem: Option<String>)
    ensures
        text_of(stem) == file_stem_of(file@),
{
    match std::path::Path::new(file).file_stem() {
        Some(stem) => Some(stem.to_string_lossy().into_owned()),
        None => None,
    }
}

/// Calls `std::path::Path::extension` on the path that `file` spells. Only
/// that the result depends on the spelling alone is taken on trust.
#[verifier::external_body]
fn path_extension(file: &str) -> (extension: Option<String>)
    ensures
        text_of(extension) == extension_of(file@),
{
    match std::path::Path::new(file).extension() {
        Some(extension) => Some(extension.to_string_lossy().into_owned()),
        None => None,
    }
}

/// Calls `std::path::Path::with_file_name` on the path that `file` spells.
/// Only that the result depends on the two spellings alone is taken on
/// trust; a path made of text is text again.
#[verifier::external_body]
pub(crate) fn path_with_file_name(file: &str, file_name: &str) -> (path: String)
    ensures
        path@ == with_file_name_of(file@, file_name@),
{
    std::path::Path::new(file).with_file_name(file_name).to_string_lossy().into_owned()
}

/// Compares the two spellings as `std::path::Path` values, with `==`.
#[verifier::external_body]
fn path_eq(first: &str, second: &str) -> (same: bool)
    ensures
        same == same_path(first@, second@),
{
    std::path::Path::new(first) == std::path::Path::new(second)
}

/// The stem of `file`, or `NotAFile` for a path without a file name.
pub open spec fn file_stem(file: Seq<char>) -> Result<Seq<char>, Error> {
    match file_stem_of(file) {
        Some(stem) => Ok(stem),
        None => Err(Error::NotAFile),
    }
}

/// The extension of `file`, or `UnsupportedExtension` for a path without one.
pub open spec fn file_extension(file: Seq<char>) -> Result<Seq<char>, Error> {
    match extension_of(file) {
        Some(extension) => Ok(extension),
        None => Err(Error::UnsupportedExtension),
    }
}

/// The file name of `file` without its extension.
pub fn get_file_stem(file: &str) -> (stem: Result<String, Error>)
    ensures
        text_or_error(stem) == file_stem(file@),
{
    match path_file_stem(file) {
        Some(stem) => Ok(stem),
        None => Err(Error::NotAFile),
    }
}

/// The extension of `file`, without the dot.
pub fn get_file_extension(file: &str) -> (extension: Result<String, Error>)
    ensures
        text_or_error(extension) == file_extension(file@),
{
    match path_extension(file) {
        Some(extension) => Ok(extension),
        None => Err(Error::UnsupportedExtension),
    }
}

/// The path that the output goes to by default: `{stem}-subs.{extension}`,
/// after the stem and the extension of the input.
pub open spec fn default_output(input_file: Seq<char>) -> Result<Seq<char>, Error> {
    match file_stem_of(input_file) {
        None => Err(Error::NotAFile),
        Some(stem) => match extension_of(input_file) {
            None => Err(Error::UnsupportedExtension),
            Some(extension) => Ok(stem + "-subs."@ + extension),
        },
    }
}

/// The path that the output goes to: the one asked for, or the default one,
/// and in no case that of the input.
pub open spec fn output_path(output_file: Option<Seq<char>>, input_file: Seq<char>) -> Result<
    Seq<char>,
    Error,
> {
    let wanted = match output_file {
        Some(output_file) => Ok(output_file),
        None => default_output(input_file),
    };
    match wanted {
        Err(error) => Err(error),
        Ok(path) => if same_path(path, input_file) {
            Err(Error::OutputPathCollision)
        } else {
            Ok(path)
        },
    }
}

/// The output video: its path, and the format that the path asks for. The
/// path is settled first; then it must be free, and of a known format.
pub open spec fn parsed_output(
    output_file: Option<Seq<char>>,
    input_file: Seq<char>,
    status: FileStatus,
) -> Result<(Seq<char>, VideoFormat), Error> {
    match output_path(output_file, input_file) {
        Err(error) => Err(error),
        Ok(path) => match with_checked_file(path, output_check(status)) {
            Err(error) => Err(error),
            Ok(parts) => built(parts),
        },
    }
}

/// What is asked for, where something is.
pub open spec fn wanted_text(text: Option<&str>) -> Option<Seq<char>> {
    match text {
        Some(text) => Some(text@),
        None => None,
    }
}

/// Settles the path of the output, from the one asked for, if any, and that
/// of the input. This looks at the two spellings only, not at any file: a
/// path that is the input's is refused with `OutputPathCollision` here.
pub fn get_output_file_name(output_file: Option<&str>, input_file: &str) -> (path: Result<
    String,
    Error,
>)
    ensures
        text_or_error(path) == output_path(wanted_text(output_file), input_file@),
{
    let path = match output_file {
        Some(output_file) => String::from_str(output_file),
        None => {
            let stem = match get_file_stem(input_file) {
                Ok(stem) => stem,
                Err(error) => {
                    return Err(error);
                },
            };
            let extension = match get_file_extension(input_file) {
                Ok(extension) => extension,
                Err(error) => {
                    return Err(error);
                },
            };
            join(stem.as_str(), "-subs.").concat(extension.as_str())
        },
    };
    if path_eq(path.as_str(), input_file) {
        Err(Error::OutputPathCollision)
    } else {
        Ok(path)
    }
}

/// The video to write: at `output_file`, or at the default path beside the
/// name of `input_file`. `status` is what the file system holds at the path
/// that `get_output_file_name` settles on; it is looked at only once that
/// path is known to differ from the input's.
pub fn parse_output_file(output_file: Option<&str>, input_file: &str, status: FileStatus) -> (video:
    Result<VideoFile, Error>)
    ensures
        match video {
            Ok(video) => parsed_output(wanted_text(output_file), input_file@, status) == Ok::<
                _,
                Error,
            >((video.file_name@, video.format)),
            Err(error) => parsed_output(wanted_text(output_file), input_file@, status) == Err::<
                (Seq<char>, VideoFormat),
                _,
            >(error),
        },
{
    let path = match get_output_file_name(output_file, input_file) {
        Ok(path) => path,
        Err(error) => {
            return Err(error);
        },
    };
    match VideoFileBuilder::new().with_output_file(path.as_str(), status) {
        Ok(builder) => builder.build(),
        Err(error) => Err(error),
    }
}

/// An output path that is the input's is refused with `OutputPathCollision`
/// whatever the file system holds there: the refusal needs no look at it.
pub proof fn collision_needs_no_file(output_file: Seq<char>, input_file: Seq<char>, status: FileStatus)
    ensures
        same_path(output_file, input_file) ==> output_path(Some(output_file), input_file) == Err::<
            Seq<char>,
            _,
        >(Error::OutputPathCollision),
        same_path(output_file, input_file) ==> parsed_output(
            Some(output_file),
            input_file,
            status,
        ) == Err::<(Seq<char>, VideoFormat), _>(Error::OutputPathCollision),
{
}

} // verus!
