use crate::error::Error;
use crate::external::ffprobe;
use crate::utils::{check_input, check_output, input_check, output_check, FileStatus};
use crate::video::format::VideoFormat;
use vstd::prelude::*;
use vstd::string::StringExecFns;

verus! {

/// Puts a `VideoFile` together from a path that has been checked.
pub struct VideoFileBuilder {
    file_name: Option<String>,
    format: Option<VideoFormat>,
}

/// What a `VideoFileBuilder` has been given so far.
pub struct VideoFileParts {
    pub file_name: Option<Seq<char>>,
    pub format: Option<VideoFormat>,
}

impl View for VideoFileBuilder {
    type V = VideoFileParts;

    closed spec fn view(&self) -> VideoFileParts {
        VideoFileParts {
            file_name: match self.file_name {
                Some(file_name) => Some(file_name@),
                None => None,
            },
            format: self.format,
        }
    }
}

/// What a fallible builder has been given.
pub open spec fn parts_or_error(builder: Result<VideoFileBuilder, Error>) -> Result<
    VideoFileParts,
    Error,
> {
    match builder {
        Ok(builder) => Ok(builder@),
        Err(error) => Err(error),
    }
}

/// What a builder holds once it has been given the file at `file_name`, of
/// which the check said `checked`: the refusal of the check comes before
/// that of the extension.
pub open spec fn with_checked_file(file_name: Seq<char>, checked: Result<(), Error>) -> Result<
    VideoFileParts,
    Error,
> {
    match checked {
        Err(error) => Err(error),
        Ok(()) => match VideoFormat::for_path(file_name) {
            Err(error) => Err(error),
            Ok(format) => Ok(VideoFileParts { file_name: Some(file_name), format: Some(format) }),
        },
    }
}

/// The video that is built from `parts`, or the refusal that names the first
/// part that is missing.
pub open spec fn built(parts: VideoFileParts) -> Result<(Seq<char>, VideoFormat), Error> {
    match parts.file_name {
        None => Err(Error::MissingFileName),
        Some(file_name) => match parts.format {
            None => Err(Error::MissingFormat),
            Some(format) => Ok((file_name, format)),
        },
    }
}

impl VideoFileBuilder {
    /// A builder that has been given nothing.
    pub fn new() -> (builder: VideoFileBuilder)
        ensures
            builder@ == (VideoFileParts { file_name: None, format: None }),
    {
        VideoFileBuilder { file_name: None, format: None }
    }

    /// Gives the builder the video to read, at `file_name`, where the file
    /// system holds `status`. A path with nothing at it is refused with
    /// `FileNotFound`, one with something other than a file with `NotAFile`,
    /// and a file of no known video format with `UnsupportedExtension`.
    pub fn with_input_file(self, file_name: &str, status: FileStatus) -> (builder: Result<
        VideoFileBuilder,
        Error,
    >)
        ensures
            parts_or_error(builder) == with_checked_file(file_name@, input_check(status)),
    {
        let validator = |file: &str| -> (checked: Result<(), Error>)
            ensures
                checked == input_check(status),
            { check_input(status) };
        self.with_file(file_name, validator)
    }

    /// Gives the builder the video to write, at `file_name`, where the file
    /// system holds `status`. A path that is taken is refused with
    /// `OutputPathCollision`, and one of no known video format with
    /// `UnsupportedExtension`.
    pub fn with_output_file(self, file_name: &str, status: FileStatus) -> (builder: Result<
        VideoFileBuilder,
        Error,
    >)
        ensures
            parts_or_error(builder) == with_checked_file(file_name@, output_check(status)),
    {
        let validator = |file: &str| -> (checked: Result<(), Error>)
            ensures
                checked == output_check(status),
            { check_output(status) };
        self.with_file(file_name, validator)
    }

    /// Gives the builder the file at `file_name`, once `file_validator` has
    /// let the path through. What the validator refuses is refused with its
    /// error; the format is looked up only after that.
    pub fn with_file<F: FnOnce(&str) -> Result<(), Error>>(
        self,
        file_name: &str,
        file_validator: F,
    ) -> (builder: Result<VideoFileBuilder, Error>)
        requires
            file_validator.requires((file_name,)),
        ensures
            exists|checked: Result<(), Error>|
                file_validator.ensures((file_name,), checked) && parts_or_error(builder)
                    == with_checked_file(file_name@, checked),
    {
        let checked = file_validator(file_name);
        let builder = match checked {
            Err(error) => Err(error),
            Ok(()) => match VideoFormat::new(file_name) {
                Ok(format) => Ok(
                    VideoFileBuilder {
                        file_name: Some(String::from_str(file_name)),
                        format: Some(format),
                    },
                ),
                Err(error) => Err(error),
            },
        };
        assert(file_validator.ensures((file_name,), checked) && parts_or_error(builder)
            == with_checked_file(file_name@, checked));
        builder
    }

    /// The video that the builder was given. A builder that was not given a
    /// file is refused with `MissingFileName`.
    pub fn build(self) -> (video: Result<VideoFile, Error>)
        ensures
            match video {
                Ok(video) => built(self@) == Ok::<_, Error>((video.file_name@, video.format)),
                Err(error) => built(self@) == Err::<(Seq<char>, VideoFormat), _>(error),
            },
    {
        let file_name = match self.file_name {
            Some(file_name) => file_name,
            None => {
                return Err(Error::MissingFileName);
            },
        };
        let format = match self.format {
            Some(format) => format,
            None => {
                return Err(Error::MissingFormat);
            },
        };
        Ok(VideoFile { file_name, format })
    }
}

/// A video file and the container format that it is in.
#[derive(PartialEq, Eq, Debug)]
pub struct VideoFile {
    pub file_name: String,
    pub format: VideoFormat,
}

impl VideoFile {
    /// Whether `count` subtitle streams fit into a container of this format.
    pub open spec fn holds(self, count: nat) -> bool {
        count <= 1 || self.format.holds_many_subtitles()
    }

    /// Whether the container can hold more than one subtitle stream.
    pub fn supports_multiple_subtitle_streams(&self) -> (many: bool)
        ensures
            many == self.format.holds_many_subtitles(),
    {
        self.format != VideoFormat::MP4
    }

    /// The path of the file.
    pub fn get_file_name(&self) -> (file_name: &str)
        ensures
            file_name@ == self.file_name@,
    {
        self.file_name.as_str()
    }

    /// The number of subtitle streams that the inspection tool found in this
    /// video, given what it printed; `None` stands for a run that failed,
    /// which counts as no stream found.
    pub fn get_number_of_subtitles(&self, output: Option<&[u8]>) -> (count: usize)
        ensures
            count == match output {
                Some(output) => ffprobe::reported_streams(output@),
                None => 0,
            },
    {
        match output {
            Some(output) => ffprobe::get_number_of_subtitles(output),
            None => 0,
        }
    }

    /// Makes sure that `count` new subtitle streams can be written to this
    /// file: more than one into a container that holds a single stream is
    /// refused with `ContainerCapabilityViolation`.
    pub fn check_subtitle_count(&self, count: usize) -> (checked: Result<(), Error>)
        ensures
            checked == (if self.holds(count as nat) {
                Ok(())
            } else {
                Err(Error::ContainerCapabilityViolation)
            }),
    {
        if count > 1 && !self.supports_multiple_subtitle_streams() {
            Err(Error::ContainerCapabilityViolation)
        } else {
            Ok(())
        }
    }
}

} // verus!
