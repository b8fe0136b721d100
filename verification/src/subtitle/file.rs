use crate::error::Error;
use crate::subtitle::encoding::{
    get_file_with_utf8_encoding, normalized, readable, Encoding,
};
use crate::subtitle::format::SubtitleFormat;
use crate::subtitle::language::Language;
use crate::subtitle::mode::SubtitleMode;
use crate::text::{chars_of, string_of};
use crate::utils::{check_input, input_check, FileStatus};
use vstd::prelude::*;

verus! {

/// Where the last `c` of `text` stands, if it holds one.
pub open spec fn last_index_of(text: Seq<char>, c: char) -> Option<int>
    decreases text.len(),
{
    if text.len() == 0 {
        None
    } else if text.last() == c {
        Some(text.len() - 1)
    } else {
        last_index_of(text.drop_last(), c)
    }
}

/// The file of the subtitle option `FILE[,LANGUAGE]`: what stands before the
/// last comma, or all of it where it has no comma.
pub open spec fn option_file(option: Seq<char>) -> Seq<char> {
    match last_index_of(option, ',') {
        Some(comma) => option.subrange(0, comma),
        None => option,
    }
}

/// The language of the subtitle option `FILE[,LANGUAGE]`: what stands after
/// the last comma, where it has one.
pub open spec fn option_language(option: Seq<char>) -> Option<Seq<char>> {
    match last_index_of(option, ',') {
        Some(comma) => Some(option.subrange(comma + 1, option.len() as int)),
        None => None,
    }
}

/// Splits the subtitle option `FILE[,LANGUAGE]` at its last comma, so that a
/// comma may stand in the path but not in the language.
pub fn split_subtitle_option(subtitle_option: &str) -> (parts: (String, Option<String>))
    ensures
        parts.0@ == option_file(subtitle_option@),
        match parts.1 {
            Some(language) => option_language(subtitle_option@) == Some(language@),
            None => option_language(subtitle_option@) is None,
        },
{
    let chars = chars_of(subtitle_option);
    let mut i: usize = chars.len();
    assert(chars@.take(i as int) =~= chars@);
    while i > 0
        invariant
            i <= chars.len(),
            chars@ == subtitle_option@,
            last_index_of(chars@, ',') == last_index_of(chars@.take(i as int), ','),
        decreases i,
    {
        i -= 1;
        assert(chars@.take(i + 1).drop_last() =~= chars@.take(i as int));
        if chars[i] == ',' {
            assert(last_index_of(chars@.take(i + 1), ',') == Some(i as int));
            return (string_of(&chars, 0, i), Some(string_of(&chars, i + 1, chars.len())));
        }
    }
    (string_of(&chars, 0, chars.len()), None)
}

/// Whether the file at `file` is read: it must be a file, of a known
/// subtitle format.
pub open spec fn file_is_read(file: Seq<char>, status: FileStatus) -> bool {
    input_check(status) is Ok && SubtitleFormat::for_path(file) is Ok
}

/// Whether the file of the subtitle option `FILE[,LANGUAGE]` is read: its
/// language, if it names one, must be supported, and its file be one to read.
pub open spec fn option_is_read(option: Seq<char>, status: FileStatus) -> bool {
    match option_language(option) {
        None => file_is_read(option, status),
        Some(name) => Language::for_name(name) is Ok && file_is_read(option_file(option), status),
    }
}

/// Whether the contents of the file of `subtitle_option` are needed, where
/// the file system holds `status` at its path. Where they are not, the
/// option is refused whatever the file holds, and the file need not be read.
pub fn reads_file(subtitle_option: &str, status: FileStatus) -> (read: bool)
    ensures
        read == option_is_read(subtitle_option@, status),
{
    let (subtitle_file, language) = split_subtitle_option(subtitle_option);
    let file = match language {
        None => subtitle_option,
        Some(language) => {
            if Language::new(language.as_str()).is_err() {
                return false;
            }
            subtitle_file.as_str()
        },
    };
    check_input(status).is_ok() && SubtitleFormat::new(file).is_ok()
}

/// Puts a `SubtitleFile` together from a subtitle file that is brought into
/// normal form on the way.
pub struct SubtitleFileBuilder {
    file_name: Option<String>,
    language: Option<Language>,
    format: Option<SubtitleFormat>,
    mode: Option<SubtitleMode>,
    is_original_subtitle_file: bool,
    contents: Option<String>,
}

/// What a `SubtitleFileBuilder` has been given so far.
pub struct SubtitleFileParts {
    pub file_name: Option<Seq<char>>,
    pub language: Option<Language>,
    pub format: Option<SubtitleFormat>,
    pub mode: Option<SubtitleMode>,
    pub is_original_subtitle_file: bool,
    /// The text that has yet to be written to `file_name`, where the file
    /// had to be transformed.
    pub contents: Option<Seq<char>>,
}

impl View for SubtitleFileBuilder {
    type V = SubtitleFileParts;

    closed spec fn view(&self) -> SubtitleFileParts {
        SubtitleFileParts {
            file_name: match self.file_name {
                Some(file_name) => Some(file_name@),
                None => None,
            },
            language: self.language,
            format: self.format,
            mode: self.mode,
            is_original_subtitle_file: self.is_original_subtitle_file,
            contents: match self.contents {
                Some(contents) => Some(contents@),
                None => None,
            },
        }
    }
}

/// What a fallible builder has been given.
pub open spec fn parts_or_error(builder: Result<SubtitleFileBuilder, Error>) -> Result<
    SubtitleFileParts,
    Error,
> {
    match builder {
        Ok(builder) => Ok(builder@),
        Err(error) => Err(error),
    }
}

/// What `contents` holds, where the file could be read.
pub open spec fn bytes_of(contents: Option<&[u8]>) -> Option<Seq<u8>> {
    match contents {
        Some(contents) => Some(contents@),
        None => None,
    }
}

/// The fallback encodings of a file in `language`, where one is given.
pub open spec fn encoders_for(language: Option<Language>) -> Option<Seq<Encoding>> {
    match language {
        Some(language) => language.encoders(),
        None => None,
    }
}

/// What a builder that holds `parts` holds once it has been given the
/// subtitle file at `file_name`. The checks come in this order: the path
/// must hold a file, of a known subtitle format, that could be read and can
/// be brought into normal form. The record then names the normal form, and
/// is the user's own file exactly where nothing had to be transformed.
pub open spec fn with_subtitle_file(
    parts: SubtitleFileParts,
    file_name: Seq<char>,
    status: FileStatus,
    contents: Option<Seq<u8>>,
    mode: SubtitleMode,
) -> Result<SubtitleFileParts, Error> {
    match input_check(status) {
        Err(error) => Err(error),
        Ok(()) => match SubtitleFormat::for_path(file_name) {
            Err(error) => Err(error),
            Ok(format) => match contents {
                None => Err(Error::IoFailure),
                Some(bytes) => match normalized(
                    file_name,
                    bytes,
                    format,
                    encoders_for(parts.language),
                    mode,
                ) {
                    Err(error) => Err(error),
                    Ok(utf8_file) => Ok(
                        SubtitleFileParts {
                            file_name: Some(utf8_file.file_name),
                            language: parts.language,
                            format: Some(format),
                            mode: Some(mode),
                            is_original_subtitle_file: !utf8_file.is_transformed,
                            contents: if utf8_file.is_transformed {
                                Some(utf8_file.contents)
                            } else {
                                None
                            },
                        },
                    ),
                },
            },
        },
    }
}

/// What a builder that holds `parts` holds once it has been given the
/// subtitle option `FILE[,LANGUAGE]`. A language that is not supported is
/// refused before the file is looked at.
pub open spec fn with_option(
    parts: SubtitleFileParts,
    option: Seq<char>,
    status: FileStatus,
    contents: Option<Seq<u8>>,
    mode: SubtitleMode,
) -> Result<SubtitleFileParts, Error> {
    match option_language(option) {
        None => with_subtitle_file(parts, option, status, contents, mode),
        Some(name) => match Language::for_name(name) {
            Err(error) => Err(error),
            Ok(language) => with_subtitle_file(
                SubtitleFileParts { language: Some(language), ..parts },
                option_file(option),
                status,
                contents,
                mode,
            ),
        },
    }
}

/// The parts of a subtitle record.
pub struct SubtitleRecord {
    pub language: Option<Language>,
    pub format: SubtitleFormat,
    pub file_name: Seq<char>,
    pub mode: SubtitleMode,
    pub is_original_subtitle_file: bool,
}

/// The record that is built from `parts`, or the refusal that names the
/// first part that is missing.
pub open spec fn built(parts: SubtitleFileParts) -> Result<SubtitleRecord, Error> {
    match parts.file_name {
        None => Err(Error::MissingFileName),
        Some(file_name) => match parts.format {
            None => Err(Error::MissingFormat),
            Some(format) => match parts.mode {
                None => Err(Error::MissingHandling),
                Some(mode) => Ok(
                    SubtitleRecord {
                        language: parts.language,
                        format,
                        file_name,
                        mode,
                        is_original_subtitle_file: parts.is_original_subtitle_file,
                    },
                ),
            },
        },
    }
}

/// An option whose file is not read is refused, and with the same error
/// whatever the file holds and whether or not it could be read.
pub proof fn unread_file_does_not_matter(
    parts: SubtitleFileParts,
    option: Seq<char>,
    status: FileStatus,
    first: Option<Seq<u8>>,
    second: Option<Seq<u8>>,
    mode: SubtitleMode,
)
    requires
        !option_is_read(option, status),
    ensures
        with_option(parts, option, status, first, mode) is Err,
        with_option(parts, option, status, first, mode) == with_option(
            parts,
            option,
            status,
            second,
            mode,
        ),
{
}

impl SubtitleFileBuilder {
    /// A builder that has been given nothing.
    pub fn new() -> (builder: SubtitleFileBuilder)
        ensures
            builder@ == (SubtitleFileParts {
                file_name: None,
                language: None,
                format: None,
                mode: None,
                is_original_subtitle_file: false,
                contents: None,
            }),
    {
        SubtitleFileBuilder {
            file_name: None,
            language: None,
            format: None,
            mode: None,
            is_original_subtitle_file: false,
            contents: None,
        }
    }

    /// Gives the builder the subtitle file at `file_name`, where the file
    /// system holds `status` and the file, if it could be read, `contents`.
    /// The file is brought into normal form with the fallback encodings of
    /// the language given before, if any; the language is to be given first.
    /// Nothing is written here: see `get_contents`.
    pub fn with_file(
        self,
        file_name: &str,
        status: FileStatus,
        contents: Option<&[u8]>,
        subtitle_mode: SubtitleMode,
    ) -> (builder: Result<SubtitleFileBuilder, Error>)
        requires
            contents matches Some(bytes) ==> readable(bytes@),
        ensures
            parts_or_error(builder) == with_subtitle_file(
                self@,
                file_name@,
                status,
                bytes_of(contents),
                subtitle_mode,
            ),
    {
        if let Err(error) = check_input(status) {
            return Err(error);
        }
        let format = match SubtitleFormat::new(file_name) {
            Ok(format) => format,
            Err(error) => {
                return Err(error);
            },
        };
        let contents = match contents {
            Some(contents) => contents,
            None => {
                return Err(Error::IoFailure);
            },
        };
        let encoders = match &self.language {
            Some(language) => language.preferred_encoders(),
            None => None,
        };
        match get_file_with_utf8_encoding(file_name, contents, &format, encoders, &subtitle_mode) {
            Ok(utf8_file) => Ok(
                SubtitleFileBuilder {
                    file_name: Some(utf8_file.file_name),
                    language: self.language,
                    format: Some(format),
                    mode: Some(subtitle_mode),
                    is_original_subtitle_file: !utf8_file.is_transformed,
                    contents: if utf8_file.is_transformed {
                        Some(utf8_file.contents)
                    } else {
                        None
                    },
                },
            ),
            Err(error) => Err(error),
        }
    }

    /// Gives the builder the language to label the stream with.
    pub fn with_language(self, language: Language) -> (builder: SubtitleFileBuilder)
        ensures
            builder@ == (SubtitleFileParts { language: Some(language), ..self@ }),
    {
        SubtitleFileBuilder {
            file_name: self.file_name,
            language: Some(language),
            format: self.format,
            mode: self.mode,
            is_original_subtitle_file: self.is_original_subtitle_file,
            contents: self.contents,
        }
    }

    /// Gives the builder the subtitle option `FILE[,LANGUAGE]`, as the user
    /// wrote it. `status` and `contents` are those of the file that
    /// `split_subtitle_option` finds in the option.
    pub fn with_subtitle_option(
        self,
        subtitle_option: &str,
        status: FileStatus,
        contents: Option<&[u8]>,
        mode: SubtitleMode,
    ) -> (builder: Result<SubtitleFileBuilder, Error>)
        requires
            contents matches Some(bytes) ==> readable(bytes@),
        ensures
            parts_or_error(builder) == with_option(
                self@,
                subtitle_option@,
                status,
                bytes_of(contents),
                mode,
            ),
    {
        let (subtitle_file, language) = split_subtitle_option(subtitle_option);
        match language {
            None => self.with_file(subtitle_option, status, contents, mode),
            Some(language) => match Language::new(language.as_str()) {
                Ok(language) => self.with_language(language).with_file(
                    subtitle_file.as_str(),
                    status,
                    contents,
                    mode,
                ),
                Err(error) => Err(error),
            },
        }
    }

    /// The text that is to be written to the file of the record before the
    /// record is used: `None` where the user's own file is used as it is.
    pub fn get_contents(&self) -> (contents: Option<&str>)
        ensures
            match contents {
                Some(contents) => self@.contents == Some(contents@),
                None => self@.contents is None,
            },
    {
        match &self.contents {
            Some(contents) => Some(contents.as_str()),
            None => None,
        }
    }

    /// The path that the record will name, once a file has been given.
    pub fn get_file_name(&self) -> (file_name: Option<&str>)
        ensures
            match file_name {
                Some(file_name) => self@.file_name == Some(file_name@),
                None => self@.file_name is None,
            },
    {
        match &self.file_name {
            Some(file_name) => Some(file_name.as_str()),
            None => None,
        }
    }

    /// The record that the builder was given. A builder that was not given a
    /// file is refused with `MissingFileName`.
    pub fn build(self) -> (subtitle: Result<SubtitleFile, Error>)
        ensures
            match subtitle {
                Ok(subtitle) => built(self@) == Ok::<_, Error>(subtitle@),
                Err(error) => built(self@) == Err::<SubtitleRecord, _>(error),
            },
    {
        let file_name = match self.file_name {
            Some(file_name) => file_name,
            None => {
                return Err(Error::MissingFileName);
            },
        };
        let format = match self.format {
            Some(format) => format,
            None => {
                return Err(Error::MissingFormat);
            },
        };
        let mode = match self.mode {
            Some(mode) => mode,
            None => {
                return Err(Error::MissingHandling);
            },
        };
        Ok(
            SubtitleFile {
                file_name,
                format,
                language: self.language,
                mode,
                is_original_subtitle_file: self.is_original_subtitle_file,
            },
        )
    }
}

/// A subtitle file that is ready to be merged: UTF-8, with Unix line endings.
#[derive(Debug)]
pub struct SubtitleFile {
    /// The language to label the stream with, if one was given.
    pub language: Option<Language>,
    pub format: SubtitleFormat,
    /// The path to hand to the merge tool.
    pub file_name: String,
    /// What becomes of the file at `file_name` where it is a transformed copy.
    pub mode: SubtitleMode,
    /// Whether `file_name` is the file that the user gave, untouched; false
    /// where transformed text was written.
    pub is_original_subtitle_file: bool,
}

impl View for SubtitleFile {
    type V = SubtitleRecord;

    open spec fn view(&self) -> SubtitleRecord {
        SubtitleRecord {
            language: self.language,
            format: self.format,
            file_name: self.file_name@,
            mode: self.mode,
            is_original_subtitle_file: self.is_original_subtitle_file,
        }
    }
}

impl SubtitleFile {
    /// Whether the file at `file_name` is deleted once the merge is over:
    /// under `Remove`, and never the user's own file.
    pub fn should_remove_file(&self) -> (remove: bool)
        ensures
            remove == (!self.is_original_subtitle_file && self.mode == SubtitleMode::Remove),
    {
        !self.is_original_subtitle_file && self.mode.should_remove_file()
    }
}

} // verus!
