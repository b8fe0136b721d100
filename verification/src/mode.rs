use crate::subtitle::file::SubtitleFile;
use crate::text::{join, push_str, push_text, texts};
use crate::video::file::VideoFile;
use crate::video::format::VideoFormat;
use vstd::prelude::*;
use vstd::string::StringExecFns;

verus! {

/// What happens to the subtitle streams that the video holds already.
#[derive(Debug, Clone, Copy, PartialEq, Eq, Structural)]
pub enum Mode {
    /// They all stay, and the new ones come after them.
    Append,
    /// Those in the language of a new subtitle go; the others stay.
    Replace,
    /// They all go.
    Overwrite,
}

impl Default for Mode {
    fn default() -> (mode: Mode)
        ensures
            mode == Mode::Overwrite,
    {
        Mode::Overwrite
    }
}

/// The directive that drops the streams in the language of `subtitle`, if it
/// has one: `-map -0:s:m:language:{tag}`.
pub open spec fn exclusion_of(subtitle: SubtitleFile) -> Seq<Seq<char>> {
    match subtitle.language {
        Some(language) => seq!["-map"@, "-0:s:m:language:"@ + language.metadata_tag()],
        None => seq![],
    }
}

/// The directives that drop the streams in the languages of `subtitles`, one
/// for each subtitle that has a language, in the order of the subtitles.
pub open spec fn exclusions(subtitles: Seq<SubtitleFile>) -> Seq<Seq<char>>
    decreases subtitles.len(),
{
    if subtitles.len() == 0 {
        seq![]
    } else {
        exclusions(subtitles.drop_last()) + exclusion_of(subtitles.last())
    }
}

impl Mode {
    /// The directives that drop streams of the video under this mode, to
    /// stand right after the directive that takes all of its streams; `None`
    /// where nothing is dropped.
    pub open spec fn ffmpeg_flags(self, subtitles: Seq<SubtitleFile>) -> Option<Seq<Seq<char>>> {
        match self {
            Mode::Append => None,
            Mode::Replace => if exclusions(subtitles).len() == 0 {
                None
            } else {
                Some(exclusions(subtitles))
            },
            Mode::Overwrite => Some(seq!["-map"@, "-0:s"@]),
        }
    }

    /// The mode that a merge into a container of format `output` runs in: a
    /// container that holds a single subtitle stream is always overwritten.
    pub open spec fn for_format(self, output: VideoFormat) -> Mode {
        if output.holds_many_subtitles() {
            self
        } else {
            Mode::Overwrite
        }
    }

    /// The word that selects this mode.
    pub open spec fn name(self) -> Seq<char> {
        match self {
            Mode::Append => "append"@,
            Mode::Replace => "replace"@,
            Mode::Overwrite => "overwrite"@,
        }
    }

    /// The directives that drop streams of the video under this mode.
    /// `Replace` with no language among the subtitles drops nothing, as
    /// `Append` does.
    pub fn to_ffmpeg_flags(&self, subtitles: &[SubtitleFile]) -> (flags: Option<Vec<String>>)
        ensures
            match flags {
                Some(flags) => self.ffmpeg_flags(subtitles@) == Some(texts(flags@)),
                None => self.ffmpeg_flags(subtitles@) is None,
            },
    {
        match self {
            Mode::Append => None,
            Mode::Replace => {
                let mut flags: Vec<String> = Vec::new();
                let mut i: usize = 0;
                assert(subtitles@.take(0) =~= seq![]);
                while i < subtitles.len()
                    invariant
                        i <= subtitles.len(),
                        texts(flags@) == exclusions(subtitles@.take(i as int)),
                    decreases subtitles.len() - i,
                {
                    assert(subtitles@.take(i + 1).drop_last() =~= subtitles@.take(i as int));
                    if let Some(language) = &subtitles[i].language {
                        let tag = language.to_metadata_tag();
                        push_str(&mut flags, "-map");
                        push_text(&mut flags, join("-0:s:m:language:", tag.as_str()));
                    }
                    i += 1;
                }
                assert(subtitles@.take(i as int) =~= subtitles@);
                if flags.len() == 0 {
                    None
                } else {
                    Some(flags)
                }
            },
            Mode::Overwrite => {
                let mut flags: Vec<String> = Vec::new();
                push_str(&mut flags, "-map");
                push_str(&mut flags, "-0:s");
                Some(flags)
            },
        }
    }

    /// Whether the number of subtitle streams that the video has matters
    /// under this mode: the new streams are counted on from it under `Append`
    /// alone.
    pub fn counts_existing(&self) -> (counts: bool)
        ensures
            counts == (*self == Mode::Append),
    {
        match self {
            Mode::Append => true,
            _ => false,
        }
    }

    /// The mode that a merge into `output` runs in.
    pub fn for_output(self, output: &VideoFile) -> (mode: Mode)
        ensures
            mode == self.for_format(output.format),
    {
        if output.supports_multiple_subtitle_streams() {
            self
        } else {
            Mode::Overwrite
        }
    }

    /// The word that selects this mode.
    pub fn to_string(&self) -> (name: String)
        ensures
            name@ == self.name(),
    {
        match self {
            Mode::Append => String::from_str("append"),
            Mode::Replace => String::from_str("replace"),
            Mode::Overwrite => String::from_str("overwrite"),
        }
    }
}

} // verus!
