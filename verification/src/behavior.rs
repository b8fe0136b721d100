use crate::mode::Mode;
use crate::subtitle::file::SubtitleFile;
use crate::text::{decimal, decimal_digits, join, push_str, push_text, texts};
use vstd::prelude::*;
use vstd::string::StringExecFns;

verus! {

/// How the new subtitles are added: a mode, together with what that mode
/// needs to know of the video.
#[derive(Debug, Clone, Copy, PartialEq, Eq, Structural)]
pub enum Behavior {
    /// The new streams come after the `existing` subtitle streams that the
    /// video has.
    Append { existing: usize },
    /// The new streams take the place of those in their languages.
    Replace,
    /// The new streams are the only subtitle streams of the output.
    Overwrite,
}

/// The directive that labels output subtitle stream `index` with the language
/// of `subtitle`, if it has one: `-metadata:s:s:{index} language={tag}`.
pub open spec fn label_of(subtitle: SubtitleFile, index: nat) -> Seq<Seq<char>> {
    match subtitle.language {
        Some(language) => seq![
            "-metadata:s:s:"@ + decimal_digits(index),
            "language="@ + language.metadata_tag(),
        ],
        None => seq![],
    }
}

/// The directives that label the streams of `subtitles`, where subtitle `i`
/// becomes output subtitle stream `first + i`: one directive for each
/// subtitle that has a language, in the order of the subtitles.
pub open spec fn labels(subtitles: Seq<SubtitleFile>, first: nat) -> Seq<Seq<char>>
    decreases subtitles.len(),
{
    if subtitles.len() == 0 {
        seq![]
    } else {
        labels(subtitles.drop_last(), first) + label_of(
            subtitles.last(),
            (first + subtitles.len() - 1) as nat,
        )
    }
}

/// Appends to `args` the directives that label the streams of `subtitles`
/// with their languages, where subtitle `i` becomes output subtitle stream
/// `first + i`.
pub fn add_subtitles_to_video(args: &mut Vec<String>, subtitles: &[SubtitleFile], first: usize)
    ensures
        texts(final(args)@) == texts(old(args)@) + labels(subtitles@, first as nat),
{
    let mut i: usize = 0;
    assert(subtitles@.take(0) =~= seq![]);
    while i < subtitles.len()
        invariant
            i <= subtitles.len(),
            texts(args@) == texts(old(args)@) + labels(subtitles@.take(i as int), first as nat),
        decreases subtitles.len() - i,
    {
        assert(subtitles@.take(i + 1).drop_last() =~= subtitles@.take(i as int));
        if let Some(language) = &subtitles[i].language {
            let index = decimal(first as u128 + i as u128);
            let tag = language.to_metadata_tag();
            push_text(args, join("-metadata:s:s:", index.as_str()));
            push_text(args, join("language=", tag.as_str()));
        }
        i += 1;
    }
    assert(subtitles@.take(i as int) =~= subtitles@);
}

impl Behavior {
    /// The mode that this behaviour carries out.
    pub open spec fn mode(self) -> Mode {
        match self {
            Behavior::Append { .. } => Mode::Append,
            Behavior::Replace => Mode::Replace,
            Behavior::Overwrite => Mode::Overwrite,
        }
    }

    /// The behaviour that carries out `mode` on a video with `existing`
    /// subtitle streams.
    pub open spec fn of(mode: Mode, existing: usize) -> Behavior {
        match mode {
            Mode::Append => Behavior::Append { existing },
            Mode::Replace => Behavior::Replace,
            Mode::Overwrite => Behavior::Overwrite,
        }
    }

    /// The output subtitle stream that the first new subtitle becomes.
    pub open spec fn first_index(self) -> nat {
        match self {
            Behavior::Append { existing } => existing as nat,
            _ => 0,
        }
    }

    /// The directive that takes the subtitle streams of the video, emitted
    /// where the behaviour keeps them: `-map 0:s?`, which also holds of a
    /// video with none.
    pub open spec fn kept_streams(self) -> Seq<Seq<char>> {
        match self {
            Behavior::Append { .. } => seq!["-map"@, "0:s?"@],
            _ => seq![],
        }
    }

    /// The directives of this behaviour for `subtitles`: the one that takes
    /// the subtitle streams of the video, where they are kept, then the
    /// labels of the new streams.
    pub open spec fn adding_args(self, subtitles: Seq<SubtitleFile>) -> Seq<Seq<char>> {
        self.kept_streams() + labels(subtitles, self.first_index())
    }

    /// The behaviour that carries out `mode`. The count of `existing`
    /// subtitle streams matters to `Append` alone.
    pub fn new(mode: Mode, existing: usize) -> (behavior: Behavior)
        ensures
            behavior == Self::of(mode, existing),
    {
        match mode {
            Mode::Append => Behavior::Append { existing },
            Mode::Replace => Behavior::Replace,
            Mode::Overwrite => Behavior::Overwrite,
        }
    }

    /// The mode that this behaviour carries out.
    pub fn to_mode(&self) -> (mode: Mode)
        ensures
            mode == self.mode(),
    {
        match self {
            Behavior::Append { .. } => Mode::Append,
            Behavior::Replace => Mode::Replace,
            Behavior::Overwrite => Mode::Overwrite,
        }
    }

    /// The directives of this behaviour for `subtitles`, to stand after
    /// those that take the new inputs. Under `Append` they keep the subtitle
    /// streams of the video and label subtitle `i` as stream `existing + i`;
    /// under the other two they label it as stream `i`.
    pub fn get_args_for_adding_subtitles(&self, subtitles: &[SubtitleFile]) -> (args: Vec<String>)
        ensures
            texts(args@) == self.adding_args(subtitles@),
    {
        let mut args: Vec<String> = Vec::new();
        match self {
            Behavior::Append { existing } => {
                push_str(&mut args, "-map");
                push_str(&mut args, "0:s?");
                add_subtitles_to_video(&mut args, subtitles, *existing);
            },
            _ => {
                add_subtitles_to_video(&mut args, subtitles, 0);
            },
        }
        args
    }

    /// The word that selects the mode of this behaviour.
    pub fn to_string(&self) -> (name: String)
        ensures
            name@ == self.mode().name(),
    {
        self.to_mode().to_string()
    }
}

/// How many of the first `i` of `subtitles` have a language.
pub open spec fn labelled_before(subtitles: Seq<SubtitleFile>, i: int) -> nat
    decreases i,
{
    if i <= 0 {
        0
    } else {
        labelled_before(subtitles, i - 1) + if subtitles[i - 1].language is Some {
            1nat
        } else {
            0nat
        }
    }
}

/// Where the label of subtitle `i` starts among the labels of `subtitles`:
/// after two arguments for each subtitle before it that has a language.
pub open spec fn label_at(subtitles: Seq<SubtitleFile>, i: int) -> int {
    2 * (labelled_before(subtitles, i) as int)
}

/// Labels stand in the order of the subtitles, one for each subtitle that
/// has a language, and the label of subtitle `i` names stream `first + i`,
/// whether or not the subtitles before it have a language.
pub proof fn labels_follow_subtitles(subtitles: Seq<SubtitleFile>, first: nat, i: int)
    requires
        0 <= i < subtitles.len(),
        subtitles[i].language is Some,
    ensures
        labels(subtitles, first).len() == 2 * labelled_before(subtitles, subtitles.len() as int),
        label_at(subtitles, i) + 1 < labels(subtitles, first).len(),
        labels(subtitles, first)[label_at(subtitles, i)] == "-metadata:s:s:"@
            + decimal_digits((first + i) as nat),
        labels(subtitles, first)[label_at(subtitles, i) + 1] == "language="@
            + subtitles[i].language->0.metadata_tag(),
    decreases subtitles.len(),
{
    let init = subtitles.drop_last();
    let n = subtitles.len() as int;
    labels_len(init, first);
    labels_len(subtitles, first);
    labelled_before_prefix(subtitles, n - 1, i);
    labelled_before_prefix(subtitles, n - 1, n - 1);
    if i < n - 1 {
        labels_follow_subtitles(init, first, i);
    }
}

proof fn labels_len(subtitles: Seq<SubtitleFile>, first: nat)
    ensures
        labels(subtitles, first).len() == 2 * labelled_before(subtitles, subtitles.len() as int),
    decreases subtitles.len(),
{
    if subtitles.len() > 0 {
        labels_len(subtitles.drop_last(), first);
        labelled_before_prefix(subtitles, subtitles.len() - 1, subtitles.len() - 1);
    }
}

proof fn labelled_before_prefix(subtitles: Seq<SubtitleFile>, n: int, i: int)
    requires
        0 <= i <= n <= subtitles.len(),
    ensures
        labelled_before(subtitles.take(n), i) == labelled_before(subtitles, i),
    decreases i,
{
    if i > 0 {
        labelled_before_prefix(subtitles, n, i - 1);
    }
}

/// Under `Append`, on a video with `existing` subtitle streams, the new
/// subtitles are labelled as streams `existing`, `existing + 1` and so on, in
/// their order: the label of subtitle `i` names stream `existing + i`. Labels
/// come right after the directive that keeps the streams of the video.
pub proof fn append_labels_after_existing(existing: usize, subtitles: Seq<SubtitleFile>, i: int)
    requires
        0 <= i < subtitles.len(),
        subtitles[i].language is Some,
    ensures
        ({
            let args = (Behavior::Append { existing }).adding_args(subtitles);
            let at = 2 + label_at(subtitles, i);
            &&& args.len() == 2 + 2 * labelled_before(subtitles, subtitles.len() as int)
            &&& at + 1 < args.len()
            &&& args[0] == "-map"@
            &&& args[1] == "0:s?"@
            &&& args[at] == "-metadata:s:s:"@ + decimal_digits((existing + i) as nat)
            &&& args[at + 1] == "language="@ + subtitles[i].language->0.metadata_tag()
        }),
{
    labels_follow_subtitles(subtitles, existing as nat, i);
}

} // verus!
