use crate::behavior::{labels, Behavior};
use crate::error::Error;
use crate::mode::{exclusions, Mode};
use crate::subtitle::file::SubtitleFile;
use crate::text::{decimal, decimal_digits, decimal_is_unsigned, push_str, push_text, texts};
use crate::video::file::VideoFile;
use crate::video::format::VideoFormat;
use vstd::prelude::*;

verus! {

/// The declaration of `subtitle` as an input of the merge tool, with its
/// format: `-f {format} -i {file}`.
pub open spec fn input_of(subtitle: SubtitleFile) -> Seq<Seq<char>> {
    seq!["-f"@, subtitle.format.extension(), "-i"@, subtitle.file_name@]
}

/// The declarations of `subtitles` as inputs, in their order, so that
/// subtitle `i` is input `i + 1` of the merge tool.
pub open spec fn inputs(subtitles: Seq<SubtitleFile>) -> Seq<Seq<char>>
    decreases subtitles.len(),
{
    if subtitles.len() == 0 {
        seq![]
    } else {
        inputs(subtitles.drop_last()) + input_of(subtitles.last())
    }
}

/// The directives that take the first `count` subtitle inputs into the
/// output: `-map 1 -map 2` and so on, input 0 being the video.
pub open spec fn input_maps(count: nat) -> Seq<Seq<char>>
    decreases count,
{
    if count == 0 {
        seq![]
    } else {
        input_maps((count - 1) as nat) + seq!["-map"@, decimal_digits(count)]
    }
}

/// What the list of directives holds, where there is one.
pub open spec fn flags_or_none(flags: Option<Seq<Seq<char>>>) -> Seq<Seq<char>> {
    match flags {
        Some(flags) => flags,
        None => seq![],
    }
}

/// The subtitle codec to force for a container of format `output`: MP4 takes
/// text subtitles as `mov_text` only.
pub open spec fn subtitle_codec(output: VideoFormat) -> Seq<Seq<char>> {
    if output == VideoFormat::MP4 {
        seq!["-c:s"@, "mov_text"@]
    } else {
        seq![]
    }
}

/// The arguments of the merge tool, in the one order that it reads them
/// right: quiet output; the video as input 0; each subtitle as a further
/// input; all streams of the video; the streams of the video to drop; the
/// new inputs; what the behaviour keeps, and the labels; the subtitle codec,
/// where the container wants one; every other stream copied as it is; the
/// output path.
pub open spec fn merge_args(
    video_file: VideoFile,
    subtitles: Seq<SubtitleFile>,
    output_file: VideoFile,
    behavior: Behavior,
) -> Seq<Seq<char>> {
    seq!["-hide_banner"@, "-loglevel"@, "error"@, "-i"@, video_file.file_name@] + inputs(subtitles)
        + seq!["-map"@, "0"@] + flags_or_none(behavior.mode().ffmpeg_flags(subtitles))
        + input_maps(subtitles.len()) + behavior.adding_args(subtitles) + subtitle_codec(
        output_file.format,
    ) + seq![
        "-c"@,
        "copy"@,
        output_file.file_name@,
    ]
}

/// What `add_subtitles_to_video` answers: the arguments under the mode that
/// the output container allows, or the refusal of more subtitles than the
/// container holds.
pub open spec fn merge_plan(
    video_file: VideoFile,
    subtitles: Seq<SubtitleFile>,
    output_file: VideoFile,
    mode: Mode,
    existing: usize,
) -> Result<Seq<Seq<char>>, Error> {
    if output_file.holds(subtitles.len()) {
        Ok(
            merge_args(
                video_file,
                subtitles,
                output_file,
                Behavior::of(mode.for_format(output_file.format), existing),
            ),
        )
    } else {
        Err(Error::ContainerCapabilityViolation)
    }
}

/// What a fallible list of arguments holds.
pub open spec fn args_or_error(args: Result<Vec<String>, Error>) -> Result<Seq<Seq<char>>, Error> {
    match args {
        Ok(args) => Ok(texts(args@)),
        Err(error) => Err(error),
    }
}

/// Appends to `args` the declaration of each of `subtitles` as an input.
pub fn add_inputs(args: &mut Vec<String>, subtitles: &[SubtitleFile])
    ensures
        texts(final(args)@) == texts(old(args)@) + inputs(subtitles@),
{
    let mut i: usize = 0;
    assert(subtitles@.take(0) =~= seq![]);
    while i < subtitles.len()
        invariant
            i <= subtitles.len(),
            texts(args@) == texts(old(args)@) + inputs(subtitles@.take(i as int)),
        decreases subtitles.len() - i,
    {
        assert(subtitles@.take(i + 1).drop_last() =~= subtitles@.take(i as int));
        let subtitle = &subtitles[i];
        push_str(args, "-f");
        push_text(args, subtitle.format.to_extension());
        push_str(args, "-i");
        push_str(args, subtitle.file_name.as_str());
        i += 1;
    }
    assert(subtitles@.take(i as int) =~= subtitles@);
}

/// Appends to `args` the directives that take the first `count` subtitle
/// inputs into the output.
pub fn add_input_maps(args: &mut Vec<String>, count: usize)
    ensures
        texts(final(args)@) == texts(old(args)@) + input_maps(count as nat),
{
    let mut i: usize = 0;
    while i < count
        invariant
            i <= count,
            texts(args@) == texts(old(args)@) + input_maps(i as nat),
        decreases count - i,
    {
        i += 1;
        push_str(args, "-map");
        push_text(args, decimal(i as u128));
    }
}

/// Moves the texts of `more` to the end of `args`.
fn add_all(args: &mut Vec<String>, more: Vec<String>)
    ensures
        texts(final(args)@) == texts(old(args)@) + texts(more@),
{
    let mut rest = more;
    args.append(&mut rest);
    assert(texts(args@) =~= texts(old(args)@) + texts(more@));
}

/// Appends to `args` the subtitle codec that a container of format `output`
/// wants, if it wants one.
fn add_subtitle_codec(args: &mut Vec<String>, output: VideoFormat)
    ensures
        texts(final(args)@) == texts(old(args)@) + subtitle_codec(output),
{
    if output == VideoFormat::MP4 {
        push_str(args, "-c:s");
        push_str(args, "mov_text");
    }
}

/// The arguments to run the merge tool with, to write `video_file` with
/// `subtitles` added under `behavior` to `output_file`.
pub fn get_args_for_adding_subtitles(
    video_file: &VideoFile,
    subtitles: &[SubtitleFile],
    output_file: &VideoFile,
    behavior: &Behavior,
) -> (args: Vec<String>)
    ensures
        texts(args@) == merge_args(*video_file, subtitles@, *output_file, *behavior),
{
    let mut args: Vec<String> = Vec::new();
    push_str(&mut args, "-hide_banner");
    push_str(&mut args, "-loglevel");
    push_str(&mut args, "error");
    push_str(&mut args, "-i");
    push_str(&mut args, video_file.get_file_name());
    add_inputs(&mut args, subtitles);
    push_str(&mut args, "-map");
    push_str(&mut args, "0");
    match behavior.to_mode().to_ffmpeg_flags(subtitles) {
        Some(flags) => add_all(&mut args, flags),
        None => {},
    }
    add_input_maps(&mut args, subtitles.len());
    add_all(&mut args, behavior.get_args_for_adding_subtitles(subtitles));
    add_subtitle_codec(&mut args, output_file.format);
    push_str(&mut args, "-c");
    push_str(&mut args, "copy");
    push_str(&mut args, output_file.get_file_name());
    args
}

/// Plans the run of the merge tool that adds `subtitles` to `video_file`:
/// answers the arguments to run it with, and runs nothing itself. More than
/// one subtitle for a container that holds a single subtitle stream is
/// refused with `ContainerCapabilityViolation`, whatever the mode; such a
/// container is otherwise overwritten, whatever the mode. `existing` is the
/// number of subtitle streams that the video has.
pub fn add_subtitles_to_video(
    video_file: &VideoFile,
    subtitles: &[SubtitleFile],
    output_file: &VideoFile,
    mode: Mode,
    existing: usize,
) -> (args: Result<Vec<String>, Error>)
    ensures
        args_or_error(args) == merge_plan(*video_file, subtitles@, *output_file, mode, existing),
{
    match output_file.check_subtitle_count(subtitles.len()) {
        Ok(()) => {
            let behavior = Behavior::new(mode.for_output(output_file), existing);
            Ok(get_args_for_adding_subtitles(video_file, subtitles, output_file, &behavior))
        },
        Err(error) => Err(error),
    }
}

/// The directives of `merge_args` that say which streams the output takes:
/// all streams of the video, then the streams of the video to drop, then
/// the new ones, then the subtitle streams of the video where the behaviour
/// keeps them.
pub open spec fn stream_maps(subtitles: Seq<SubtitleFile>, behavior: Behavior) -> Seq<Seq<char>> {
    seq!["-map"@, "0"@] + flags_or_none(behavior.mode().ffmpeg_flags(subtitles)) + input_maps(
        subtitles.len(),
    ) + behavior.kept_streams()
}

/// `input_maps` holds one directive of two arguments for each input.
pub proof fn input_maps_len(count: nat)
    ensures
        input_maps(count).len() == 2 * count,
    decreases count,
{
    if count > 0 {
        input_maps_len((count - 1) as nat);
    }
}


/// Whether a selection of streams takes them out of the output.
pub open spec fn is_negative(selection: Seq<char>) -> bool {
    selection.len() > 0 && selection[0] == '-'
}

/// How many of the directives in `maps`, each an option and its value, are
/// `-map` with a negative selection.
pub open spec fn negative_maps(maps: Seq<Seq<char>>) -> nat
    decreases maps.len(),
{
    if maps.len() < 2 {
        0
    } else {
        negative_maps(maps.drop_last().drop_last()) + if maps[maps.len() - 2] == "-map"@
            && is_negative(maps.last()) {
            1nat
        } else {
            0nat
        }
    }
}

/// The stream maps stand in `merge_args` between the inputs and the labels.
pub proof fn merge_args_hold_stream_maps(
    video_file: VideoFile,
    subtitles: Seq<SubtitleFile>,
    output_file: VideoFile,
    behavior: Behavior,
)
    ensures
        merge_args(video_file, subtitles, output_file, behavior) == seq![
            "-hide_banner"@,
            "-loglevel"@,
            "error"@,
            "-i"@,
            video_file.file_name@,
        ] + inputs(subtitles) + stream_maps(subtitles, behavior) + labels(
            subtitles,
            behavior.first_index(),
        ) + subtitle_codec(output_file.format) + seq!["-c"@, "copy"@, output_file.file_name@],
{
    assert(merge_args(video_file, subtitles, output_file, behavior) =~= seq![
        "-hide_banner"@,
        "-loglevel"@,
        "error"@,
        "-i"@,
        video_file.file_name@,
    ] + inputs(subtitles) + stream_maps(subtitles, behavior) + labels(
        subtitles,
        behavior.first_index(),
    ) + subtitle_codec(output_file.format) + seq!["-c"@, "copy"@, output_file.file_name@]);
}

proof fn input_maps_are_positive(maps: Seq<Seq<char>>, count: nat)
    requires
        maps.len() % 2 == 0,
    ensures
        negative_maps(maps + input_maps(count)) == negative_maps(maps),
    decreases count,
{
    if count == 0 {
        assert(maps + input_maps(count) =~= maps);
    } else {
        let init = maps + input_maps((count - 1) as nat);
        let all = maps + input_maps(count);
        input_maps_are_positive(maps, (count - 1) as nat);
        decimal_is_unsigned(count);
        assert(all =~= init.push("-map"@).push(decimal_digits(count)));
        assert(all.drop_last().drop_last() =~= init);
    }
}

/// Under `Overwrite` exactly one directive drops streams, however many
/// subtitles there are, and it drops all subtitle streams of the video:
/// `-map -0:s`, right after the directive that takes all streams.
pub proof fn overwrite_drops_once(subtitles: Seq<SubtitleFile>)
    ensures
        negative_maps(stream_maps(subtitles, Behavior::Overwrite)) == 1,
        stream_maps(subtitles, Behavior::Overwrite) == seq!["-map"@, "0"@, "-map"@, "-0:s"@]
            + input_maps(subtitles.len()),
{
    let head = seq!["-map"@, "0"@, "-map"@, "-0:s"@];
    assert(stream_maps(subtitles, Behavior::Overwrite) =~= head + input_maps(subtitles.len()));
    input_maps_are_positive(head, subtitles.len());
    reveal_strlit("0");
    reveal_strlit("-0:s");
    assert(head.drop_last().drop_last() =~= seq!["-map"@, "0"@]);
    assert(seq!["-map"@, "0"@].drop_last().drop_last() =~= Seq::<Seq<char>>::empty());
    assert(negative_maps(Seq::<Seq<char>>::empty()) == 0);
    assert(negative_maps(seq!["-map"@, "0"@]) == 0);
    assert(negative_maps(head) == 1);
}

proof fn negative_maps_of_pair(maps: Seq<Seq<char>>, option: Seq<char>, value: Seq<char>)
    ensures
        negative_maps(maps + seq![option, value]) == negative_maps(maps) + if option == "-map"@
            && is_negative(value) {
            1nat
        } else {
            0nat
        },
{
    let all = maps + seq![option, value];
    assert(all.drop_last().drop_last() =~= maps);
}

proof fn exclusions_are_negative(subtitles: Seq<SubtitleFile>)
    ensures
        2 * negative_maps(exclusions(subtitles)) == exclusions(subtitles).len(),
    decreases subtitles.len(),
{
    if subtitles.len() > 0 {
        exclusions_are_negative(subtitles.drop_last());
        if let Some(language) = subtitles.last().language {
            let selection = "-0:s:m:language:"@ + language.metadata_tag();
            reveal_strlit("-0:s:m:language:");
            assert(selection[0] == '-');
            negative_maps_of_pair(exclusions(subtitles.drop_last()), "-map"@, selection);
        } else {
            assert(exclusions(subtitles) =~= exclusions(subtitles.drop_last()));
        }
    }
}

/// The directives that drop streams stand after the one that takes all
/// streams of the video and before those that take the new streams: the
/// stream maps are the first, then directives that all drop streams, then
/// directives of which none does.
pub proof fn drops_stand_before_new_streams(subtitles: Seq<SubtitleFile>, behavior: Behavior)
    ensures
        ({
            let drops = flags_or_none(behavior.mode().ffmpeg_flags(subtitles));
            let rest = input_maps(subtitles.len()) + behavior.kept_streams();
            &&& stream_maps(subtitles, behavior) == seq!["-map"@, "0"@] + drops + rest
            &&& negative_maps(seq!["-map"@, "0"@]) == 0
            &&& 2 * negative_maps(drops) == drops.len()
            &&& negative_maps(rest) == 0
        }),
{
    let drops = flags_or_none(behavior.mode().ffmpeg_flags(subtitles));
    let rest = input_maps(subtitles.len()) + behavior.kept_streams();
    let none = Seq::<Seq<char>>::empty();
    assert(stream_maps(subtitles, behavior) =~= seq!["-map"@, "0"@] + drops + rest);
    assert(negative_maps(none) == 0);
    reveal_strlit("0");
    negative_maps_of_pair(none, "-map"@, "0"@);
    assert(none + seq!["-map"@, "0"@] =~= seq!["-map"@, "0"@]);
    match behavior.mode() {
        Mode::Append => {},
        Mode::Replace => {
            exclusions_are_negative(subtitles);
        },
        Mode::Overwrite => {
            reveal_strlit("-0:s");
            negative_maps_of_pair(none, "-map"@, "-0:s"@);
            assert(none + seq!["-map"@, "-0:s"@] =~= seq!["-map"@, "-0:s"@]);
        },
    }
    input_maps_are_positive(none, subtitles.len());
    assert(none + input_maps(subtitles.len()) =~= input_maps(subtitles.len()));
    reveal_strlit("0:s?");
    negative_maps_of_pair(input_maps(subtitles.len()), "-map"@, "0:s?"@);
    assert(input_maps(subtitles.len()) + none =~= input_maps(subtitles.len()));
}

/// The number of subtitle streams that the video has matters only where the
/// merge runs under `Append`: under the other modes the plan is the same for
/// every count.
pub proof fn count_matters_to_append_alone(
    video_file: VideoFile,
    subtitles: Seq<SubtitleFile>,
    output_file: VideoFile,
    mode: Mode,
    first: usize,
    second: usize,
)
    ensures
        mode.for_format(output_file.format) != Mode::Append ==> merge_plan(
            video_file,
            subtitles,
            output_file,
            mode,
            first,
        ) == merge_plan(video_file, subtitles, output_file, mode, second),
{
}

/// More than one subtitle for a container that holds a single subtitle
/// stream is refused with `ContainerCapabilityViolation`, whatever the mode
/// asked for: no arguments to run the merge tool with come of it.
pub proof fn crowded_container_is_refused(
    video_file: VideoFile,
    subtitles: Seq<SubtitleFile>,
    output_file: VideoFile,
    mode: Mode,
    existing: usize,
)
    requires
        subtitles.len() > 1,
        !output_file.format.holds_many_subtitles(),
    ensures
        merge_plan(video_file, subtitles, output_file, mode, existing) == Err::<Seq<Seq<char>>, _>(
            Error::ContainerCapabilityViolation,
        ),
{
}

} // verus!
