use crate::subtitle::language::Language;
use crate::text::{join, push_str, push_text, texts};
use vstd::prelude::*;

verus! {

/// The streams to ask the inspection tool for: all subtitle streams, or
/// those whose metadata carries the tag of `language`.
pub open spec fn stream_selector(language: Option<Language>) -> Seq<char> {
    match language {
        Some(language) => "s:m:"@ + language.metadata_tag(),
        None => "s"@,
    }
}

/// The arguments that make the inspection tool print the index of each
/// selected stream of the video at `file_name`, and nothing but errors
/// besides.
pub open spec fn probe_args(file_name: Seq<char>, language: Option<Language>) -> Seq<Seq<char>> {
    seq![
        "-loglevel"@,
        "error"@,
        "-show_entries"@,
        "stream=index"@,
        "-select_streams"@,
        stream_selector(language),
        file_name,
    ]
}

/// How many line feeds `output` holds.
pub open spec fn line_feeds(output: Seq<u8>) -> nat
    decreases output.len(),
{
    if output.len() == 0 {
        0
    } else {
        line_feeds(output.drop_last()) + if output.last() == 10 {
            1nat
        } else {
            0nat
        }
    }
}

/// How many streams `output` reports: the tool prints three lines for each.
pub open spec fn reported_streams(output: Seq<u8>) -> nat {
    line_feeds(output) / 3
}

/// The arguments to run the inspection tool with, to count the subtitle
/// streams of the video at `file_name`: all of them, or those in `language`.
pub fn get_args_for_number_of_subtitles(file_name: &str, language: Option<&Language>) -> (args:
    Vec<String>)
    ensures
        texts(args@) == probe_args(
            file_name@,
            match language {
                Some(language) => Some(*language),
                None => None,
            },
        ),
{
    let mut args: Vec<String> = Vec::new();
    push_str(&mut args, "-loglevel");
    push_str(&mut args, "error");
    push_str(&mut args, "-show_entries");
    push_str(&mut args, "stream=index");
    push_str(&mut args, "-select_streams");
    match language {
        Some(language) => {
            let tag = language.to_metadata_tag();
            push_text(&mut args, join("s:m:", tag.as_str()));
        },
        None => {
            push_str(&mut args, "s");
        },
    }
    push_str(&mut args, file_name);
    args
}

/// The number of streams that the inspection tool reported in `output`, what
/// it printed to its standard output: the number of line feeds there, divided
/// by three and rounded down.
pub fn get_number_of_subtitles(output: &[u8]) -> (count: usize)
    ensures
        count == reported_streams(output@),
{
    let mut lines: usize = 0;
    let mut i: usize = 0;
    assert(output@.take(0) =~= seq![]);
    while i < output.len()
        invariant
            i <= output.len(),
            lines <= i,
            lines == line_feeds(output@.take(i as int)),
        decreases output.len() - i,
    {
        assert(output@.take(i + 1).drop_last() =~= output@.take(i as int));
        if output[i] == 10 {
            lines += 1;
        }
        i += 1;
    }
    assert(output@.take(i as int) =~= output@);
    lines / 3
}

} // verus!
