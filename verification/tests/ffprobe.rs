use subtitle_merge::external::ffprobe::{get_args_for_number_of_subtitles, get_number_of_subtitles};
use subtitle_merge::subtitle::language::Language;

#[test]
fn probe_for_all_subtitle_streams() {
    assert_eq!(
        get_args_for_number_of_subtitles("movie.mkv", None),
        [
            "-loglevel",
            "error",
            "-show_entries",
            "stream=index",
            "-select_streams",
            "s",
            "movie.mkv"
        ]
        .map(String::from)
        .to_vec()
    );
}

#[test]
fn probe_for_the_streams_of_a_language() {
    assert_eq!(
        get_args_for_number_of_subtitles("dir/movie.mp4", Some(&Language::Spanish)),
        [
            "-loglevel",
            "error",
            "-show_entries",
            "stream=index",
            "-select_streams",
            "s:m:spa",
            "dir/movie.mp4"
        ]
        .map(String::from)
        .to_vec()
    );
}

#[test]
fn three_lines_make_a_stream() {
    assert_eq!(get_number_of_subtitles(b""), 0);
    assert_eq!(get_number_of_subtitles(b"[STREAM]\nindex=2\n[/STREAM]\n"), 1);
    assert_eq!(
        get_number_of_subtitles(b"[STREAM]\nindex=2\n[/STREAM]\n[STREAM]\nindex=3\n[/STREAM]\n"),
        2
    );
}

#[test]
fn stream_count_rounds_down() {
    assert_eq!(get_number_of_subtitles(b"\n"), 0);
    assert_eq!(get_number_of_subtitles(b"\n\n"), 0);
    assert_eq!(get_number_of_subtitles(b"\n\n\n"), 1);
    assert_eq!(get_number_of_subtitles(b"a\nb\nc\nd\ne"), 1);
    assert_eq!(get_number_of_subtitles(b"no line feed\r"), 0);
    assert_eq!(get_number_of_subtitles(&[b'\n'; 300]), 100);
}
