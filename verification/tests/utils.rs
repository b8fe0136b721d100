use subtitle_merge::error::Error;
use subtitle_merge::utils::{
    check_input, check_output, get_file_extension, get_file_stem, get_output_file_name,
    parse_output_file, FileStatus,
};
use subtitle_merge::video::file::VideoFile;
use subtitle_merge::video::format::VideoFormat;

#[test]
fn stem_is_the_file_name_without_its_extension() {
    assert_eq!(get_file_stem("movie.mkv"), Ok("movie".to_string()));
    assert_eq!(get_file_stem("dir/sub.dir/movie.final.mkv"), Ok("movie.final".to_string()));
    assert_eq!(get_file_stem("movie"), Ok("movie".to_string()));
    assert_eq!(get_file_stem(".hidden"), Ok(".hidden".to_string()));
    assert_eq!(get_file_stem("dir/movie.mkv/"), Ok("movie".to_string()));
}

#[test]
fn stem_needs_a_file_name() {
    assert_eq!(get_file_stem(""), Err(Error::NotAFile));
    assert_eq!(get_file_stem("/"), Err(Error::NotAFile));
    assert_eq!(get_file_stem(".."), Err(Error::NotAFile));
    assert_eq!(get_file_stem("dir/.."), Err(Error::NotAFile));
}

#[test]
fn extension_is_what_follows_the_last_dot() {
    assert_eq!(get_file_extension("movie.mkv"), Ok("mkv".to_string()));
    assert_eq!(get_file_extension("dir.d/movie.tar.gz"), Ok("gz".to_string()));
    assert_eq!(get_file_extension("movie."), Ok("".to_string()));
    assert_eq!(get_file_extension("movie.MKV"), Ok("MKV".to_string()));
}

#[test]
fn extension_may_be_missing() {
    assert_eq!(get_file_extension("movie"), Err(Error::UnsupportedExtension));
    assert_eq!(get_file_extension(".hidden"), Err(Error::UnsupportedExtension));
    assert_eq!(get_file_extension("dir.d/movie"), Err(Error::UnsupportedExtension));
    assert_eq!(get_file_extension(""), Err(Error::UnsupportedExtension));
    assert_eq!(get_file_extension(".."), Err(Error::UnsupportedExtension));
}

#[test]
fn file_checks_by_status() {
    assert_eq!(check_input(FileStatus::File), Ok(()));
    assert_eq!(check_input(FileStatus::Missing), Err(Error::FileNotFound));
    assert_eq!(check_input(FileStatus::Other), Err(Error::NotAFile));
    assert_eq!(check_output(FileStatus::Missing), Ok(()));
    assert_eq!(check_output(FileStatus::File), Err(Error::OutputPathCollision));
    assert_eq!(check_output(FileStatus::Other), Err(Error::OutputPathCollision));
}

#[test]
fn output_name_defaults_to_subs_beside_the_stem() {
    assert_eq!(get_output_file_name(None, "movie.mkv"), Ok("movie-subs.mkv".to_string()));
    assert_eq!(get_output_file_name(None, "dir/movie.mp4"), Ok("movie-subs.mp4".to_string()));
    assert_eq!(get_output_file_name(None, "a.b.mkv"), Ok("a.b-subs.mkv".to_string()));
}

#[test]
fn output_name_as_asked_for() {
    assert_eq!(get_output_file_name(Some("out.mkv"), "movie.mkv"), Ok("out.mkv".to_string()));
    assert_eq!(get_output_file_name(Some("out"), "movie.mkv"), Ok("out".to_string()));
}

#[test]
fn default_output_name_needs_stem_and_extension() {
    assert_eq!(get_output_file_name(None, ".."), Err(Error::NotAFile));
    assert_eq!(get_output_file_name(None, "movie"), Err(Error::UnsupportedExtension));
}

#[test]
fn output_path_equal_to_input_path_is_a_collision() {
    assert_eq!(
        get_output_file_name(Some("movie.mkv"), "movie.mkv"),
        Err(Error::OutputPathCollision)
    );
    for status in [FileStatus::Missing, FileStatus::File, FileStatus::Other] {
        assert_eq!(
            parse_output_file(Some("movie.mkv"), "movie.mkv", status),
            Err(Error::OutputPathCollision)
        );
    }
}

#[test]
fn paths_are_compared_by_their_components() {
    assert_eq!(
        get_output_file_name(Some("dir//movie.mkv"), "dir/movie.mkv"),
        Err(Error::OutputPathCollision)
    );
    assert_eq!(
        get_output_file_name(Some("dir/./movie.mkv"), "dir/movie.mkv/"),
        Err(Error::OutputPathCollision)
    );
    assert_eq!(
        get_output_file_name(Some("Movie.mkv"), "movie.mkv"),
        Ok("Movie.mkv".to_string())
    );
    assert_eq!(
        get_output_file_name(Some("dir/movie.mkv"), "movie.mkv"),
        Ok("dir/movie.mkv".to_string())
    );
}

#[test]
fn parsed_output_has_the_format_of_its_path() {
    assert_eq!(
        parse_output_file(Some("out.mp4"), "movie.mkv", FileStatus::Missing),
        Ok(VideoFile {
            file_name: "out.mp4".into(),
            format: VideoFormat::MP4
        })
    );
    assert_eq!(
        parse_output_file(None, "movie.mkv", FileStatus::Missing),
        Ok(VideoFile {
            file_name: "movie-subs.mkv".into(),
            format: VideoFormat::MKV
        })
    );
}

#[test]
fn parsed_output_must_be_free_and_of_a_known_format() {
    assert_eq!(
        parse_output_file(Some("out.mp4"), "movie.mkv", FileStatus::File),
        Err(Error::OutputPathCollision)
    );
    assert_eq!(
        parse_output_file(Some("out.mp4"), "movie.mkv", FileStatus::Other),
        Err(Error::OutputPathCollision)
    );
    assert_eq!(
        parse_output_file(Some("out.avi"), "movie.mkv", FileStatus::Missing),
        Err(Error::UnsupportedExtension)
    );
    assert_eq!(
        parse_output_file(Some("out.avi"), "movie.mkv", FileStatus::File),
        Err(Error::OutputPathCollision)
    );
    assert_eq!(
        parse_output_file(None, "movie", FileStatus::Missing),
        Err(Error::UnsupportedExtension)
    );
}
