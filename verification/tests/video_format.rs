use subtitle_merge::error::Error;
use subtitle_merge::video::format::VideoFormat;

#[test]
fn test_build_video_format_for_mp4() {
    let file = "my_file.mp4";
    assert_eq!(VideoFormat::new(file), Ok(VideoFormat::MP4));
}

#[test]
fn test_build_video_format_for_mkv() {
    let file = "my_file.mkv";
    assert_eq!(VideoFormat::new(file), Ok(VideoFormat::MKV));
}

#[test]
#[should_panic]
fn test_build_video_format_for_other_extensions() {
    VideoFormat::new("my_file.txt").unwrap();
}

#[test]
#[should_panic]
fn test_build_video_format_for_no_extensions() {
    VideoFormat::new("my_file").unwrap();
}

#[test]
fn video_format_errors_are_unsupported_extension() {
    assert_eq!(VideoFormat::new("my_file.txt"), Err(Error::UnsupportedExtension));
    assert_eq!(VideoFormat::new("my_file"), Err(Error::UnsupportedExtension));
    assert_eq!(VideoFormat::new("my_file.MP4"), Err(Error::UnsupportedExtension));
    assert_eq!(VideoFormat::new(""), Err(Error::UnsupportedExtension));
}

#[test]
fn video_format_looks_at_the_last_extension_only() {
    assert_eq!(VideoFormat::new("dir.mp4/movie.mkv"), Ok(VideoFormat::MKV));
    assert_eq!(VideoFormat::new("movie.mp4.mkv"), Ok(VideoFormat::MKV));
    assert_eq!(VideoFormat::from_extension("mkv"), Some(VideoFormat::MKV));
    assert_eq!(VideoFormat::from_extension("mp4"), Some(VideoFormat::MP4));
    assert_eq!(VideoFormat::from_extension("avi"), None);
}
