use subtitle_merge::error::Error;
use subtitle_merge::subtitle::file::{
    reads_file, split_subtitle_option, SubtitleFile, SubtitleFileBuilder,
};
use subtitle_merge::subtitle::format::SubtitleFormat;
use subtitle_merge::subtitle::language::Language;
use subtitle_merge::subtitle::mode::SubtitleMode;
use subtitle_merge::utils::FileStatus;

#[test]
fn option_without_a_comma_is_a_file() {
    assert_eq!(split_subtitle_option("en.srt"), ("en.srt".to_string(), None));
    assert_eq!(split_subtitle_option(""), ("".to_string(), None));
}

#[test]
fn option_is_split_at_its_last_comma() {
    assert_eq!(
        split_subtitle_option("en.srt,english"),
        ("en.srt".to_string(), Some("english".to_string()))
    );
    assert_eq!(
        split_subtitle_option("a,b.srt,spanish"),
        ("a,b.srt".to_string(), Some("spanish".to_string()))
    );
    assert_eq!(split_subtitle_option("en.srt,"), ("en.srt".to_string(), Some("".to_string())));
    assert_eq!(split_subtitle_option(",french"), ("".to_string(), Some("french".to_string())));
    assert_eq!(split_subtitle_option(","), ("".to_string(), Some("".to_string())));
}

#[test]
fn builder_takes_a_canonical_file_as_it_is() {
    let builder = SubtitleFileBuilder::new()
        .with_subtitle_option(
            "en.srt,English",
            FileStatus::File,
            Some(&b"1\nHello\n"[..]),
            SubtitleMode::Remove,
        )
        .unwrap();
    assert_eq!(builder.get_contents(), None);
    assert_eq!(builder.get_file_name(), Some("en.srt"));
    let subtitle = builder.build().unwrap();
    assert_eq!(subtitle.file_name, "en.srt");
    assert_eq!(subtitle.language, Some(Language::English));
    assert_eq!(subtitle.format, SubtitleFormat::Srt);
    assert_eq!(subtitle.mode, SubtitleMode::Remove);
    assert!(subtitle.is_original_subtitle_file);
    assert!(!subtitle.should_remove_file());
}

#[test]
fn builder_without_language_has_no_fallback() {
    let builder = SubtitleFileBuilder::new()
        .with_subtitle_option("es.srt", FileStatus::File, Some(&b"se\xf1or"[..]), SubtitleMode::Keep);
    assert_eq!(builder.err(), Some(Error::EncodingDetectionFailure));
    let builder = SubtitleFileBuilder::new().with_subtitle_option(
        "es.srt,english",
        FileStatus::File,
        Some(&b"se\xf1or"[..]),
        SubtitleMode::Keep,
    );
    assert_eq!(builder.err(), Some(Error::EncodingDetectionFailure));
}

#[test]
fn builder_decodes_with_the_encodings_of_the_language() {
    let builder = SubtitleFileBuilder::new()
        .with_subtitle_option(
            "dir/es.srt,spanish",
            FileStatus::File,
            Some(&b"se\xf1or\r\n"[..]),
            SubtitleMode::Remove,
        )
        .unwrap();
    assert_eq!(builder.get_contents(), Some("señor\n"));
    assert_eq!(builder.get_file_name(), Some("dir/es-fixed.srt"));
    let subtitle = builder.build().unwrap();
    assert_eq!(subtitle.file_name, "dir/es-fixed.srt");
    assert_eq!(subtitle.language, Some(Language::Spanish));
    assert!(!subtitle.is_original_subtitle_file);
    assert!(subtitle.should_remove_file());
}

#[test]
fn builder_with_language_and_file_given_apart() {
    let builder = SubtitleFileBuilder::new()
        .with_language(Language::Spanish)
        .with_file("es.srt", FileStatus::File, Some(&b"a\xf1o"[..]), SubtitleMode::Replace)
        .unwrap();
    assert_eq!(builder.get_contents(), Some("año"));
    let subtitle = builder.build().unwrap();
    assert_eq!(subtitle.file_name, "es.srt");
    assert_eq!(subtitle.mode, SubtitleMode::Replace);
    assert!(!subtitle.is_original_subtitle_file);
    assert!(!subtitle.should_remove_file());
}

#[test]
fn builder_checks_in_order() {
    let refused = SubtitleFileBuilder::new().with_subtitle_option(
        "en.txt,klingon",
        FileStatus::Missing,
        None,
        SubtitleMode::Remove,
    );
    assert_eq!(refused.err(), Some(Error::UnsupportedLanguage));
    let refused = SubtitleFileBuilder::new().with_subtitle_option(
        "en.txt,english",
        FileStatus::Missing,
        None,
        SubtitleMode::Remove,
    );
    assert_eq!(refused.err(), Some(Error::FileNotFound));
    let refused = SubtitleFileBuilder::new().with_subtitle_option(
        "en.txt,english",
        FileStatus::Other,
        None,
        SubtitleMode::Remove,
    );
    assert_eq!(refused.err(), Some(Error::NotAFile));
    let refused = SubtitleFileBuilder::new().with_subtitle_option(
        "en.txt,english",
        FileStatus::File,
        None,
        SubtitleMode::Remove,
    );
    assert_eq!(refused.err(), Some(Error::UnsupportedExtension));
    let refused = SubtitleFileBuilder::new().with_subtitle_option(
        "en.srt,english",
        FileStatus::File,
        None,
        SubtitleMode::Remove,
    );
    assert_eq!(refused.err(), Some(Error::IoFailure));
    let refused = SubtitleFileBuilder::new().with_subtitle_option(
        "en.srt,english",
        FileStatus::File,
        Some(&b"\xff"[..]),
        SubtitleMode::Remove,
    );
    assert_eq!(refused.err(), Some(Error::EncodingDetectionFailure));
}

#[test]
fn a_file_is_read_only_once_the_option_has_passed() {
    assert!(reads_file("en.srt", FileStatus::File));
    assert!(reads_file("dir/en.srt,English", FileStatus::File));
    assert!(reads_file("a,b.srt,french", FileStatus::File));
    assert!(!reads_file("en.srt,klingon", FileStatus::File));
    assert!(!reads_file("en.srt,", FileStatus::File));
    assert!(!reads_file("en.srt", FileStatus::Missing));
    assert!(!reads_file("en.srt,english", FileStatus::Other));
    assert!(!reads_file("en.txt,english", FileStatus::File));
    assert!(!reads_file("en", FileStatus::File));
    assert!(!reads_file("a,b.srt", FileStatus::File));
}

#[test]
fn an_unread_file_is_refused_whatever_it_holds() {
    let options = ["en.srt,klingon", "en.txt,english", "en"];
    for option in options {
        for status in [FileStatus::Missing, FileStatus::File, FileStatus::Other] {
            assert!(!reads_file(option, status));
            let unread = SubtitleFileBuilder::new()
                .with_subtitle_option(option, status, None, SubtitleMode::Keep)
                .err();
            let read = SubtitleFileBuilder::new()
                .with_subtitle_option(option, status, Some(&b"1\nHello\n"[..]), SubtitleMode::Keep)
                .err();
            assert!(unread.is_some());
            assert_eq!(unread, read);
        }
    }
}

#[test]
fn a_large_utf8_file_needs_no_decoder() {
    let contents = "línea\n".repeat(1000);
    let builder = SubtitleFileBuilder::new()
        .with_subtitle_option(
            "es.srt,spanish",
            FileStatus::File,
            Some(contents.as_bytes()),
            SubtitleMode::Remove,
        )
        .unwrap();
    assert_eq!(builder.get_contents(), None);
    assert_eq!(builder.get_file_name(), Some("es.srt"));
}

#[test]
fn builder_names_the_missing_part() {
    assert_eq!(SubtitleFileBuilder::new().build().err(), Some(Error::MissingFileName));
    assert_eq!(
        SubtitleFileBuilder::new().with_language(Language::French).build().err(),
        Some(Error::MissingFileName)
    );
}

#[test]
fn only_a_transformed_copy_under_remove_is_removed() {
    for mode in [SubtitleMode::Keep, SubtitleMode::Replace, SubtitleMode::Remove] {
        for is_original in [true, false] {
            let subtitle = SubtitleFile {
                language: None,
                format: SubtitleFormat::Srt,
                file_name: "en.srt".into(),
                mode,
                is_original_subtitle_file: is_original,
            };
            assert_eq!(
                subtitle.should_remove_file(),
                !is_original && mode == SubtitleMode::Remove
            );
        }
    }
}
