use subtitle_merge::error::Error;
use subtitle_merge::subtitle::encoding::{
    dos_to_unix_line_endings, get_file_buffer, get_file_with_utf8_encoding, has_dos_line_endings,
    read_file, Encoding,
};
use subtitle_merge::subtitle::format::SubtitleFormat;
use subtitle_merge::subtitle::handling::SubtitleHandling;

const SPANISH: [Encoding; 2] = [Encoding::Windows1252, Encoding::Iso885915];

#[test]
fn utf8_is_read_strictly() {
    assert_eq!(read_file("señor €".as_bytes(), None), Ok("señor €".to_string()));
    assert_eq!(read_file(b"", None), Ok(String::new()));
    assert_eq!(read_file(b"se\xf1or", None), Err(Error::EncodingDetectionFailure));
    assert_eq!(read_file(b"\xc3", None), Err(Error::EncodingDetectionFailure));
    assert_eq!(read_file(b"\xed\xa0\x80", None), Err(Error::EncodingDetectionFailure));
    assert_eq!(read_file(b"\xc0\x80", None), Err(Error::EncodingDetectionFailure));
}

#[test]
fn a_byte_order_mark_is_text() {
    assert_eq!(read_file(b"\xef\xbb\xbfhi", None), Ok("\u{feff}hi".to_string()));
    assert_eq!(read_file(b"\xff\xfeh\x00", None), Err(Error::EncodingDetectionFailure));
}

#[test]
fn windows_1252_is_decoded() {
    assert_eq!(
        read_file(b"se\xf1or \x80", Some(Encoding::Windows1252)),
        Ok("señor €".to_string())
    );
    assert_eq!(read_file(b"\xa4", Some(Encoding::Windows1252)), Ok("¤".to_string()));
    assert_eq!(read_file(b"abc", Some(Encoding::Windows1252)), Ok("abc".to_string()));
}

#[test]
fn latin_9_is_decoded() {
    assert_eq!(read_file(b"se\xf1or \xa4", Some(Encoding::Iso885915)), Ok("señor €".to_string()));
    assert_eq!(read_file(b"\x80", Some(Encoding::Iso885915)), Ok("\u{80}".to_string()));
}

#[test]
fn buffer_of_utf8_needs_no_fallback() {
    assert_eq!(
        get_file_buffer("año".as_bytes(), Some(SPANISH.to_vec())),
        Ok(("año".to_string(), false))
    );
    assert_eq!(get_file_buffer(b"plain", None), Ok(("plain".to_string(), false)));
}

#[test]
fn buffer_falls_back_in_order() {
    assert_eq!(
        get_file_buffer(b"a\xa4o", Some(SPANISH.to_vec())),
        Ok(("a¤o".to_string(), true))
    );
    assert_eq!(
        get_file_buffer(b"a\xa4o", Some(vec![Encoding::Iso885915, Encoding::Windows1252])),
        Ok(("a€o".to_string(), true))
    );
}

#[test]
fn a_later_encoding_is_never_preferred() {
    let file = get_file_with_utf8_encoding(
        "subs/es.srt",
        b"a\xa4o\r\n",
        &SubtitleFormat::Srt,
        Some(vec![Encoding::Iso885915, Encoding::Windows1252]),
        &SubtitleHandling::Keep,
    )
    .unwrap();
    assert!(file.is_transformed);
    assert_eq!(file.file_name, "subs/es-fixed.srt");
    assert_eq!(file.contents, "a€o\n");
}

#[test]
fn buffer_without_fallback_fails() {
    assert_eq!(get_file_buffer(b"a\xf1o", None), Err(Error::EncodingDetectionFailure));
    assert_eq!(get_file_buffer(b"a\xf1o", Some(vec![])), Err(Error::EncodingDetectionFailure));
}

#[test]
fn dos_line_endings_are_cr_lf() {
    assert!(has_dos_line_endings("a\r\nb"));
    assert!(has_dos_line_endings("\r\n"));
    assert!(has_dos_line_endings("a\nb\r\n"));
    assert!(has_dos_line_endings("\r\r\n"));
    assert!(!has_dos_line_endings(""));
    assert!(!has_dos_line_endings("\r"));
    assert!(!has_dos_line_endings("a\nb\n"));
    assert!(!has_dos_line_endings("a\rb\n"));
    assert!(!has_dos_line_endings("\n\r"));
    assert!(!has_dos_line_endings("a\r"));
}

#[test]
fn every_carriage_return_goes() {
    assert_eq!(dos_to_unix_line_endings("a\r\nb\r\n"), "a\nb\n");
    assert_eq!(dos_to_unix_line_endings("a\rb\r\n\r"), "ab\n");
    assert_eq!(dos_to_unix_line_endings("ñ\r\n€"), "ñ\n€");
    assert_eq!(dos_to_unix_line_endings("no returns\n"), "no returns\n");
    assert_eq!(dos_to_unix_line_endings(""), "");
    assert_eq!(dos_to_unix_line_endings("\r\r"), "");
}

#[test]
fn canonical_file_is_not_transformed() {
    for handling in [SubtitleHandling::Keep, SubtitleHandling::Replace, SubtitleHandling::Remove] {
        let file = get_file_with_utf8_encoding(
            "dir/es.srt",
            "1\nHola, señor\n".as_bytes(),
            &SubtitleFormat::Srt,
            Some(SPANISH.to_vec()),
            &handling,
        )
        .unwrap();
        assert_eq!(file.file_name, "dir/es.srt");
        assert!(!file.is_transformed);
        assert_eq!(file.contents, "1\nHola, señor\n");
    }
}

#[test]
fn canonical_file_needs_no_file_name() {
    let file =
        get_file_with_utf8_encoding("..", b"text\n", &SubtitleFormat::Srt, None, &SubtitleHandling::Keep)
            .unwrap();
    assert_eq!(file.file_name, "..");
    assert!(!file.is_transformed);
}

#[test]
fn a_lone_carriage_return_is_no_dos_line_ending() {
    let file = get_file_with_utf8_encoding(
        "en.srt",
        b"a\rb\n",
        &SubtitleFormat::Srt,
        None,
        &SubtitleHandling::Remove,
    )
    .unwrap();
    assert!(!file.is_transformed);
    assert_eq!(file.file_name, "en.srt");
    assert_eq!(file.contents, "a\rb\n");
}

#[test]
fn dos_file_is_rewritten_without_carriage_returns() {
    let input = "1\r\nHola, señor\r\n\r\n";
    let file = get_file_with_utf8_encoding(
        "dir/es.srt",
        input.as_bytes(),
        &SubtitleFormat::Srt,
        None,
        &SubtitleHandling::Remove,
    )
    .unwrap();
    assert!(file.is_transformed);
    assert_eq!(file.file_name, "dir/es-fixed.srt");
    let expected: Vec<u8> = input.bytes().filter(|b| *b != b'\r').collect();
    assert_eq!(file.contents.as_bytes(), &expected[..]);
    assert!(!file.contents.as_bytes().contains(&b'\r'));
}

#[test]
fn dos_file_is_rewritten_in_place_under_replace() {
    let file = get_file_with_utf8_encoding(
        "dir/es.srt",
        b"a\r\nb\rc",
        &SubtitleFormat::Srt,
        None,
        &SubtitleHandling::Replace,
    )
    .unwrap();
    assert!(file.is_transformed);
    assert_eq!(file.file_name, "dir/es.srt");
    assert_eq!(file.contents, "a\nbc");
}

#[test]
fn legacy_file_is_decoded() {
    let file = get_file_with_utf8_encoding(
        "es.srt",
        b"1\nHola, se\xf1or\n",
        &SubtitleFormat::Srt,
        Some(SPANISH.to_vec()),
        &SubtitleHandling::Keep,
    )
    .unwrap();
    assert!(file.is_transformed);
    assert_eq!(file.file_name, "es-fixed.srt");
    assert_eq!(file.contents, "1\nHola, señor\n");
    assert!(std::str::from_utf8(file.contents.as_bytes()).is_ok());
}

#[test]
fn legacy_dos_file_is_decoded_and_stripped() {
    let file = get_file_with_utf8_encoding(
        "es.srt",
        b"se\xf1or\r\n",
        &SubtitleFormat::Srt,
        Some(SPANISH.to_vec()),
        &SubtitleHandling::Replace,
    )
    .unwrap();
    assert!(file.is_transformed);
    assert_eq!(file.file_name, "es.srt");
    assert_eq!(file.contents, "señor\n");
}

#[test]
fn undecodable_file_is_refused() {
    let refused = get_file_with_utf8_encoding(
        "en.srt",
        b"se\xf1or\n",
        &SubtitleFormat::Srt,
        None,
        &SubtitleHandling::Keep,
    );
    assert_eq!(refused.err(), Some(Error::EncodingDetectionFailure));
    let refused = get_file_with_utf8_encoding(
        "en.srt",
        b"se\xf1or\r\n",
        &SubtitleFormat::Srt,
        Some(vec![]),
        &SubtitleHandling::Replace,
    );
    assert_eq!(refused.err(), Some(Error::EncodingDetectionFailure));
}

#[test]
fn transformed_file_needs_a_file_name() {
    let refused = get_file_with_utf8_encoding(
        "..",
        b"a\r\n",
        &SubtitleFormat::Srt,
        None,
        &SubtitleHandling::Keep,
    );
    assert_eq!(refused.err(), Some(Error::NotAFile));
    let refused = get_file_with_utf8_encoding(
        "..",
        b"\xf1",
        &SubtitleFormat::Srt,
        Some(SPANISH.to_vec()),
        &SubtitleHandling::Replace,
    );
    assert_eq!(refused.err(), Some(Error::NotAFile));
}
