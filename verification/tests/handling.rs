use subtitle_merge::error::Error;
use subtitle_merge::subtitle::handling::SubtitleHandling;
use subtitle_merge::subtitle::mode::SubtitleMode;

#[test]
fn replace_writes_over_the_file() {
    assert_eq!(
        SubtitleHandling::Replace.get_file_name("dir/en.srt", "srt"),
        Ok("dir/en.srt".to_string())
    );
}

#[test]
fn keep_and_remove_write_a_fixed_copy() {
    assert_eq!(
        SubtitleHandling::Keep.get_file_name("en.srt", "srt"),
        Ok("en-fixed.srt".to_string())
    );
    assert_eq!(
        SubtitleHandling::Remove.get_file_name("dir/en.old.srt", "srt"),
        Ok("dir/en.old-fixed.srt".to_string())
    );
    assert_eq!(
        SubtitleHandling::Remove.get_file_name("en", "srt"),
        Ok("en-fixed.srt".to_string())
    );
}

#[test]
fn the_fixed_copy_is_a_sibling_of_the_file() {
    for handling in [SubtitleHandling::Keep, SubtitleHandling::Remove] {
        let copy = handling.get_file_name("subs/en.srt", "srt").unwrap();
        assert_eq!(copy, "subs/en-fixed.srt");
        assert_ne!(copy, "subs/en.srt");
        let copy = std::path::Path::new(&copy);
        assert_eq!(copy.parent(), std::path::Path::new("subs/en.srt").parent());
        assert_eq!(copy.file_name().unwrap(), "en-fixed.srt");
        assert_eq!(
            handling.get_file_name("/a/b.c/en.srt", "srt"),
            Ok("/a/b.c/en-fixed.srt".to_string())
        );
        assert_eq!(
            handling.get_file_name("../en.srt", "srt"),
            Ok("../en-fixed.srt".to_string())
        );
        assert_eq!(
            handling.get_file_name("subs/en.srt/", "srt"),
            Ok("subs/en-fixed.srt".to_string())
        );
    }
}

#[test]
fn a_path_without_a_file_name_has_no_copy() {
    for handling in [SubtitleHandling::Keep, SubtitleHandling::Replace, SubtitleHandling::Remove] {
        assert_eq!(handling.get_file_name("..", "srt"), Err(Error::NotAFile));
        assert_eq!(handling.get_file_name("", "srt"), Err(Error::NotAFile));
    }
}

#[test]
fn only_remove_removes() {
    assert!(SubtitleHandling::Remove.should_remove_file());
    assert!(!SubtitleHandling::Keep.should_remove_file());
    assert!(!SubtitleHandling::Replace.should_remove_file());
}

#[test]
fn handling_names() {
    assert_eq!(SubtitleHandling::Keep.to_string(), "keep");
    assert_eq!(SubtitleHandling::Replace.to_string(), "replace");
    assert_eq!(SubtitleHandling::Remove.to_string(), "remove");
}

#[test]
fn handling_defaults_to_remove() {
    assert_eq!(SubtitleHandling::default(), SubtitleHandling::Remove);
}

#[test]
fn subtitle_mode_is_the_handling_policy() {
    let mode: SubtitleMode = SubtitleHandling::Keep;
    assert_eq!(mode.get_file_name("dir/en.srt", "srt"), Ok("dir/en-fixed.srt".to_string()));
    assert!(SubtitleMode::Remove.should_remove_file());
    assert!(!SubtitleMode::Keep.should_remove_file());
}
