use filedrop::naming::{final_name, is_entry_name};
use filedrop::text::{replace_whitespace, same_text};

#[test]
fn alias_with_space_joins_original_name() {
    assert_eq!(final_name(Some("My Song"), "track.mp3"), "My_Song_track.mp3");
}

#[test]
fn no_alias_keeps_original_name() {
    assert_eq!(final_name(None, "track.mp3"), "track.mp3");
}

#[test]
fn empty_alias_still_adds_separator() {
    assert_eq!(final_name(Some(""), "a.wav"), "_a.wav");
}

#[test]
fn every_whitespace_kind_is_replaced() {
    assert_eq!(replace_whitespace("a\tb\nc d\u{3000}e\u{A0}f"), "a_b_c_d_e_f");
    assert_eq!(replace_whitespace("  "), "__");
    assert_eq!(replace_whitespace(""), "");
    assert_eq!(replace_whitespace("plain"), "plain");
}

#[test]
fn entry_names_are_single_segments() {
    assert!(is_entry_name("song.mp3"));
    assert!(is_entry_name("..mp3"));
    assert!(is_entry_name(".hidden"));
    assert!(!is_entry_name(""));
    assert!(!is_entry_name("."));
    assert!(!is_entry_name(".."));
    assert!(!is_entry_name("../etc/passwd"));
    assert!(!is_entry_name("a/b"));
    assert!(!is_entry_name("a\\b"));
    assert!(!is_entry_name("a\0b"));
}

#[test]
fn same_text_compares_characters() {
    assert!(same_text("file", "file"));
    assert!(!same_text("file", "files"));
    assert!(!same_text("alias", "Alias"));
    assert!(same_text("", ""));
}
