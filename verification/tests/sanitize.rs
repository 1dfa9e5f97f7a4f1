use docstore::sanitize::{is_hostile_char, sanitize_filename};

#[test]
fn sanitizes_hostile_characters() {
    assert_eq!(sanitize_filename("My/Template:v2"), "My_Template_v2");
}

#[test]
fn empty_input_gives_the_placeholder() {
    assert_eq!(sanitize_filename(""), "Untitled");
}

#[test]
fn white_space_alone_gives_the_placeholder() {
    assert_eq!(sanitize_filename("  \t\n "), "Untitled");
    assert_eq!(sanitize_filename("\u{a0}\u{3000}"), "Untitled");
}

#[test]
fn every_hostile_character_becomes_an_underscore() {
    assert_eq!(sanitize_filename("a/b\\c:d*e?f\"g<h>i|j"), "a_b_c_d_e_f_g_h_i_j");
    for c in ['/', '\\', ':', '*', '?', '"', '<', '>', '|'] {
        assert!(is_hostile_char(c));
    }
    for c in ['a', '_', '.', ' ', '-', '\u{e9}'] {
        assert!(!is_hostile_char(c));
    }
}

#[test]
fn white_space_around_goes_and_inside_stays() {
    assert_eq!(sanitize_filename("  weekly report \n"), "weekly report");
    assert_eq!(sanitize_filename("\u{2003}caf\u{e9}\u{a0}"), "caf\u{e9}");
}

#[test]
fn a_name_of_hostile_characters_only_keeps_its_length() {
    assert_eq!(sanitize_filename(" :: "), "__");
}

#[test]
fn a_safe_name_is_left_alone() {
    assert_eq!(sanitize_filename("notes-2024.final"), "notes-2024.final");
    assert_eq!(sanitize_filename("Untitled"), "Untitled");
}
