//! Tests of the theme store and the theme file parser.

use powerline::parse::{parse_color, parse_glyph, parse_theme, parse_u8, ErrCorrupt};
use powerline::theme::{theme_index_char, theme_index_rgb, CharRole, RgbRole, Theme};

fn lines_of(text: &[&str]) -> Vec<String> {
    text.iter().map(|l| l.to_string()).collect()
}

#[test]
fn every_recognized_role_is_settable() {
    let mut lines: Vec<String> = Vec::new();
    lines.push("separator_fg = 0,1,2".to_string());
    lines.push("home_bg = 1,2,3".to_string());
    lines.push("home_fg = 2,3,4".to_string());
    lines.push("path_bg = 3,4,5".to_string());
    lines.push("path_fg = 4,5,6".to_string());
    lines.push("cwd_fg = 5,6,7".to_string());
    lines.push("username_bg = 6,7,8".to_string());
    lines.push("username_fg = 7,8,9".to_string());
    lines.push("username_root_bg = 8,9,10".to_string());
    lines.push("username_root_fg = 9,10,11".to_string());
    lines.push("hostname_bg = 10,11,12".to_string());
    lines.push("hostname_fg = 11,12,13".to_string());
    lines.push("jobs_bg = 12,13,14".to_string());
    lines.push("jobs_fg = 13,14,15".to_string());
    lines.push("time_bg = 14,15,16".to_string());
    lines.push("time_fg = 15,16,17".to_string());
    lines.push("ssh_bg = 16,17,18".to_string());
    lines.push("ssh_fg = 17,18,19".to_string());
    lines.push("ro_bg = 18,19,20".to_string());
    lines.push("ro_fg = 19,20,21".to_string());
    lines.push("git_clean_bg = 20,21,22".to_string());
    lines.push("git_clean_fg = 21,22,23".to_string());
    lines.push("git_dirty_bg = 22,23,24".to_string());
    lines.push("git_dirty_fg = 23,24,25".to_string());
    lines.push("git_ahead_bg = 24,25,26".to_string());
    lines.push("git_ahead_fg = 25,26,27".to_string());
    lines.push("git_behind_bg = 26,27,28".to_string());
    lines.push("git_behind_fg = 27,28,29".to_string());
    lines.push("git_conflicted_bg = 28,29,30".to_string());
    lines.push("git_conflicted_fg = 29,30,31".to_string());
    lines.push("git_notstaged_bg = 30,31,32".to_string());
    lines.push("git_notstaged_fg = 31,32,33".to_string());
    lines.push("git_staged_bg = 32,33,34".to_string());
    lines.push("git_staged_fg = 33,34,35".to_string());
    lines.push("git_untracked_bg = 34,35,36".to_string());
    lines.push("git_untracked_fg = 35,36,37".to_string());
    lines.push("cmd_passed_bg = 36,37,38".to_string());
    lines.push("cmd_passed_fg = 37,38,39".to_string());
    lines.push("cmd_failed_bg = 38,39,40".to_string());
    lines.push("cmd_failed_fg = 39,40,41".to_string());
    lines.push("virtual_env_bg = 40,41,42".to_string());
    lines.push("virtual_env_fg = 41,42,43".to_string());
    lines.push("nixshell_bg = 42,43,44".to_string());
    lines.push("nixshell_fg = 43,44,45".to_string());
    lines.push("ssh_char = A".to_string());
    lines.push("ro_char = B".to_string());
    lines.push("git_ahead_char = C".to_string());
    lines.push("git_behind_char = D".to_string());
    lines.push("git_staged_char = E".to_string());
    lines.push("git_notstaged_char = F".to_string());
    lines.push("git_untracked_char = G".to_string());
    lines.push("git_conflicted_char = H".to_string());
    let theme = parse_theme(&lines).expect("a file naming every role parses");
    assert_eq!(theme.separator_fg, (0, 1, 2));
    assert_eq!(theme.home_bg, (1, 2, 3));
    assert_eq!(theme.home_fg, (2, 3, 4));
    assert_eq!(theme.path_bg, (3, 4, 5));
    assert_eq!(theme.path_fg, (4, 5, 6));
    assert_eq!(theme.cwd_fg, (5, 6, 7));
    assert_eq!(theme.username_bg, (6, 7, 8));
    assert_eq!(theme.username_fg, (7, 8, 9));
    assert_eq!(theme.username_root_bg, (8, 9, 10));
    assert_eq!(theme.username_root_fg, (9, 10, 11));
    assert_eq!(theme.hostname_bg, (10, 11, 12));
    assert_eq!(theme.hostname_fg, (11, 12, 13));
    assert_eq!(theme.jobs_bg, (12, 13, 14));
    assert_eq!(theme.jobs_fg, (13, 14, 15));
    assert_eq!(theme.time_bg, (14, 15, 16));
    assert_eq!(theme.time_fg, (15, 16, 17));
    assert_eq!(theme.ssh_bg, (16, 17, 18));
    assert_eq!(theme.ssh_fg, (17, 18, 19));
    assert_eq!(theme.ro_bg, (18, 19, 20));
    assert_eq!(theme.ro_fg, (19, 20, 21));
    assert_eq!(theme.git_clean_bg, (20, 21, 22));
    assert_eq!(theme.git_clean_fg, (21, 22, 23));
    assert_eq!(theme.git_dirty_bg, (22, 23, 24));
    assert_eq!(theme.git_dirty_fg, (23, 24, 25));
    assert_eq!(theme.git_ahead_bg, (24, 25, 26));
    assert_eq!(theme.git_ahead_fg, (25, 26, 27));
    assert_eq!(theme.git_behind_bg, (26, 27, 28));
    assert_eq!(theme.git_behind_fg, (27, 28, 29));
    assert_eq!(theme.git_conflicted_bg, (28, 29, 30));
    assert_eq!(theme.git_conflicted_fg, (29, 30, 31));
    assert_eq!(theme.git_notstaged_bg, (30, 31, 32));
    assert_eq!(theme.git_notstaged_fg, (31, 32, 33));
    assert_eq!(theme.git_staged_bg, (32, 33, 34));
    assert_eq!(theme.git_staged_fg, (33, 34, 35));
    assert_eq!(theme.git_untracked_bg, (34, 35, 36));
    assert_eq!(theme.git_untracked_fg, (35, 36, 37));
    assert_eq!(theme.cmd_passed_bg, (36, 37, 38));
    assert_eq!(theme.cmd_passed_fg, (37, 38, 39));
    assert_eq!(theme.cmd_failed_bg, (38, 39, 40));
    assert_eq!(theme.cmd_failed_fg, (39, 40, 41));
    assert_eq!(theme.virtual_env_bg, (40, 41, 42));
    assert_eq!(theme.virtual_env_fg, (41, 42, 43));
    assert_eq!(theme.nixshell_bg, (42, 43, 44));
    assert_eq!(theme.nixshell_fg, (43, 44, 45));
    assert_eq!(theme.ssh_char, 'A');
    assert_eq!(theme.ro_char, 'B');
    assert_eq!(theme.git_ahead_char, 'C');
    assert_eq!(theme.git_behind_char, 'D');
    assert_eq!(theme.git_staged_char, 'E');
    assert_eq!(theme.git_notstaged_char, 'F');
    assert_eq!(theme.git_untracked_char, 'G');
    assert_eq!(theme.git_conflicted_char, 'H');
    // the unnamed slots stay at their defaults
    assert_eq!(theme.ps_bg, (0, 0, 0));
    assert_eq!(theme.ps_fg, (0, 0, 0));
}

#[test]
fn last_write_wins_on_a_repeated_role() {
    let lines = lines_of(&["path_bg = 1,2,3", "path_bg = 4,5,6"]);
    let theme = parse_theme(&lines).unwrap();
    assert_eq!(theme.path_bg, (4, 5, 6));
}

#[test]
fn last_write_wins_on_a_repeated_glyph_role() {
    let lines = lines_of(&["ssh_char = a", "ssh_char = b"]);
    let theme = parse_theme(&lines).unwrap();
    assert_eq!(theme.ssh_char, 'b');
}

#[test]
fn unknown_role_name_is_rejected() {
    let lines = lines_of(&["frobnicate = 1,2,3"]);
    assert!(parse_theme(&lines).is_err());
}

#[test]
fn unknown_glyph_role_name_is_rejected() {
    let lines = lines_of(&["path_char = x"]);
    assert!(parse_theme(&lines).is_err());
}

#[test]
fn unnamed_slots_cannot_be_addressed() {
    let lines = lines_of(&["ps_bg = 1,2,3"]);
    assert!(parse_theme(&lines).is_err());
}

#[test]
fn empty_key_is_rejected() {
    let lines = lines_of(&["= 1,2,3"]);
    assert!(parse_theme(&lines).is_err());
}

#[test]
fn missing_separator_is_rejected() {
    let lines = lines_of(&["path_bg 1,2,3"]);
    assert!(parse_theme(&lines).is_err());
}

#[test]
fn missing_value_is_rejected() {
    let lines = lines_of(&["path_bg ="]);
    assert!(parse_theme(&lines).is_err());
}

#[test]
fn color_component_out_of_range_fails() {
    assert_eq!(parse_color("10,20,300"), None);
}

#[test]
fn color_with_two_fields_fails() {
    assert_eq!(parse_color("10,20"), None);
}

#[test]
fn color_with_four_fields_fails() {
    assert_eq!(parse_color("10,20,30,40"), None);
}

#[test]
fn color_with_three_fields_parses() {
    assert_eq!(parse_color("10,20,30"), Some((10, 20, 30)));
}

#[test]
fn color_fields_are_not_trimmed() {
    // the grammar splits on commas only; an inner space is part of the field
    assert_eq!(parse_color("10, 20, 30"), None);
}

#[test]
fn color_components_accept_a_leading_plus() {
    assert_eq!(parse_u8("+17"), Some(17));
    assert_eq!(parse_u8("+"), None);
    assert_eq!(parse_u8(""), None);
    assert_eq!(parse_u8("255"), Some(255));
    assert_eq!(parse_u8("256"), None);
    assert_eq!(parse_u8("0255"), Some(255));
    assert_eq!(parse_u8("1e2"), None);
}

#[test]
fn color_line_writes_the_named_slot() {
    let lines = lines_of(&["hostname_fg = 10,20,30"]);
    let theme = parse_theme(&lines).unwrap();
    assert_eq!(theme.hostname_fg, (10, 20, 30));
    assert_eq!(theme.hostname_bg, (0, 0, 0));
}

#[test]
fn glyph_single_character_stands_for_itself() {
    let lines = lines_of(&["ssh_char = S"]);
    let theme = parse_theme(&lines).unwrap();
    assert_eq!(theme.ssh_char, 'S');
}

#[test]
fn glyph_hex_value_is_a_code_point() {
    let lines = lines_of(&["ssh_char = 2713"]);
    let theme = parse_theme(&lines).unwrap();
    assert_eq!(theme.ssh_char, '\u{2713}');
}

#[test]
fn glyph_invalid_hex_fails() {
    let lines = lines_of(&["ssh_char = zz"]);
    assert!(parse_theme(&lines).is_err());
}

#[test]
fn glyph_surrogate_code_point_fails() {
    assert_eq!(parse_glyph("D800"), None);
}

#[test]
fn glyph_code_point_beyond_unicode_fails() {
    assert_eq!(parse_glyph("110000"), None);
}

#[test]
fn glyph_single_hex_digit_is_taken_literally() {
    assert_eq!(parse_glyph("a"), Some('a'));
}

#[test]
fn glyph_hex_is_case_insensitive() {
    assert_eq!(parse_glyph("2B62"), Some('\u{2b62}'));
    assert_eq!(parse_glyph("2b62"), Some('\u{2b62}'));
}

#[test]
fn glyph_two_characters_are_read_as_hex() {
    // only a value of exactly one character stands for itself
    assert_eq!(parse_glyph("ab"), Some('\u{ab}'));
}

#[test]
fn glyph_non_ascii_character_stands_for_itself() {
    let lines = lines_of(&["ro_char = \u{2718}"]);
    let theme = parse_theme(&lines).unwrap();
    assert_eq!(theme.ro_char, '\u{2718}');
}

#[test]
fn comments_and_blanks_parse_to_all_defaults() {
    let lines = lines_of(&["# a comment", "", "   ", "\t", "# another"]);
    let theme = parse_theme(&lines).unwrap();
    assert_eq!(theme, Theme::default());
}

#[test]
fn empty_file_parses_to_all_defaults() {
    let lines: Vec<String> = Vec::new();
    let theme = parse_theme(&lines).unwrap();
    assert_eq!(theme, Theme::default());
}

#[test]
fn keys_and_values_are_trimmed() {
    let lines = lines_of(&["  path_bg  =  1,2,3  "]);
    let theme = parse_theme(&lines).unwrap();
    assert_eq!(theme.path_bg, (1, 2, 3));
}

#[test]
fn value_may_contain_further_separators_only_before_parsing() {
    // everything after the first separator is the value; a second one makes
    // the value unparsable
    let lines = lines_of(&["path_bg = 1,2,3 = 4"]);
    assert!(parse_theme(&lines).is_err());
}

#[test]
fn indented_comment_is_not_a_comment() {
    let lines = lines_of(&["  # not a comment"]);
    assert!(parse_theme(&lines).is_err());
}

#[test]
fn parsing_stops_at_the_first_bad_line() {
    let lines = lines_of(&["path_bg = 1,2,3", "nonsense", "path_fg = 4,5,6"]);
    assert!(parse_theme(&lines).is_err());
}

#[test]
fn parsing_is_deterministic() {
    let lines = lines_of(&["path_bg = 1,2,3", "ssh_char = 2713", "# c"]);
    let a = parse_theme(&lines).unwrap();
    let b = parse_theme(&lines).unwrap();
    assert_eq!(a, b);
}

#[test]
fn role_name_lookup_finds_known_names() {
    assert_eq!(theme_index_rgb("path_bg"), Some(RgbRole::PathBg));
    assert_eq!(theme_index_rgb("nixshell_fg"), Some(RgbRole::NixshellFg));
    assert_eq!(theme_index_rgb("no_such_role"), None);
    assert_eq!(theme_index_rgb("ps_bg"), None);
    assert_eq!(theme_index_char("git_ahead_char"), Some(CharRole::GitAheadChar));
    assert_eq!(theme_index_char("path_bg"), None);
}

#[test]
fn corrupt_error_carries_its_message() {
    let e = ErrCorrupt;
    assert_eq!(e.message(), "Corrupt theme file");
}
