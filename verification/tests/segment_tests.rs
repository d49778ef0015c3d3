//! Tests of the segment assembler and the virtual-environment detector.

use powerline::segment::{Powerline, Segment};
use powerline::theme::Theme;
use powerline::virtualenv::{final_path_component, segment_virtualenv};

fn themed_powerline() -> Powerline {
    let lines: Vec<String> = vec![
        "virtual_env_bg = 35,36,37".to_string(),
        "virtual_env_fg = 0,0,1".to_string(),
    ];
    let theme = powerline::parse::parse_theme(&lines).unwrap();
    Powerline::new(theme)
}

#[test]
fn virtualenv_variable_yields_one_segment() {
    let mut p = themed_powerline();
    segment_virtualenv(&mut p, Some("/home/u/.venvs/myproj"), None, None);
    assert_eq!(p.segments.len(), 1);
    assert_eq!(p.segments[0].text, "myproj");
    assert_eq!(p.segments[0].bg, (35, 36, 37));
    assert_eq!(p.segments[0].fg, (0, 0, 1));
}

#[test]
fn no_variable_set_yields_no_segment() {
    let mut p = themed_powerline();
    segment_virtualenv(&mut p, None, None, None);
    assert_eq!(p.segments.len(), 0);
}

#[test]
fn root_path_yields_no_segment() {
    let mut p = themed_powerline();
    segment_virtualenv(&mut p, Some("/"), None, None);
    assert_eq!(p.segments.len(), 0);
}

#[test]
fn empty_value_yields_no_segment() {
    let mut p = themed_powerline();
    segment_virtualenv(&mut p, Some(""), None, None);
    assert_eq!(p.segments.len(), 0);
}

#[test]
fn first_set_variable_wins() {
    let mut p = themed_powerline();
    segment_virtualenv(&mut p, Some("/a/venvA"), None, Some("envB"));
    assert_eq!(p.segments.len(), 1);
    assert_eq!(p.segments[0].text, "venvA");
}

#[test]
fn alternate_variables_are_consulted_in_order() {
    let mut p = themed_powerline();
    segment_virtualenv(&mut p, None, Some("/m/condaX"), Some("envB"));
    assert_eq!(p.segments[0].text, "condaX");

    let mut q = themed_powerline();
    segment_virtualenv(&mut q, None, None, Some("envB"));
    assert_eq!(q.segments[0].text, "envB");
}

#[test]
fn an_empty_first_variable_still_wins() {
    // the first variable being set, even to a value with no final component,
    // keeps the later ones from being consulted
    let mut p = themed_powerline();
    segment_virtualenv(&mut p, Some("/"), None, Some("envB"));
    assert_eq!(p.segments.len(), 0);
}

#[test]
fn detector_runs_are_byte_identical() {
    let mut p = themed_powerline();
    let mut q = themed_powerline();
    segment_virtualenv(&mut p, Some("/a/venvA"), Some("/b/envB"), None);
    segment_virtualenv(&mut q, Some("/a/venvA"), Some("/b/envB"), None);
    assert_eq!(p.segments, q.segments);
}

#[test]
fn detector_appends_after_existing_segments() {
    let mut p = themed_powerline();
    p.add_segment(Segment::new((1, 1, 1), (2, 2, 2), "first".to_string()));
    segment_virtualenv(&mut p, Some("/x/venv"), None, None);
    assert_eq!(p.segments.len(), 2);
    assert_eq!(p.segments[0].text, "first");
    assert_eq!(p.segments[1].text, "venv");
}

#[test]
fn segments_keep_insertion_order() {
    let mut p = Powerline::new(Theme::default());
    p.add_segment(Segment::new((1, 0, 0), (0, 0, 0), "a".to_string()));
    p.add_segment(Segment::new((2, 0, 0), (0, 0, 0), "b".to_string()));
    p.add_segment(Segment::new((3, 0, 0), (0, 0, 0), "c".to_string()));
    let texts: Vec<&str> = p.segments.iter().map(|s| s.text.as_str()).collect();
    assert_eq!(texts, vec!["a", "b", "c"]);
}

#[test]
fn final_component_of_ordinary_paths() {
    assert_eq!(final_path_component("/home/u/.venvs/myproj").unwrap(), "myproj");
    assert_eq!(final_path_component("plain").unwrap(), "plain");
    assert_eq!(final_path_component("a/b/").unwrap(), "b");
    assert_eq!(final_path_component("a//").unwrap(), "a");
    assert_eq!(final_path_component("a/.").unwrap(), "a");
    assert_eq!(final_path_component("./a").unwrap(), "a");
    assert_eq!(final_path_component(".hidden").unwrap(), ".hidden");
}

#[test]
fn final_component_absent_cases() {
    assert_eq!(final_path_component(""), None);
    assert_eq!(final_path_component("/"), None);
    assert_eq!(final_path_component("//"), None);
    assert_eq!(final_path_component("."), None);
    assert_eq!(final_path_component("./"), None);
    assert_eq!(final_path_component(".."), None);
    assert_eq!(final_path_component("a/.."), None);
}
