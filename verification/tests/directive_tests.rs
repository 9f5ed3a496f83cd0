use worktrunk::directive::{emit_change_directory, format_cd_directive};

const MARKER: &str = "__WORKTRUNK_CD__";

#[test]
fn directive_line_is_marker_then_path() {
    let line = format_cd_directive("/work/trees/my-feature");
    assert_eq!(line, "__WORKTRUNK_CD__/work/trees/my-feature");
}

#[test]
fn internal_mode_emits_the_directive_exactly_once() {
    let r = emit_change_directory(true, "/work/trees/my-feature");
    assert!(r.ok);
    let directive_lines = r.lines.iter().filter(|l| l.starts_with(MARKER)).count();
    assert_eq!(directive_lines, 1);
    assert_eq!(r.lines, vec!["__WORKTRUNK_CD__/work/trees/my-feature".to_string()]);
}

#[test]
fn non_internal_mode_emits_no_directive() {
    let r = emit_change_directory(false, "/work/trees/my-feature");
    assert!(!r.ok);
    assert!(!r.lines.is_empty());
    let directive_lines = r.lines.iter().filter(|l| l.starts_with(MARKER)).count();
    assert_eq!(directive_lines, 0);
    // The instruction still names the destination.
    assert!(r.lines.iter().any(|l| l.contains("/work/trees/my-feature")));
}
