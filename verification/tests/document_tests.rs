use minimizer::document::RustSourceFile;

fn doc(lines: &[&str]) -> RustSourceFile {
    RustSourceFile::from_lines(lines.iter().map(|l| l.to_string()).collect())
}

#[test]
fn round_trip_fresh_render() {
    let d = doc(&["alpha", "beta", "gamma"]);
    assert_eq!(d.to_string(), "alpha\nbeta\ngamma\n");
    assert_eq!(d.removed_lines(), 0);
}

#[test]
fn empty_document_renders_empty() {
    let d = doc(&[]);
    assert_eq!(d.to_string(), "");
    assert_eq!(d.line_count(), 0);
}

#[test]
fn remove_and_render() {
    let mut d = doc(&["a", "b", "c", "d"]);
    d.remove_line(1);
    d.remove_line(3);
    assert_eq!(d.to_string(), "a\nc\n");
    assert_eq!(d.removed_lines(), 2);
    assert_eq!(d.lines(), vec!["a".to_string(), "c".to_string()]);
}

#[test]
fn restore_is_idempotent_on_present_lines() {
    let mut d = doc(&["a", "b", "c"]);
    d.remove_line(2);
    let before = d.to_string();
    // line 0 is not removed: restoring it must change nothing
    d.restore_line(0);
    assert_eq!(d.to_string(), before);
    assert_eq!(d.removed_lines(), 1);
    assert!(!d.is_line_removed(0));
}

#[test]
fn remove_is_idempotent() {
    let mut once = doc(&["a", "b", "c"]);
    once.remove_line(1);
    let mut twice = doc(&["a", "b", "c"]);
    twice.remove_line(1);
    twice.remove_line(1);
    assert_eq!(once.to_string(), twice.to_string());
    assert_eq!(once.removed_lines(), twice.removed_lines());
}

#[test]
fn rollback_is_asymmetric() {
    let mut d = doc(&["l0", "l1", "l2", "l3", "l4"]);
    // l1 was removed by an earlier, committed attempt
    d.remove_line(1);
    let saved = d.saved_span(0, 3);
    assert_eq!(saved, vec![false, true, false]);
    d.remove_span(0, 3);
    assert_eq!(d.to_string(), "l3\nl4\n");
    // the attempt failed: roll back
    d.rollback_span(0, 3, &saved);
    // exactly the lines that were present before come back; l1 stays removed
    assert!(!d.is_line_removed(0));
    assert!(d.is_line_removed(1));
    assert!(!d.is_line_removed(2));
    assert_eq!(d.to_string(), "l0\nl2\nl3\nl4\n");
    assert_eq!(d.removed_lines(), 1);
}

#[test]
fn span_all_removed_reports_exactly() {
    let mut d = doc(&["a", "b", "c"]);
    assert!(!d.span_all_removed(0, 2));
    d.remove_line(0);
    d.remove_line(1);
    assert!(d.span_all_removed(0, 2));
    assert!(!d.span_all_removed(0, 3));
}

#[test]
fn loading_text_round_trips() {
    let d = RustSourceFile::from_text("alpha\nbeta\ngamma\n");
    assert_eq!(d.line_count(), 3);
    assert_eq!(d.to_string(), "alpha\nbeta\ngamma\n");
    // a missing final newline is the one thing rendering normalizes
    let d2 = RustSourceFile::from_text("alpha\nbeta");
    assert_eq!(d2.to_string(), "alpha\nbeta\n");
    let d3 = RustSourceFile::from_text("");
    assert_eq!(d3.line_count(), 0);
    assert_eq!(d3.to_string(), "");
    // empty lines survive the round trip
    let d4 = RustSourceFile::from_text("a\n\nb\n");
    assert_eq!(d4.line_count(), 3);
    assert_eq!(d4.to_string(), "a\n\nb\n");
}
