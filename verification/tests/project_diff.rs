use deepseek_mobile::project_diff::{build_text_diff_preview, diff_line_color, ProjectDiffLineKind, ProjectDiffPreview};

#[test]
fn builds_small_text_diff_preview() {
    let diff = build_text_diff_preview("src/main.rs", "a\nb\nc\n", "a\nB\nc\n");
    assert_eq!(diff.added_lines, 1);
    assert_eq!(diff.removed_lines, 1);
    assert!(diff.lines.iter().any(|line| line.kind == ProjectDiffLineKind::Added));
    assert!(diff.lines.iter().any(|line| line.kind == ProjectDiffLineKind::Removed));
}

#[test]
fn unchanged_text_returns_empty_diff() {
    let diff = build_text_diff_preview("README.md", "same", "same");
    assert!(diff.is_empty());
}

#[test]
fn empty_preview_is_empty() {
    let diff = ProjectDiffPreview::empty("x.rs");
    assert!(diff.is_empty());
    assert_eq!(diff.path, "x.rs");
}

#[test]
fn diff_lines_carry_hunk_context_and_changes() {
    let diff = build_text_diff_preview("src/main.rs", "a\nb\nc\n", "a\nB\nc\n");
    let texts: Vec<&str> = diff.lines.iter().map(|line| line.text.as_str()).collect();
    assert_eq!(texts, vec!["@@ -2,1 +2,1 @@", " a", "-b", "+B", " c"]);
    assert_eq!(diff.lines[0].kind, ProjectDiffLineKind::Hunk);
    assert_eq!(diff_line_color(&ProjectDiffLineKind::Added), "#86efac");
    assert_eq!(diff_line_color(&ProjectDiffLineKind::Hunk), "#93c5fd");
}

#[test]
fn appended_lines_are_all_added() {
    let diff = build_text_diff_preview("notes.txt", "", "x\ny\n");
    assert_eq!(diff.added_lines, 2);
    assert_eq!(diff.removed_lines, 0);
    let texts: Vec<&str> = diff.lines.iter().map(|line| line.text.as_str()).collect();
    assert_eq!(texts, vec!["@@ -1,0 +1,2 @@", "+x", "+y"]);
}
