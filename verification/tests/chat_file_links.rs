use deepseek_mobile::chat_file_links::{extract_paths_from_text, normalize_path, parse_write_file_output};

#[test]
fn extracts_paths_from_assistant_text() {
    let paths = extract_paths_from_text("Created hello.py and pkg/calc.py for you.");
    assert!(paths.contains(&"hello.py".to_string()));
    assert!(paths.contains(&"pkg/calc.py".to_string()));
}

#[test]
fn strips_workspace_prefix() {
    assert_eq!(
        normalize_path(
            "/data/user/0/com.deepseek.mobile/files/deepseek-mobile/workspace/src/a.rs"
        ),
        "src/a.rs"
    );
}

#[test]
fn extracted_paths_are_sorted_and_unique() {
    let paths = extract_paths_from_text("see `b.rs`, a.md and (b.rs) again; https://x.io/c.rs");
    assert_eq!(paths, vec!["a.md".to_string(), "b.rs".to_string()]);
}

#[test]
fn normalize_turns_backslashes_and_drops_dot_slash() {
    assert_eq!(normalize_path(".\\./src\\main.rs"), "src/main.rs");
    assert_eq!(normalize_path("/"), "/");
}

#[test]
fn write_file_output_names_its_path() {
    assert_eq!(
        parse_write_file_output("Wrote 12 bytes to src/demo.rs"),
        Some("src/demo.rs".to_string())
    );
    assert_eq!(parse_write_file_output("Wrote to two words"), None);
    assert_eq!(parse_write_file_output("nothing here"), None);
}
