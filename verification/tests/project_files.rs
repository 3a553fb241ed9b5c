use deepseek_mobile::project_files::{
    build_file_preview, check_preview_size, choose_default_preview_file, is_ignored_name, is_previewable_text_path,
    normalize_relative_path, read_pc_gateway_file, scan_pc_gateway_tree, scan_project_tree, FsNode, FsNodeKind,
    GatewayDirEntry, ProjectEntryKind, DEFAULT_MAX_FILE_CHARS,
};

fn file(name: &str, size: u64) -> FsNode {
    FsNode { name: name.to_string(), kind: FsNodeKind::File(size) }
}

fn dir(name: &str, children: Vec<FsNode>) -> FsNode {
    FsNode { name: name.to_string(), kind: FsNodeKind::Directory(children) }
}

#[test]
fn scans_project_tree_and_reads_file_preview() {
    let tree = vec![dir("src", vec![file("main.rs", 31)])];
    let snapshot = scan_project_tree("/tmp/project", Some(tree), 50);
    assert_eq!(snapshot.file_count(), 1);
    assert_eq!(choose_default_preview_file(&snapshot).as_deref(), Some("src/main.rs"));
    let preview = build_file_preview("src/main.rs", "fn main() { println!(\"hi\"); }\n", 31).expect("preview");
    assert_eq!(preview.path, "src/main.rs");
    assert!(preview.content.contains("fn main"));
}

#[test]
fn rejects_path_traversal_preview() {
    let result = build_file_preview("../secret.txt", "x", 1);
    assert!(result.is_err());
    assert_eq!(normalize_relative_path("../secret.txt"), Err("unsafe project path: ../secret.txt".to_string()));
    assert_eq!(normalize_relative_path("/etc/passwd"), Err("unsafe project path: /etc/passwd".to_string()));
}

#[test]
fn scan_sorts_by_name_skips_ignored_and_stops_at_the_limit() {
    let tree = vec![
        file("b.txt", 1),
        dir("target", vec![file("x.o", 9)]),
        dir("a", vec![file("z.rs", 2), file("y.rs", 3)]),
        FsNode { name: "link".to_string(), kind: FsNodeKind::Other },
    ];
    let snapshot = scan_project_tree("root", Some(tree), 250);
    let paths: Vec<&str> = snapshot.entries.iter().map(|e| e.path.as_str()).collect();
    assert_eq!(paths, vec!["a", "a/y.rs", "a/z.rs", "b.txt"]);
    assert_eq!(snapshot.entries[0].kind, ProjectEntryKind::Directory);
    assert_eq!(snapshot.entries[1].depth, 1);
    assert_eq!(snapshot.entries[3].size_bytes, Some(1));
    assert_eq!(snapshot.directory_count(), 1);
    assert!(!snapshot.truncated);
    let small = scan_project_tree("root", Some(vec![file("b", 1), file("a", 1), file("c", 1)]), 2);
    let paths: Vec<&str> = small.entries.iter().map(|e| e.path.as_str()).collect();
    assert_eq!(paths, vec!["a", "b"]);
    assert!(small.truncated);
    let missing = scan_project_tree("nowhere", None, 10);
    assert!(missing.entries.is_empty());
    assert_eq!(missing.root, "nowhere");
}

#[test]
fn previews_count_lines_and_cut_long_text() {
    let preview = build_file_preview("./docs//guide.md", "a\nb\r\nc", 7).expect("preview");
    assert_eq!(preview.path, "docs/guide.md");
    assert_eq!(preview.display_name, "guide.md");
    assert_eq!(preview.line_count, 3);
    assert!(!preview.truncated);
    let long = "x".repeat(DEFAULT_MAX_FILE_CHARS + 1);
    let cut = build_file_preview("big.txt", &long, 1).expect("preview");
    assert!(cut.truncated);
    assert!(cut.content.ends_with("\n...[project file preview truncated]..."));
    assert_eq!(
        check_preview_size(10, 5),
        Err("file too large for mobile preview: 10 > 5 bytes".to_string())
    );
    assert_eq!(check_preview_size(5, 5), Ok(()));
}

#[test]
fn previewable_paths_and_ignored_names() {
    assert!(is_previewable_text_path("SRC/MAIN.RS"));
    assert!(is_previewable_text_path("notes.yml"));
    assert!(!is_previewable_text_path("image.png"));
    assert!(is_ignored_name("node_modules"));
    assert!(!is_ignored_name("src"));
}

fn gw(path: &str, is_dir: bool, entries: Option<Vec<GatewayDirEntry>>) -> GatewayDirEntry {
    GatewayDirEntry { path: path.to_string(), is_dir, entries }
}

#[test]
fn gateway_tree_lists_children_before_their_directory() {
    let listing = vec![
        gw("src", true, Some(vec![gw("src/lib.rs", false, None), gw("src/target", true, None)])),
        gw("node_modules", true, Some(vec![gw("node_modules/x", false, None)])),
        gw("README.md", false, None),
    ];
    let tree = scan_pc_gateway_tree("w1", &listing, 250);
    let paths: Vec<&str> = tree.entries.iter().map(|e| e.path.as_str()).collect();
    assert_eq!(paths, vec!["src/lib.rs", "src", "README.md"]);
    assert_eq!(tree.entries[0].depth, 1);
    assert_eq!(tree.entries[0].name, "lib.rs");
    assert_eq!(tree.entries[1].kind, ProjectEntryKind::Directory);
    assert_eq!(tree.root, "w1");
    let small = scan_pc_gateway_tree("w1", &listing, 1);
    let paths: Vec<&str> = small.entries.iter().map(|e| e.path.as_str()).collect();
    assert_eq!(paths, vec!["src/lib.rs", "src"]);
    assert!(small.truncated);
}

#[test]
fn gateway_file_preview_checks_size_then_path() {
    assert_eq!(
        read_pc_gateway_file("a.txt", "héllo", 5).unwrap_err(),
        "file too large for mobile preview: 6 > 5 bytes"
    );
    let preview = read_pc_gateway_file("docs/a.txt", "héllo", 6).expect("preview");
    assert_eq!(preview.size_bytes, 6);
    assert_eq!(preview.display_name, "a.txt");
    assert!(read_pc_gateway_file("../a.txt", "x", 6).is_err());
}
