//! The project tree and file previews shown in the Files panel; reading the
//! disk is the host's part, these are the rules it follows.
use crate::text::{
    chars_of, decimal, ends_with, lines, owned, push_decimal, slice_range, split_at_class, split_lines,
    split_on, split_pred, str_eq, string_from_chars, SplitClass, pieces_view,
};
use vstd::prelude::*;

verus! {

broadcast use vstd::string::group_string_axioms;

/// How many tree entries a scan lists by default.
pub const DEFAULT_MAX_TREE_ENTRIES: usize = 250;

/// The largest file that is previewed, in bytes.
pub const DEFAULT_MAX_FILE_BYTES: u64 = 262144;

/// How many characters of a file a preview shows.
pub const DEFAULT_MAX_FILE_CHARS: usize = 80000;

/// A directory or a file.
#[derive(Clone, Copy, Debug, PartialEq, Eq, Structural)]
pub enum ProjectEntryKind {
    Directory,
    File,
}

/// One entry of the project tree.
#[derive(Clone, Debug, PartialEq, Eq)]
pub struct ProjectTreeEntry {
    pub path: String,
    pub name: String,
    pub kind: ProjectEntryKind,
    pub depth: usize,
    pub size_bytes: Option<u64>,
}

/// A scan of the project tree.
#[derive(Clone, Debug, PartialEq, Eq)]
pub struct ProjectTreeSnapshot {
    pub root: String,
    pub entries: Vec<ProjectTreeEntry>,
    pub truncated: bool,
}

/// The preview of one file.
#[derive(Clone, Debug, PartialEq, Eq)]
pub struct ProjectFilePreview {
    pub path: String,
    pub display_name: String,
    pub content: String,
    pub size_bytes: u64,
    pub line_count: usize,
    pub truncated: bool,
}

/// The number of entries of a kind.
pub open spec fn count_kind(entries: Seq<ProjectTreeEntry>, kind: ProjectEntryKind) -> nat {
    entries.filter(|e: ProjectTreeEntry| e.kind == kind).len()
}

fn count_entries(entries: &Vec<ProjectTreeEntry>, kind: ProjectEntryKind) -> (r: usize)
    ensures
        r as nat == count_kind(entries@, kind),
{
    let ghost f = |e: ProjectTreeEntry| e.kind == kind;
    let mut n: usize = 0;
    let mut i: usize = 0;
    assert(entries@.take(0).filter(f) =~= Seq::<ProjectTreeEntry>::empty());
    while i < entries.len()
        invariant
            i <= entries.len(),
            f == (|e: ProjectTreeEntry| e.kind == kind),
            n as nat == entries@.take(i as int).filter(f).len(),
            n <= i,
        decreases entries.len() - i,
    {
        reveal_with_fuel(Seq::filter, 1);
        assert(entries@.take(i + 1).drop_last() == entries@.take(i as int));
        assert(entries@.take(i + 1).last() == entries@[i as int]);
        if entries[i].kind == kind {
            n = n + 1;
        }
        i = i + 1;
    }
    assert(entries@.take(entries.len() as int) == entries@);
    n
}

impl ProjectTreeSnapshot {
    /// The number of files listed.
    pub fn file_count(&self) -> (r: usize)
        ensures
            r as nat == count_kind(self.entries@, ProjectEntryKind::File),
    {
        count_entries(&self.entries, ProjectEntryKind::File)
    }

    /// The number of directories listed.
    pub fn directory_count(&self) -> (r: usize)
        ensures
            r as nat == count_kind(self.entries@, ProjectEntryKind::Directory),
    {
        count_entries(&self.entries, ProjectEntryKind::Directory)
    }
}

/// A character with ASCII upper case turned to lower case (`char::to_ascii_lowercase`).
pub open spec fn ascii_lower(c: char) -> char {
    if 'A' <= c <= 'Z' {
        ((c as u32) + 32) as char
    } else {
        c
    }
}

/// A character with ASCII upper case turned to lower case.
fn to_ascii_lowercase(c: char) -> (r: char)
    ensures
        r == ascii_lower(c),
{
    if 'A' <= c && c <= 'Z' {
        let b: u8 = (c as u32 + 32) as u8;
        let r = b as char;
        assert(r == ((c as u32) + 32) as char);
        r
    } else {
        c
    }
}

/// The extensions of text files that the Files panel previews.
pub open spec fn previewable_extensions() -> Seq<Seq<char>> {
    seq![
        ".rs"@, ".py"@, ".js"@, ".ts"@, ".tsx"@, ".jsx"@, ".json"@, ".md"@, ".toml"@, ".yaml"@,
        ".yml"@, ".txt"@, ".html"@, ".css"@, ".xml"@, ".sh"@,
    ]
}

/// A path whose ASCII-lower-cased form ends with a previewable extension.
pub open spec fn is_previewable(path: Seq<char>) -> bool {
    exists|i: int|
        0 <= i < previewable_extensions().len() && ends_with(
            path.map_values(|c: char| ascii_lower(c)),
            #[trigger] previewable_extensions()[i],
        )
}

/// Whether a file is shown as a text preview, by its extension in any ASCII case.
pub fn is_previewable_text_path(path: &str) -> (r: bool)
    ensures
        r == is_previewable(path@),
{
    let chars = chars_of(path);
    let mut lower: Vec<char> = Vec::new();
    let mut i: usize = 0;
    while i < chars.len()
        invariant
            i <= chars.len(),
            lower@ == chars@.take(i as int).map_values(|c: char| ascii_lower(c)),
        decreases chars.len() - i,
    {
        lower.push(to_ascii_lowercase(chars[i]));
        i = i + 1;
        assert(lower@ =~= chars@.take(i as int).map_values(|c: char| ascii_lower(c)));
    }
    assert(chars@.take(chars.len() as int) == chars@);
    let exts = vec![
        ".rs", ".py", ".js", ".ts", ".tsx", ".jsx", ".json", ".md", ".toml", ".yaml", ".yml",
        ".txt", ".html", ".css", ".xml", ".sh",
    ];
    assert(exts@.map_values(|e: &str| e@) =~= previewable_extensions());
    let mut k: usize = 0;
    while k < exts.len()
        invariant
            k <= exts.len(),
            exts@.map_values(|e: &str| e@) == previewable_extensions(),
            lower@ == path@.map_values(|c: char| ascii_lower(c)),
            forall|j: int|
                0 <= j < k ==> !ends_with(lower@, #[trigger] previewable_extensions()[j]),
        decreases exts.len() - k,
    {
        let e = chars_of(exts[k]);
        assert(e@ == previewable_extensions()[k as int]);
        if crate::text::ends_with_chars(&lower, &e) {
            return true;
        }
        k = k + 1;
    }
    false
}

/// The path of the first listed file that can be previewed.
pub open spec fn default_preview_path(entries: Seq<ProjectTreeEntry>) -> Option<Seq<char>>
    decreases entries.len(),
{
    if entries.len() == 0 {
        None
    } else if entries[0].kind == ProjectEntryKind::File && is_previewable(entries[0].path@) {
        Some(entries[0].path@)
    } else {
        default_preview_path(entries.drop_first())
    }
}

/// The file that the Files panel opens first.
pub fn choose_default_preview_file(snapshot: &ProjectTreeSnapshot) -> (r: Option<String>)
    ensures
        crate::agent_timeline::opt_view(r) == default_preview_path(snapshot.entries@),
{
    let mut i: usize = 0;
    assert(snapshot.entries@.skip(0) == snapshot.entries@);
    while i < snapshot.entries.len()
        invariant
            i <= snapshot.entries.len(),
            default_preview_path(snapshot.entries@) == default_preview_path(snapshot.entries@.skip(i as int)),
        decreases snapshot.entries.len() - i,
    {
        assert(snapshot.entries@.skip(i as int)[0] == snapshot.entries@[i as int]);
        assert(snapshot.entries@.skip(i as int).drop_first() == snapshot.entries@.skip(i + 1));
        if snapshot.entries[i].kind == ProjectEntryKind::File && is_previewable_text_path(snapshot.entries[i].path.as_str()) {
            assert(default_preview_path(snapshot.entries@.skip(i as int)) == Some(snapshot.entries@[i as int].path@));
            return Some(snapshot.entries[i].path.clone());
        }
        i = i + 1;
    }
    None
}

/// Names that the project tree never lists.
pub open spec fn ignored_names() -> Seq<Seq<char>> {
    seq![".git"@, "target"@, "node_modules"@, ".gradle"@, "build"@, "dist"@, ".idea"@]
}

/// Whether a directory entry name is skipped by scans.
pub fn is_ignored_name(name: &str) -> (r: bool)
    ensures
        r == ignored_names().contains(name@),
{
    let names = vec![".git", "target", "node_modules", ".gradle", "build", "dist", ".idea"];
    assert(names@.map_values(|e: &str| e@) =~= ignored_names());
    let mut k: usize = 0;
    while k < names.len()
        invariant
            k <= names.len(),
            names@.map_values(|e: &str| e@) == ignored_names(),
            forall|j: int| 0 <= j < k ==> ignored_names()[j] != name@,
        decreases names.len() - k,
    {
        if str_eq(name, names[k]) {
            assert(ignored_names()[k as int] == name@);
            return true;
        }
        k = k + 1;
    }
    false
}

/// The components of a relative path that name something: not empty and not `.`.
pub open spec fn path_parts(path: Seq<char>) -> Seq<Seq<char>> {
    split_on(path, split_pred(SplitClass::Slash)).filter(|p: Seq<char>| p.len() > 0 && p != "."@)
}

/// Parts joined by `/`.
pub open spec fn join_parts(parts: Seq<Seq<char>>) -> Seq<char>
    decreases parts.len(),
{
    if parts.len() == 0 {
        Seq::empty()
    } else if parts.len() == 1 {
        parts[0]
    } else {
        join_parts(parts.drop_last()) + "/"@ + parts.last()
    }
}

/// A relative path inside the project with `/` separators, or none when it
/// is absolute or climbs out with `..`.
pub open spec fn normalized_relative(path: Seq<char>) -> Option<Seq<char>> {
    if (path.len() > 0 && path[0] == '/') || path_parts(path).contains(".."@) {
        None
    } else {
        Some(crate::chat_file_links::forward_slashes(join_parts(path_parts(path))))
    }
}

/// The safe, `/`-separated form of a path relative to the project root.
pub fn normalize_relative_path(path: &str) -> (r: Result<String, String>)
    ensures
        match r {
            Ok(p) => normalized_relative(path@) == Some(p@),
            Err(message) => normalized_relative(path@) is None && message@ == "unsafe project path: "@
                + path@,
        },
{
    let chars = chars_of(path);
    if chars.len() > 0 && chars[0] == '/' {
        return Err(crate::text::concat("unsafe project path: ", path));
    }
    let pieces = split_at_class(&chars, SplitClass::Slash);
    let ghost pv = pieces_view(pieces@);
    let ghost f = |p: Seq<char>| p.len() > 0 && p != "."@;
    let dot = chars_of(".");
    let up = chars_of("..");
    let mut out: Vec<char> = Vec::new();
    let mut count: usize = 0;
    let mut i: usize = 0;
    assert(pv.take(0).filter(f) =~= Seq::<Seq<char>>::empty());
    while i < pieces.len()
        invariant
            i <= pieces.len(),
            pv == pieces_view(pieces@),
            pv == split_on(chars@, split_pred(SplitClass::Slash)),
            chars@ == path@,
            f == (|p: Seq<char>| p.len() > 0 && p != "."@),
            dot@ == "."@,
            up@ == ".."@,
            count == pv.take(i as int).filter(f).len(),
            out@ == crate::chat_file_links::forward_slashes(join_parts(pv.take(i as int).filter(f))),
            !pv.take(i as int).filter(f).contains(".."@),
        decreases pieces.len() - i,
    {
        reveal_with_fuel(Seq::filter, 1);
        assert(pv.take(i + 1).drop_last() == pv.take(i as int));
        assert(pv.take(i + 1).last() == pieces@[i as int]@);
        let piece = &pieces[i];
        if piece.len() > 0 && !crate::text::chars_eq(piece.as_slice(), &dot) {
            if crate::text::chars_eq(piece.as_slice(), &up) {
                assert(pv.take(i + 1).filter(f).contains(".."@)) by {
                    assert(pv.take(i + 1).filter(f).last() == ".."@);
                }
                proof {
                    lemma_filter_prefix_contains(pv, f, i + 1, ".."@);
                    assert(path_parts(path@) == pv.filter(f));
                }
                return Err(crate::text::concat("unsafe project path: ", path));
            }
            let ghost before = out@;
            let ghost parts = pv.take(i as int).filter(f);
            if count > 0 {
                out.push('/');
            }
            let mut k: usize = 0;
            let ghost mid = out@;
            while k < piece.len()
                invariant
                    k <= piece.len(),
                    out@ == mid + piece@.take(k as int).map_values(
                        |c: char| if c == '\\' { '/' } else { c },
                    ),
                decreases piece.len() - k,
            {
                let c = piece[k];
                out.push(if c == '\\' { '/' } else { c });
                k = k + 1;
                assert(out@ =~= mid + piece@.take(k as int).map_values(
                    |c: char| if c == '\\' { '/' } else { c },
                ));
            }
            assert(piece@.take(piece.len() as int) == piece@);
            let ghost np = pv.take(i + 1).filter(f);
            assert(np == parts.push(piece@));
            assert(out@ =~= crate::chat_file_links::forward_slashes(join_parts(np))) by {
                if parts.len() == 0 {
                    assert(join_parts(np) == piece@);
                } else {
                    assert(np.drop_last() == parts);
                    reveal_strlit("/");
                }
            }
            count = count + 1;
        }
        i = i + 1;
    }
    assert(pv.take(pieces.len() as int) == pv);
    Ok(string_from_chars(&out))
}

/// The note appended to a preview cut at `DEFAULT_MAX_FILE_CHARS`.
pub const PREVIEW_TRUNCATION_NOTE: &'static str = "\n...[project file preview truncated]...";

/// The name of the file a relative path names: its last component, or
/// nothing when it has none.
pub open spec fn file_name_of(path: Seq<char>) -> Seq<char> {
    let p = path_parts(path);
    if p.len() > 0 {
        p.last()
    } else {
        Seq::empty()
    }
}

/// The text a preview shows: at most `DEFAULT_MAX_FILE_CHARS` characters,
/// with a note when it was cut.
pub open spec fn preview_content(text: Seq<char>) -> Seq<char> {
    if text.len() > DEFAULT_MAX_FILE_CHARS {
        text.take(DEFAULT_MAX_FILE_CHARS as int) + PREVIEW_TRUNCATION_NOTE@
    } else {
        text
    }
}

fn file_name(path: &str) -> (r: String)
    ensures
        r@ == file_name_of(path@),
{
    let chars = chars_of(path);
    let pieces = split_at_class(&chars, SplitClass::Slash);
    let ghost pv = pieces_view(pieces@);
    let ghost f = |p: Seq<char>| p.len() > 0 && p != "."@;
    let dot = chars_of(".");
    let mut last: Option<usize> = None;
    let mut i: usize = 0;
    assert(pv.take(0).filter(f) =~= Seq::<Seq<char>>::empty());
    while i < pieces.len()
        invariant
            i <= pieces.len(),
            pv == pieces_view(pieces@),
            pv == split_on(path@, split_pred(SplitClass::Slash)),
            f == (|p: Seq<char>| p.len() > 0 && p != "."@),
            dot@ == "."@,
            match last {
                Some(k) => k < i && pv.take(i as int).filter(f).len() > 0 && pv.take(i as int).filter(f).last()
                    == pieces@[k as int]@,
                None => pv.take(i as int).filter(f).len() == 0,
            },
        decreases pieces.len() - i,
    {
        reveal_with_fuel(Seq::filter, 1);
        assert(pv.take(i + 1).drop_last() == pv.take(i as int));
        assert(pv.take(i + 1).last() == pieces@[i as int]@);
        if pieces[i].len() > 0 && !crate::text::chars_eq(pieces[i].as_slice(), &dot) {
            last = Some(i);
        }
        i = i + 1;
    }
    assert(pv.take(pieces.len() as int) == pv);
    match last {
        Some(k) => string_from_chars(&pieces[k]),
        None => String::new(),
    }
}

/// The preview of a file at `relative_path` with this text and size: the
/// normalised path, the file's name, the text cut at
/// `DEFAULT_MAX_FILE_CHARS`, and its line count; an error for a path that
/// leaves the project.
pub fn build_file_preview(relative_path: &str, text: &str, size_bytes: u64) -> (r: Result<ProjectFilePreview, String>)
    ensures
        match r {
            Ok(p) => normalized_relative(relative_path@) == Some(p.path@) && p.display_name@ == file_name_of(
                relative_path@,
            ) && p.content@ == preview_content(text@) && p.size_bytes == size_bytes && p.line_count
                == lines(text@).len() && p.truncated == (text@.len() > DEFAULT_MAX_FILE_CHARS),
            Err(m) => normalized_relative(relative_path@) is None && m@ == "unsafe project path: "@ + relative_path@,
        },
{
    let path = match normalize_relative_path(relative_path) {
        Ok(p) => p,
        Err(m) => return Err(m),
    };
    let chars = chars_of(text);
    let ls = split_lines(&chars);
    assert(pieces_view(ls@).len() == ls@.len());
    let truncated = chars.len() > DEFAULT_MAX_FILE_CHARS;
    let content = if truncated {
        let head = slice_range(&chars, 0, DEFAULT_MAX_FILE_CHARS);
        let mut out = string_from_chars(&head);
        out.append(PREVIEW_TRUNCATION_NOTE);
        out
    } else {
        owned(text)
    };
    Ok(
        ProjectFilePreview {
            path,
            display_name: file_name(relative_path),
            content,
            size_bytes,
            line_count: ls.len(),
            truncated,
        },
    )
}

/// A preview shows the whole text when it is short enough, and otherwise
/// its first `DEFAULT_MAX_FILE_CHARS` characters and the note.
pub proof fn lemma_preview_content_bounded(text: Seq<char>)
    ensures
        preview_content(text).len() <= DEFAULT_MAX_FILE_CHARS + PREVIEW_TRUNCATION_NOTE@.len(),
        text.len() <= DEFAULT_MAX_FILE_CHARS ==> preview_content(text) == text,
        text.len() > DEFAULT_MAX_FILE_CHARS ==> preview_content(text).take(DEFAULT_MAX_FILE_CHARS as int)
            == text.take(DEFAULT_MAX_FILE_CHARS as int),
{
    if text.len() > DEFAULT_MAX_FILE_CHARS {
        let t = text.take(DEFAULT_MAX_FILE_CHARS as int) + PREVIEW_TRUNCATION_NOTE@;
        assert(t.take(DEFAULT_MAX_FILE_CHARS as int) =~= text.take(DEFAULT_MAX_FILE_CHARS as int));
    }
}

/// A path that climbs out of the project with `..`, or starts at the root,
/// is never previewed.
pub proof fn lemma_unsafe_paths_refused(path: Seq<char>)
    ensures
        path_parts(path).contains(".."@) ==> normalized_relative(path) is None,
        (path.len() > 0 && path[0] == '/') ==> normalized_relative(path) is None,
{
}

/// The error for a file too large to preview.
pub open spec fn too_large_message(size_bytes: u64, max_bytes: u64) -> Seq<char> {
    "file too large for mobile preview: "@ + decimal(size_bytes as nat) + " > "@ + decimal(max_bytes as nat)
        + " bytes"@
}

/// Whether a file of `size_bytes` may be previewed under `max_bytes`; the
/// error says why not.
pub fn check_preview_size(size_bytes: u64, max_bytes: u64) -> (r: Result<(), String>)
    ensures
        size_bytes <= max_bytes ==> r is Ok,
        size_bytes > max_bytes ==> (r matches Err(m) && m@ == too_large_message(size_bytes, max_bytes)),
{
    if size_bytes > max_bytes {
        let mut m = owned("file too large for mobile preview: ");
        push_decimal(&mut m, size_bytes as u128);
        m.append(" > ");
        push_decimal(&mut m, max_bytes as u128);
        m.append(" bytes");
        Err(m)
    } else {
        Ok(())
    }
}

// ---------------------------------------------------------------------------
// Scanning the project tree
// ---------------------------------------------------------------------------
/// What the file system holds under a directory entry.
#[derive(Debug, PartialEq, Eq)]
pub enum FsNodeKind {
    /// A directory and its entries, in the order the file system lists them.
    Directory(Vec<FsNode>),
    /// A file of this many bytes.
    File(u64),
    /// Something else, or an entry whose metadata could not be read.
    Other,
}

/// One directory entry.
#[derive(Debug, PartialEq, Eq)]
pub struct FsNode {
    pub name: String,
    pub kind: FsNodeKind,
}

/// A tree entry as values.
pub struct TreeEntryView {
    pub path: Seq<char>,
    pub name: Seq<char>,
    pub kind: ProjectEntryKind,
    pub depth: nat,
    pub size_bytes: Option<u64>,
}

/// The entries as values.
pub open spec fn tree_entries_view(v: Seq<ProjectTreeEntry>) -> Seq<TreeEntryView> {
    v.map_values(
        |e: ProjectTreeEntry|
            TreeEntryView {
                path: e.path@,
                name: e.name@,
                kind: e.kind,
                depth: e.depth as nat,
                size_bytes: e.size_bytes,
            },
    )
}

/// The path of an entry named `name` inside the directory at `prefix`
/// (the root when `prefix` is empty), with `/` separators.
pub open spec fn child_path(prefix: Seq<char>, name: Seq<char>) -> Seq<char> {
    if prefix.len() == 0 {
        crate::chat_file_links::forward_slashes(name)
    } else {
        prefix + "/"@ + crate::chat_file_links::forward_slashes(name)
    }
}

/// The index of the first entry whose name no other entry's name sorts before.
pub open spec fn min_index(s: Seq<FsNode>) -> int
    decreases s.len(),
{
    if s.len() <= 1 {
        0
    } else {
        let k = min_index(s.drop_last());
        if crate::chat_file_links::text_lt(s.last().name@, s[k].name@) {
            s.len() - 1
        } else {
            k
        }
    }
}

/// `min_index` picks an entry of a non-empty list.
pub proof fn lemma_min_index(s: Seq<FsNode>)
    requires
        s.len() > 0,
    ensures
        0 <= min_index(s) < s.len(),
    decreases s.len(),
{
    if s.len() > 1 {
        lemma_min_index(s.drop_last());
    }
}

/// The scan of a directory's entries into `st` (the entries so far and
/// whether the scan was cut short): a full list stops the scan at once.
pub open spec fn scan_dir_spec(
    prefix: Seq<char>,
    children: Seq<FsNode>,
    depth: nat,
    max: nat,
    st: (Seq<TreeEntryView>, bool),
) -> (Seq<TreeEntryView>, bool)
    decreases children, 1nat,
{
    if st.0.len() >= max {
        (st.0, true)
    } else {
        scan_rest_spec(prefix, children, depth, max, st)
    }
}

/// The scan of the entries not yet visited, in name order: ignored names
/// are passed over; once the list is full the scan stops, cut short; a
/// directory is listed and then scanned one level deeper; a file is listed
/// with its size; anything else is passed over.
pub open spec fn scan_rest_spec(
    prefix: Seq<char>,
    rest: Seq<FsNode>,
    depth: nat,
    max: nat,
    st: (Seq<TreeEntryView>, bool),
) -> (Seq<TreeEntryView>, bool)
    decreases rest, 0nat,
{
    if rest.len() == 0 {
        st
    } else {
        let k = min_index(rest);
        let c = rest[k];
        let others = rest.remove(k);
        proof {
            lemma_min_index(rest);
            assert forall|i2: int| 0 <= i2 < others.len() implies exists|i1: int|
                0 <= i1 < rest.len() && rest[i1] == #[trigger] others[i2] by {
                if i2 < k {
                    assert(rest[i2] == others[i2]);
                } else {
                    assert(rest[i2 + 1] == others[i2]);
                }
            }
            vstd::seq::axiom_seq_len_decreases(rest, others);
        }
        if ignored_names().contains(c.name@) {
            scan_rest_spec(prefix, others, depth, max, st)
        } else if st.0.len() >= max {
            (st.0, true)
        } else {
            let p = child_path(prefix, c.name@);
            let st2 = match c.kind {
                FsNodeKind::Directory(sub) => scan_dir_spec(
                    p,
                    sub@,
                    depth + 1,
                    max,
                    (
                        st.0.push(
                            TreeEntryView {
                                path: p,
                                name: c.name@,
                                kind: ProjectEntryKind::Directory,
                                depth,
                                size_bytes: None,
                            },
                        ),
                        st.1,
                    ),
                ),
                FsNodeKind::File(size) => (
                    st.0.push(
                        TreeEntryView {
                            path: p,
                            name: c.name@,
                            kind: ProjectEntryKind::File,
                            depth,
                            size_bytes: Some(size),
                        },
                    ),
                    st.1,
                ),
                FsNodeKind::Other => st,
            };
            scan_rest_spec(prefix, others, depth, max, st2)
        }
    }
}

fn find_min_index(s: &Vec<FsNode>) -> (r: usize)
    requires
        s@.len() > 0,
    ensures
        r as int == min_index(s@),
        r < s@.len(),
{
    let mut k: usize = 0;
    let mut i: usize = 1;
    while i < s.len()
        invariant
            1 <= i <= s.len(),
            k < i,
            k as int == min_index(s@.take(i as int)),
        decreases s.len() - i,
    {
        assert(s@.take(i + 1).drop_last() == s@.take(i as int));
        assert(s@.take(i + 1).last() == s@[i as int]);
        assert(s@.take(i as int)[k as int] == s@[k as int]);
        let a = chars_of(s[i].name.as_str());
        let b = chars_of(s[k].name.as_str());
        if crate::chat_file_links::chars_lt(&a, &b) {
            k = i;
        }
        i = i + 1;
    }
    assert(s@.take(s.len() as int) == s@);
    k
}

fn child_path_of(prefix: &str, name: &str) -> (r: String)
    ensures
        r@ == child_path(prefix@, name@),
{
    let mut r = if prefix.unicode_len() == 0 {
        String::new()
    } else {
        let mut p = owned(prefix);
        p.append("/");
        p
    };
    let chars = chars_of(name);
    let mut i: usize = 0;
    let ghost start = r@;
    proof {
        reveal_strlit("");
    }
    while i < chars.len()
        invariant
            i <= chars.len(),
            chars@ == name@,
            r@ == start + crate::chat_file_links::forward_slashes(chars@.take(i as int)),
        decreases chars.len() - i,
    {
        let c = if chars[i] == '\\' { '/' } else { chars[i] };
        let mut one = String::new();
        let cs: Vec<char> = vec![c];
        crate::text::push_chars(&mut one, &cs);
        r.append(one.as_str());
        i = i + 1;
        assert(crate::chat_file_links::forward_slashes(chars@.take(i as int)) =~= crate::chat_file_links::forward_slashes(
            chars@.take(i - 1),
        ).push(c));
    }
    assert(chars@.take(chars.len() as int) == chars@);
    proof {
        if prefix@.len() == 0 {
            assert(r@ =~= child_path(prefix@, name@));
        }
    }
    r
}

fn scan_dir(
    prefix: &str,
    children: Vec<FsNode>,
    depth: usize,
    max: usize,
    entries: &mut Vec<ProjectTreeEntry>,
    truncated: &mut bool,
)
    requires
        depth <= old(entries)@.len(),
    ensures
        (tree_entries_view(final(entries)@), *final(truncated)) == scan_dir_spec(
            prefix@,
            children@,
            depth as nat,
            max as nat,
            (tree_entries_view(old(entries)@), *old(truncated)),
        ),
        final(entries)@.len() >= old(entries)@.len(),
    decreases children@, 1nat,
{
    if entries.len() >= max {
        *truncated = true;
        return;
    }
    let ghost all = children@;
    let mut rest = children;
    let ghost st0 = (tree_entries_view(entries@), *truncated);
    assert(rest@ == all);
    assert forall|j: int| 0 <= j < rest@.len() implies all.contains(#[trigger] rest@[j]) by {
        assert(all[j] == rest@[j]);
    }
    while rest.len() > 0
        invariant_except_break
            scan_rest_spec(prefix@, all, depth as nat, max as nat, st0) == scan_rest_spec(
                prefix@,
                rest@,
                depth as nat,
                max as nat,
                (tree_entries_view(entries@), *truncated),
            ),
        invariant
            depth <= entries@.len(),
            forall|j: int| 0 <= j < rest@.len() ==> all.contains(#[trigger] rest@[j]),
            entries@.len() >= old(entries)@.len(),
            all == children@,
        ensures
            (tree_entries_view(entries@), *truncated) == scan_rest_spec(prefix@, all, depth as nat, max as nat, st0),
        decreases rest@.len(),
    {
        let ghost r0 = rest@;
        let ghost st = (tree_entries_view(entries@), *truncated);
        let k = find_min_index(&rest);
        proof {
            lemma_min_index(r0);
        }
        let c = rest.remove(k);
        assert(rest@ == r0.remove(k as int));
        assert forall|j: int| 0 <= j < rest@.len() implies all.contains(#[trigger] rest@[j]) by {
            if j < k {
                assert(rest@[j] == r0[j]);
            } else {
                assert(rest@[j] == r0[j + 1]);
            }
        }
        if is_ignored_name(c.name.as_str()) {
            continue;
        }
        if entries.len() >= max {
            *truncated = true;
            break;
        }
        let path = child_path_of(prefix, c.name.as_str());
        let ghost cname = c.name@;
        let FsNode { name, kind } = c;
        match kind {
            FsNodeKind::Directory(sub) => {
                let ghost ents = entries@;
                entries.push(
                    ProjectTreeEntry {
                        path: path.clone(),
                        name,
                        kind: ProjectEntryKind::Directory,
                        depth,
                        size_bytes: None,
                    },
                );
                assert(tree_entries_view(entries@) =~= tree_entries_view(ents).push(
                    TreeEntryView {
                        path: path@,
                        name: cname,
                        kind: ProjectEntryKind::Directory,
                        depth: depth as nat,
                        size_bytes: None,
                    },
                ));
                proof {
                    assert(all.contains(r0[k as int]));
                    let i1 = choose|i1: int| 0 <= i1 < all.len() && all[i1] == r0[k as int];
                    assert(decreases_to!(all => all[i1]));
                    assert(decreases_to!(all[i1] => all[i1].kind));
                    assert(decreases_to!(all[i1].kind => (all[i1].kind)->Directory_0));
                    vstd::std_specs::vec::axiom_spec_len(&sub);
                    assert(decreases_to!(sub => sub@));
                    assert(decreases_to!(all => sub@));
                    assert(decreases_to!(children@, 1nat => sub@, 1nat));
                }
                scan_dir(path.as_str(), sub, depth + 1, max, entries, truncated);
            },
            FsNodeKind::File(size) => {
                let ghost ents = entries@;
                entries.push(
                    ProjectTreeEntry {
                        path,
                        name,
                        kind: ProjectEntryKind::File,
                        depth,
                        size_bytes: Some(size),
                    },
                );
                assert(tree_entries_view(entries@) =~= tree_entries_view(ents).push(
                    TreeEntryView {
                        path: path@,
                        name: cname,
                        kind: ProjectEntryKind::File,
                        depth: depth as nat,
                        size_bytes: Some(size),
                    },
                ));
            },
            FsNodeKind::Other => {},
        }
    }
}

/// The tree of a project: its entries in name order, directories before
/// their contents, ignored names left out, and at most `max_entries` of
/// them (`truncated` when some were left out for that). `children` are the
/// entries of the root directory, `None` when the root does not exist.
pub fn scan_project_tree(root: &str, children: Option<Vec<FsNode>>, max_entries: usize) -> (r: ProjectTreeSnapshot)
    ensures
        r.root@ == root@,
        match children {
            Some(c) => (tree_entries_view(r.entries@), r.truncated) == scan_dir_spec(
                Seq::empty(),
                c@,
                0,
                max_entries as nat,
                (Seq::empty(), false),
            ),
            None => r.entries@.len() == 0 && !r.truncated,
        },
{
    let mut entries: Vec<ProjectTreeEntry> = Vec::new();
    let mut truncated = false;
    proof {
        reveal_strlit("");
    }
    assert(""@ =~= Seq::<char>::empty());
    match children {
        Some(c) => {
            assert(tree_entries_view(entries@) =~= Seq::<TreeEntryView>::empty());
            scan_dir("", c, 0, max_entries, &mut entries, &mut truncated);
        },
        None => {},
    }
    ProjectTreeSnapshot { root: owned(root), entries, truncated }
}

/// A scan only adds entries: what was listed stays first, and a scan never
/// lists more than `max` entries when it starts with at most that many.
pub proof fn lemma_scan_dir_bounded(
    prefix: Seq<char>,
    children: Seq<FsNode>,
    depth: nat,
    max: nat,
    st: (Seq<TreeEntryView>, bool),
)
    requires
        st.0.len() <= max,
    ensures
        scan_dir_spec(prefix, children, depth, max, st).0.len() <= max,
        scan_dir_spec(prefix, children, depth, max, st).0.len() >= st.0.len(),
        scan_dir_spec(prefix, children, depth, max, st).0.take(st.0.len() as int) == st.0,
    decreases children, 1nat,
{
    if st.0.len() < max {
        lemma_scan_rest_bounded(prefix, children, depth, max, st);
    } else {
        assert(st.0.take(st.0.len() as int) == st.0);
    }
}

/// The same for the entries not yet visited.
pub proof fn lemma_scan_rest_bounded(
    prefix: Seq<char>,
    rest: Seq<FsNode>,
    depth: nat,
    max: nat,
    st: (Seq<TreeEntryView>, bool),
)
    requires
        st.0.len() <= max,
    ensures
        scan_rest_spec(prefix, rest, depth, max, st).0.len() <= max,
        scan_rest_spec(prefix, rest, depth, max, st).0.len() >= st.0.len(),
        scan_rest_spec(prefix, rest, depth, max, st).0.take(st.0.len() as int) == st.0,
    decreases rest, 0nat,
{
    if rest.len() == 0 {
        assert(st.0.take(st.0.len() as int) == st.0);
    } else {
        let k = min_index(rest);
        lemma_min_index(rest);
        let c = rest[k];
        let others = rest.remove(k);
        assert forall|i2: int| 0 <= i2 < others.len() implies exists|i1: int|
            0 <= i1 < rest.len() && rest[i1] == #[trigger] others[i2] by {
            if i2 < k {
                assert(rest[i2] == others[i2]);
            } else {
                assert(rest[i2 + 1] == others[i2]);
            }
        }
        vstd::seq::axiom_seq_len_decreases(rest, others);
        if ignored_names().contains(c.name@) {
            lemma_scan_rest_bounded(prefix, others, depth, max, st);
        } else if st.0.len() >= max {
            assert(st.0.take(st.0.len() as int) == st.0);
        } else {
            let p = child_path(prefix, c.name@);
            match c.kind {
                FsNodeKind::Directory(sub) => {
                    let e = TreeEntryView {
                        path: p,
                        name: c.name@,
                        kind: ProjectEntryKind::Directory,
                        depth,
                        size_bytes: None,
                    };
                    let st1 = (st.0.push(e), st.1);
                    assert(decreases_to!(rest => rest[k]));
                    assert(decreases_to!(rest[k] => rest[k].kind));
                    assert(decreases_to!(rest[k].kind => sub));
                    assert(decreases_to!(sub => sub@));
                    lemma_scan_dir_bounded(p, sub@, depth + 1, max, st1);
                    let st2 = scan_dir_spec(p, sub@, depth + 1, max, st1);
                    lemma_scan_rest_bounded(prefix, others, depth, max, st2);
                    let r = scan_rest_spec(prefix, others, depth, max, st2);
                    assert(r.0.take(st1.0.len() as int) == st1.0) by {
                        assert(r.0.take(st2.0.len() as int) == st2.0);
                        assert(st2.0.take(st1.0.len() as int) == st1.0);
                        assert(r.0.take(st1.0.len() as int) =~= r.0.take(st2.0.len() as int).take(st1.0.len() as int));
                    }
                    assert(r.0.take(st.0.len() as int) =~= r.0.take(st1.0.len() as int).take(st.0.len() as int));
                    assert(st1.0.take(st.0.len() as int) =~= st.0);
                },
                FsNodeKind::File(size) => {
                    let e = TreeEntryView {
                        path: p,
                        name: c.name@,
                        kind: ProjectEntryKind::File,
                        depth,
                        size_bytes: Some(size),
                    };
                    let st1 = (st.0.push(e), st.1);
                    lemma_scan_rest_bounded(prefix, others, depth, max, st1);
                    let r = scan_rest_spec(prefix, others, depth, max, st1);
                    assert(r.0.take(st.0.len() as int) =~= r.0.take(st1.0.len() as int).take(st.0.len() as int));
                    assert(st1.0.take(st.0.len() as int) =~= st.0);
                },
                FsNodeKind::Other => {
                    lemma_scan_rest_bounded(prefix, others, depth, max, st);
                },
            }
        }
    }
}

/// A name a file system can list: not empty, not `.` or `..`, and with no
/// `/` or `\` in it.
pub open spec fn plain_name(n: Seq<char>) -> bool {
    n.len() > 0 && n != "."@ && n != ".."@ && forall|i: int| 0 <= i < n.len() ==> #[trigger] n[i] != '/' && n[i] != '\\'
}

/// A directory entry whose name, and the names below it, are plain.
pub open spec fn node_plain(c: FsNode) -> bool
    decreases c,
{
    plain_name(c.name@) && match c.kind {
        FsNodeKind::Directory(sub) => {
            proof {
                assert(decreases_to!(c => c.kind));
                assert(decreases_to!(c.kind => sub));
                vstd::std_specs::vec::axiom_spec_len(&sub);
                assert(decreases_to!(sub => sub@));
            }
            names_plain(sub@)
        },
        _ => true,
    }
}

/// Every name of a listing, and of the listings below it, is plain.
pub open spec fn names_plain(s: Seq<FsNode>) -> bool
    decreases s,
{
    if s.len() == 0 {
        true
    } else {
        proof {
            vstd::seq::axiom_seq_len_decreases(s, s.drop_last());
            assert(decreases_to!(s => s[s.len() - 1]));
        }
        names_plain(s.drop_last()) && node_plain(s[s.len() - 1])
    }
}

proof fn lemma_names_plain_all(s: Seq<FsNode>)
    ensures
        names_plain(s) <==> forall|i: int| 0 <= i < s.len() ==> node_plain(#[trigger] s[i]),
    decreases s.len(),
{
    if s.len() > 0 {
        lemma_names_plain_all(s.drop_last());
        if forall|i: int| 0 <= i < s.len() ==> node_plain(#[trigger] s[i]) {
            assert forall|i: int| 0 <= i < s.drop_last().len() implies node_plain(#[trigger] s.drop_last()[i]) by {
                assert(s.drop_last()[i] == s[i]);
            }
        }
        if names_plain(s) {
            assert forall|i: int| 0 <= i < s.len() implies node_plain(#[trigger] s[i]) by {
                if i < s.len() - 1 {
                    assert(s.drop_last()[i] == s[i]);
                }
            }
        }
    }
}

/// A name that a scan lists: plain and not one of the ignored names.
pub open spec fn listed_name(n: Seq<char>) -> bool {
    plain_name(n) && !ignored_names().contains(n)
}

/// A path of a tree entry at `depth`: `depth + 1` listed names (so none is
/// `.`, `..` or ignored) joined by `/`.
pub open spec fn tree_path(p: Seq<char>, depth: nat) -> bool {
    exists|parts: Seq<Seq<char>>|
        parts.len() == depth + 1 && (forall|i: int| 0 <= i < parts.len() ==> listed_name(#[trigger] parts[i]))
            && p == join_parts(parts)
}

/// The number of `/` in a text.
pub open spec fn slash_count(s: Seq<char>) -> nat {
    s.filter(|c: char| c == '/').len()
}

proof fn lemma_no_slash_count(n: Seq<char>)
    requires
        forall|i: int| 0 <= i < n.len() ==> #[trigger] n[i] != '/',
    ensures
        slash_count(n) == 0,
{
    let f = |c: char| c == '/';
    assert forall|i: int| 0 <= i < n.len() implies !f(#[trigger] n[i]) by {}
    assert(n.all(|x: char| !f(x)));
    n.lemma_all_neg_filter_empty(f);
}

proof fn lemma_join_parts_shape(parts: Seq<Seq<char>>)
    requires
        parts.len() > 0,
        forall|i: int| 0 <= i < parts.len() ==> listed_name(#[trigger] parts[i]),
    ensures
        slash_count(join_parts(parts)) == parts.len() - 1,
        join_parts(parts).len() > 0 && join_parts(parts)[0] != '/',
    decreases parts.len(),
{
    let n = parts[parts.len() - 1];
    assert(listed_name(n));
    assert(listed_name(parts[0]));
    lemma_no_slash_count(n);
    if parts.len() > 1 {
        let q = parts.drop_last();
        assert forall|i: int| 0 <= i < q.len() implies listed_name(#[trigger] q[i]) by {
            assert(q[i] == parts[i]);
        }
        lemma_join_parts_shape(q);
        let jq = join_parts(q);
        let slash = seq!['/'];
        assert("/"@ =~= slash) by {
            reveal_strlit("/");
        }
        assert(join_parts(parts) == jq + slash + n);
        let f = |c: char| c == '/';
        Seq::filter_distributes_over_add(jq + slash, n, f);
        Seq::filter_distributes_over_add(jq, slash, f);
        reveal_with_fuel(Seq::filter, 2);
        assert(slash.drop_last() =~= Seq::<char>::empty());
        assert(slash.filter(f).len() == 1);
        assert(join_parts(parts)[0] == jq[0]);
    }
}

/// A tree path has exactly `depth` slashes and does not start with `/`.
pub proof fn lemma_tree_path_shape(p: Seq<char>, depth: nat)
    requires
        tree_path(p, depth),
    ensures
        slash_count(p) == depth,
        p.len() > 0 && p[0] != '/',
{
    let parts = choose|parts: Seq<Seq<char>>|
        parts.len() == depth + 1 && (forall|i: int| 0 <= i < parts.len() ==> listed_name(#[trigger] parts[i]))
            && p == join_parts(parts);
    lemma_join_parts_shape(parts);
}

/// Where a scan stands: at the root with an empty prefix, or below it with
/// a prefix that is a tree path one level up.
pub open spec fn scan_prefix_ok(prefix: Seq<char>, depth: nat) -> bool {
    if depth == 0 {
        prefix.len() == 0
    } else {
        tree_path(prefix, (depth - 1) as nat)
    }
}

/// Every listed entry's path is a tree path at its depth.
pub open spec fn entries_shaped(es: Seq<TreeEntryView>) -> bool {
    forall|i: int| 0 <= i < es.len() ==> tree_path((#[trigger] es[i]).path, es[i].depth)
}

proof fn lemma_child_path_shaped(prefix: Seq<char>, name: Seq<char>, depth: nat)
    requires
        scan_prefix_ok(prefix, depth),
        listed_name(name),
    ensures
        tree_path(child_path(prefix, name), depth),
        scan_prefix_ok(child_path(prefix, name), depth + 1),
{
    assert(crate::chat_file_links::forward_slashes(name) =~= name);
    if depth == 0 {
        let parts = seq![name];
        assert(join_parts(parts) == name);
        assert(child_path(prefix, name) == join_parts(parts));
    } else {
        let parts = choose|parts: Seq<Seq<char>>|
            parts.len() == depth && (forall|i: int| 0 <= i < parts.len() ==> listed_name(#[trigger] parts[i]))
                && prefix == join_parts(parts);
        let more = parts.push(name);
        assert(more.drop_last() =~= parts);
        assert(join_parts(more) == prefix + "/"@ + name);
        assert forall|i: int| 0 <= i < more.len() implies listed_name(#[trigger] more[i]) by {
            if i < parts.len() {
                assert(more[i] == parts[i]);
            }
        }
    }
}

proof fn lemma_scan_dir_shape(
    prefix: Seq<char>,
    children: Seq<FsNode>,
    depth: nat,
    max: nat,
    st: (Seq<TreeEntryView>, bool),
)
    requires
        st.0.len() <= max,
        st.1 ==> st.0.len() == max,
        entries_shaped(st.0),
        scan_prefix_ok(prefix, depth),
        names_plain(children),
    ensures
        scan_dir_spec(prefix, children, depth, max, st).1 ==> scan_dir_spec(prefix, children, depth, max, st).0.len()
            == max,
        entries_shaped(scan_dir_spec(prefix, children, depth, max, st).0),
    decreases children, 1nat,
{
    if st.0.len() < max {
        lemma_scan_rest_shape(prefix, children, depth, max, st);
    }
}

proof fn lemma_scan_rest_shape(
    prefix: Seq<char>,
    rest: Seq<FsNode>,
    depth: nat,
    max: nat,
    st: (Seq<TreeEntryView>, bool),
)
    requires
        st.0.len() <= max,
        st.1 ==> st.0.len() == max,
        entries_shaped(st.0),
        scan_prefix_ok(prefix, depth),
        names_plain(rest),
    ensures
        scan_rest_spec(prefix, rest, depth, max, st).1 ==> scan_rest_spec(prefix, rest, depth, max, st).0.len()
            == max,
        entries_shaped(scan_rest_spec(prefix, rest, depth, max, st).0),
    decreases rest, 0nat,
{
    if rest.len() > 0 {
        let k = min_index(rest);
        lemma_min_index(rest);
        let c = rest[k];
        let others = rest.remove(k);
        assert forall|i2: int| 0 <= i2 < others.len() implies exists|i1: int|
            0 <= i1 < rest.len() && rest[i1] == #[trigger] others[i2] by {
            if i2 < k {
                assert(rest[i2] == others[i2]);
            } else {
                assert(rest[i2 + 1] == others[i2]);
            }
        }
        vstd::seq::axiom_seq_len_decreases(rest, others);
        lemma_names_plain_all(rest);
        lemma_names_plain_all(others);
        assert forall|i2: int| 0 <= i2 < others.len() implies node_plain(#[trigger] others[i2]) by {
            if i2 < k {
                assert(rest[i2] == others[i2]);
            } else {
                assert(rest[i2 + 1] == others[i2]);
            }
        }
        assert(node_plain(c));
        if ignored_names().contains(c.name@) {
            lemma_scan_rest_shape(prefix, others, depth, max, st);
        } else if st.0.len() < max {
            let p = child_path(prefix, c.name@);
            lemma_child_path_shaped(prefix, c.name@, depth);
            match c.kind {
                FsNodeKind::Directory(sub) => {
                    let e = TreeEntryView {
                        path: p,
                        name: c.name@,
                        kind: ProjectEntryKind::Directory,
                        depth,
                        size_bytes: None,
                    };
                    let st1 = (st.0.push(e), st.1);
                    assert(entries_shaped(st1.0)) by {
                        assert forall|i: int| 0 <= i < st1.0.len() implies tree_path(
                            (#[trigger] st1.0[i]).path,
                            st1.0[i].depth,
                        ) by {
                            if i < st.0.len() {
                                assert(st1.0[i] == st.0[i]);
                            }
                        }
                    }
                    assert(decreases_to!(rest => rest[k]));
                    assert(decreases_to!(rest[k] => rest[k].kind));
                    assert(decreases_to!(rest[k].kind => sub));
                    assert(decreases_to!(sub => sub@));
                    assert(names_plain(sub@));
                    lemma_scan_dir_bounded(p, sub@, depth + 1, max, st1);
                    lemma_scan_dir_shape(p, sub@, depth + 1, max, st1);
                    let st2 = scan_dir_spec(p, sub@, depth + 1, max, st1);
                    lemma_scan_rest_shape(prefix, others, depth, max, st2);
                },
                FsNodeKind::File(size) => {
                    let e = TreeEntryView {
                        path: p,
                        name: c.name@,
                        kind: ProjectEntryKind::File,
                        depth,
                        size_bytes: Some(size),
                    };
                    let st1 = (st.0.push(e), st.1);
                    assert(entries_shaped(st1.0)) by {
                        assert forall|i: int| 0 <= i < st1.0.len() implies tree_path(
                            (#[trigger] st1.0[i]).path,
                            st1.0[i].depth,
                        ) by {
                            if i < st.0.len() {
                                assert(st1.0[i] == st.0[i]);
                            }
                        }
                    }
                    lemma_scan_rest_shape(prefix, others, depth, max, st1);
                },
                FsNodeKind::Other => {
                    lemma_scan_rest_shape(prefix, others, depth, max, st);
                },
            }
        }
    }
}

/// A scan of a tree whose names are plain lists at most `max` entries, is
/// cut short only with exactly `max` of them, and lists each entry under a
/// root-relative path of listed names (none ignored, none `.` or `..`)
/// joined by `/`, whose number of slashes is the entry's depth.
pub proof fn lemma_scan_tree_shape(children: Seq<FsNode>, max: nat)
    requires
        names_plain(children),
    ensures
        scan_dir_spec(Seq::empty(), children, 0, max, (Seq::empty(), false)).0.len() <= max,
        scan_dir_spec(Seq::empty(), children, 0, max, (Seq::empty(), false)).1 ==> scan_dir_spec(
            Seq::empty(),
            children,
            0,
            max,
            (Seq::empty(), false),
        ).0.len() == max,
        forall|i: int|
            0 <= i < scan_dir_spec(Seq::empty(), children, 0, max, (Seq::empty(), false)).0.len() ==> ({
                let e = #[trigger] scan_dir_spec(Seq::empty(), children, 0, max, (Seq::empty(), false)).0[i];
                tree_path(e.path, e.depth) && slash_count(e.path) == e.depth && e.path[0] != '/'
            }),
{
    let st = (Seq::<TreeEntryView>::empty(), false);
    lemma_scan_dir_bounded(Seq::empty(), children, 0, max, st);
    lemma_scan_dir_shape(Seq::empty(), children, 0, max, st);
    let r = scan_dir_spec(Seq::empty(), children, 0, max, st);
    assert forall|i: int| 0 <= i < r.0.len() implies ({
        let e = #[trigger] r.0[i];
        tree_path(e.path, e.depth) && slash_count(e.path) == e.depth && e.path[0] != '/'
    }) by {
        lemma_tree_path_shape(r.0[i].path, r.0[i].depth);
    }
}

// ---------------------------------------------------------------------------
// Trees and files of a PC gateway workspace
// ---------------------------------------------------------------------------
/// The preview of a file that a PC gateway sent: refused when its UTF-8 size
/// is over `max_bytes`, otherwise as `build_file_preview` makes it with that size.
pub fn read_pc_gateway_file(relative_path: &str, content: &str, max_bytes: u64) -> (r: Result<ProjectFilePreview, String>)
    ensures
        crate::native_event_router::utf8_len(content@) > max_bytes ==> (r matches Err(m) && m@
            == "file too large for mobile preview: "@ + decimal(crate::native_event_router::utf8_len(content@))
            + " > "@ + decimal(max_bytes as nat) + " bytes"@),
        crate::native_event_router::utf8_len(content@) <= max_bytes ==> match r {
            Ok(p) => normalized_relative(relative_path@) == Some(p.path@) && p.display_name@ == file_name_of(
                relative_path@,
            ) && p.content@ == preview_content(content@) && p.size_bytes == crate::native_event_router::utf8_len(
                content@,
            ) && p.line_count == lines(content@).len() && p.truncated == (content@.len() > DEFAULT_MAX_FILE_CHARS),
            Err(m) => normalized_relative(relative_path@) is None && m@ == "unsafe project path: "@ + relative_path@,
        },
{
    let size = crate::native_event_router::byte_len(content);
    if size > max_bytes as u128 {
        let mut m = owned("file too large for mobile preview: ");
        push_decimal(&mut m, size);
        m.append(" > ");
        push_decimal(&mut m, max_bytes as u128);
        m.append(" bytes");
        return Err(m);
    }
    build_file_preview(relative_path, content, size as u64)
}

/// An entry of a PC gateway directory listing, with the listing of a
/// directory's own entries when the gateway gave one.
#[derive(Debug, PartialEq, Eq)]
pub struct GatewayDirEntry {
    pub path: String,
    pub is_dir: bool,
    pub entries: Option<Vec<GatewayDirEntry>>,
}

/// The name shown for a gateway path: its last component, or the whole path
/// when it ends in none (`Path::file_name`, falling back to the path).
pub open spec fn gateway_entry_name(path: Seq<char>) -> Seq<char> {
    let p = path_parts(path);
    if p.len() > 0 && p.last() != ".."@ {
        p.last()
    } else {
        path
    }
}

/// The entry listed for a gateway path.
pub open spec fn gateway_tree_entry(path: Seq<char>, is_dir: bool, depth: nat) -> TreeEntryView {
    TreeEntryView {
        path,
        name: gateway_entry_name(path),
        kind: if is_dir { ProjectEntryKind::Directory } else { ProjectEntryKind::File },
        depth,
        size_bytes: None,
    }
}

/// The sub-entries of a gateway directory added to `st`: ignored names are
/// passed over and the list stops, cut short, when it is full.
pub open spec fn gateway_children_spec(subs: Seq<GatewayDirEntry>, max: nat, st: (Seq<TreeEntryView>, bool)) -> (
    Seq<TreeEntryView>,
    bool,
)
    decreases subs.len(),
{
    if subs.len() == 0 {
        st
    } else if st.0.len() >= max {
        (st.0, true)
    } else {
        let s = subs[0];
        let rest = subs.drop_first();
        if ignored_names().contains(gateway_entry_name(s.path@)) {
            gateway_children_spec(rest, max, st)
        } else {
            gateway_children_spec(rest, max, (st.0.push(gateway_tree_entry(s.path@, s.is_dir, 1)), st.1))
        }
    }
}

/// The top-level gateway entries added to `st`, at most `max` of them
/// looked at: ignored names are passed over, a directory's listed entries
/// come first and then the directory itself, and the list stops, cut short,
/// when it is full.
pub open spec fn gateway_tree_spec(entries: Seq<GatewayDirEntry>, max: nat, st: (Seq<TreeEntryView>, bool)) -> (
    Seq<TreeEntryView>,
    bool,
)
    decreases entries.len(),
{
    if entries.len() == 0 {
        st
    } else if st.0.len() >= max {
        (st.0, true)
    } else {
        let e = entries[0];
        let rest = entries.drop_first();
        if ignored_names().contains(gateway_entry_name(e.path@)) {
            gateway_tree_spec(rest, max, st)
        } else if e.is_dir {
            let st1 = match e.entries {
                Some(subs) => gateway_children_spec(subs@, max, st),
                None => st,
            };
            gateway_tree_spec(rest, max, (st1.0.push(gateway_tree_entry(e.path@, true, 0)), st1.1))
        } else {
            gateway_tree_spec(rest, max, (st.0.push(gateway_tree_entry(e.path@, false, 0)), st.1))
        }
    }
}

fn gateway_name(path: &str) -> (r: String)
    ensures
        r@ == gateway_entry_name(path@),
{
    let name = file_name(path);
    if name.unicode_len() > 0 && !str_eq(name.as_str(), "..") {
        name
    } else {
        owned(path)
    }
}

fn push_gateway_entry(entries: &mut Vec<ProjectTreeEntry>, path: &str, is_dir: bool, depth: usize)
    ensures
        tree_entries_view(final(entries)@) == tree_entries_view(old(entries)@).push(
            gateway_tree_entry(path@, is_dir, depth as nat),
        ),
{
    let ghost before = entries@;
    entries.push(
        ProjectTreeEntry {
            path: owned(path),
            name: gateway_name(path),
            kind: if is_dir { ProjectEntryKind::Directory } else { ProjectEntryKind::File },
            depth,
            size_bytes: None,
        },
    );
    assert(tree_entries_view(entries@) =~= tree_entries_view(before).push(gateway_tree_entry(path@, is_dir, depth as nat)));
}

/// The tree of a PC gateway workspace from its root listing (at most
/// `max_entries` entries of it looked at) and the listings of its top-level
/// directories.
pub fn scan_pc_gateway_tree(workspace_id: &str, listing: &Vec<GatewayDirEntry>, max_entries: usize) -> (r:
    ProjectTreeSnapshot)
    ensures
        r.root@ == workspace_id@,
        (tree_entries_view(r.entries@), r.truncated) == gateway_tree_spec(
            if listing@.len() > max_entries {
                listing@.take(max_entries as int)
            } else {
                listing@
            },
            max_entries as nat,
            (Seq::empty(), false),
        ),
{
    let n = if listing.len() > max_entries { max_entries } else { listing.len() };
    let ghost top = listing@.take(n as int);
    assert(top == (if listing@.len() > max_entries { listing@.take(max_entries as int) } else { listing@ }));
    let mut entries: Vec<ProjectTreeEntry> = Vec::new();
    let mut truncated = false;
    let mut i: usize = 0;
    assert(tree_entries_view(entries@) =~= Seq::<TreeEntryView>::empty());
    assert(top.skip(0) == top);
    while i < n
        invariant_except_break
            gateway_tree_spec(top, max_entries as nat, (Seq::empty(), false)) == gateway_tree_spec(
                top.skip(i as int),
                max_entries as nat,
                (tree_entries_view(entries@), truncated),
            ),
        invariant
            i <= n,
            n <= listing@.len(),
            top == listing@.take(n as int),
        ensures
            (tree_entries_view(entries@), truncated) == gateway_tree_spec(
                top,
                max_entries as nat,
                (Seq::empty(), false),
            ),
        decreases n - i,
    {
        let ghost tail = top.skip(i as int);
        assert(tail[0] == listing@[i as int]);
        assert(tail.drop_first() == top.skip(i + 1));
        if entries.len() >= max_entries {
            truncated = true;
            break;
        }
        let e = &listing[i];
        let name = gateway_name(e.path.as_str());
        if is_ignored_name(name.as_str()) {
            i = i + 1;
            continue;
        }
        if e.is_dir {
            match &e.entries {
                Some(subs) => {
                    let mut j: usize = 0;
                    let ghost st0 = (tree_entries_view(entries@), truncated);
                    assert(subs@.skip(0) == subs@);
                    while j < subs.len()
                        invariant_except_break
                            gateway_children_spec(subs@, max_entries as nat, st0) == gateway_children_spec(
                                subs@.skip(j as int),
                                max_entries as nat,
                                (tree_entries_view(entries@), truncated),
                            ),
                        invariant
                            j <= subs.len(),
                        ensures
                            (tree_entries_view(entries@), truncated) == gateway_children_spec(
                                subs@,
                                max_entries as nat,
                                st0,
                            ),
                        decreases subs.len() - j,
                    {
                        let ghost stail = subs@.skip(j as int);
                        assert(stail[0] == subs@[j as int]);
                        assert(stail.drop_first() == subs@.skip(j + 1));
                        if entries.len() >= max_entries {
                            truncated = true;
                            break;
                        }
                        let s = &subs[j];
                        let sub_name = gateway_name(s.path.as_str());
                        if !is_ignored_name(sub_name.as_str()) {
                            push_gateway_entry(&mut entries, s.path.as_str(), s.is_dir, 1);
                        }
                        j = j + 1;
                    }
                },
                None => {},
            }
            push_gateway_entry(&mut entries, e.path.as_str(), true, 0);
        } else {
            push_gateway_entry(&mut entries, e.path.as_str(), false, 0);
        }
        i = i + 1;
    }
    ProjectTreeSnapshot { root: owned(workspace_id), entries, truncated }
}

proof fn lemma_filter_prefix_contains(
    s: Seq<Seq<char>>,
    f: spec_fn(Seq<char>) -> bool,
    k: int,
    x: Seq<char>,
)
    requires
        0 <= k <= s.len(),
        s.take(k).filter(f).contains(x),
    ensures
        s.filter(f).contains(x),
{
    s.take(k).lemma_filter_contains_rev(f, x);
    let m = choose|m: int| 0 <= m < s.take(k).len() && s.take(k)[m] == x;
    assert(s[m] == x);
    broadcast use vstd::seq_lib::group_filter_ensures;
    assert(f(s[m]));
    s.lemma_filter_contains(f, m);
}

} // verus!
