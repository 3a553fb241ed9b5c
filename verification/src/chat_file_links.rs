//! Workspace file paths named in chat text and tool output, for "open in Files" links.
use crate::text::{
    chars_eq, chars_of, class_pred, contains, contains_chars, ends_with, ends_with_chars,
    occurs_at, pieces_view, rfind, slice_range, split_at_class, split_on, split_pred,
    string_from_chars, trim_by, trim_chars, CharClass, SplitClass,
};
use crate::json::{json_str, json_text_value, parse_json, str_field, JsonValue};
use vstd::prelude::*;

verus! {

broadcast use vstd::string::group_string_axioms;

// ---------------------------------------------------------------------------
// Lexicographic order of texts (the order of `String` in std)
// ---------------------------------------------------------------------------
/// `a` sorts strictly before `b`, character by character (code point order).
pub open spec fn text_lt(a: Seq<char>, b: Seq<char>) -> bool
    decreases a.len(),
{
    if a.len() == 0 {
        b.len() > 0
    } else if b.len() == 0 {
        false
    } else if a[0] != b[0] {
        a[0] < b[0]
    } else {
        text_lt(a.drop_first(), b.drop_first())
    }
}

/// No text sorts before itself.
pub proof fn lemma_text_lt_irreflexive(a: Seq<char>)
    ensures
        !text_lt(a, a),
    decreases a.len(),
{
    if a.len() > 0 {
        lemma_text_lt_irreflexive(a.drop_first());
    }
}

/// The order is transitive.
pub proof fn lemma_text_lt_transitive(a: Seq<char>, b: Seq<char>, c: Seq<char>)
    requires
        text_lt(a, b),
        text_lt(b, c),
    ensures
        text_lt(a, c),
    decreases a.len(),
{
    if a.len() > 0 && b.len() > 0 && c.len() > 0 {
        if a[0] == b[0] && b[0] == c[0] {
            lemma_text_lt_transitive(a.drop_first(), b.drop_first(), c.drop_first());
        }
    }
}

/// Two different texts are ordered one way or the other.
pub proof fn lemma_text_lt_total(a: Seq<char>, b: Seq<char>)
    requires
        a != b,
    ensures
        text_lt(a, b) || text_lt(b, a),
    decreases a.len(),
{
    if a.len() > 0 && b.len() > 0 && a[0] == b[0] {
        if a.drop_first() == b.drop_first() {
            assert(a =~= seq![a[0]] + a.drop_first());
            assert(b =~= seq![b[0]] + b.drop_first());
        }
        lemma_text_lt_total(a.drop_first(), b.drop_first());
    } else if a.len() == 0 && b.len() == 0 {
        assert(a =~= b);
    } else if a.len() > 0 && b.len() > 0 {
        assert(a[0] < b[0] || b[0] < a[0]);
    }
}

/// Whether `a` sorts strictly before `b`.
pub fn chars_lt(a: &[char], b: &[char]) -> (r: bool)
    ensures
        r == text_lt(a@, b@),
{
    let mut i: usize = 0;
    assert(a@.skip(0) == a@);
    assert(b@.skip(0) == b@);
    while i < a.len() && i < b.len()
        invariant
            i <= a.len(),
            i <= b.len(),
            text_lt(a@, b@) == text_lt(a@.skip(i as int), b@.skip(i as int)),
        decreases a.len() - i,
    {
        assert(a@.skip(i as int)[0] == a@[i as int]);
        assert(b@.skip(i as int)[0] == b@[i as int]);
        if a[i] != b[i] {
            return a[i] < b[i];
        }
        assert(a@.skip(i as int).drop_first() == a@.skip(i + 1));
        assert(b@.skip(i as int).drop_first() == b@.skip(i + 1));
        i = i + 1;
    }
    i < b.len()
}

/// Every element sorts strictly before every later one.
pub open spec fn strictly_sorted(s: Seq<Seq<char>>) -> bool {
    forall|i: int, j: int| 0 <= i < j < s.len() ==> text_lt(#[trigger] s[i], #[trigger] s[j])
}

/// Where `p` goes in the sorted `acc`: the number of leading elements before it.
pub open spec fn insert_pos(acc: Seq<Seq<char>>, p: Seq<char>) -> int
    decreases acc.len(),
{
    if acc.len() > 0 && text_lt(acc[0], p) {
        1 + insert_pos(acc.drop_first(), p)
    } else {
        0
    }
}

/// `acc` with `p` added in order, unless it is already there.
pub open spec fn insert_sorted(acc: Seq<Seq<char>>, p: Seq<char>) -> Seq<Seq<char>> {
    if acc.contains(p) {
        acc
    } else {
        acc.insert(insert_pos(acc, p), p)
    }
}

proof fn lemma_insert_pos_bounds(acc: Seq<Seq<char>>, p: Seq<char>)
    ensures
        0 <= insert_pos(acc, p) <= acc.len(),
        forall|k: int| 0 <= k < insert_pos(acc, p) ==> text_lt(#[trigger] acc[k], p),
        insert_pos(acc, p) < acc.len() ==> !text_lt(acc[insert_pos(acc, p)], p),
    decreases acc.len(),
{
    if acc.len() > 0 && text_lt(acc[0], p) {
        lemma_insert_pos_bounds(acc.drop_first(), p);
        assert forall|k: int| 0 <= k < insert_pos(acc, p) implies text_lt(#[trigger] acc[k], p) by {
            if k > 0 {
                assert(acc[k] == acc.drop_first()[k - 1]);
            }
        }
    }
}

/// Inserting in order keeps a strictly sorted list strictly sorted, and adds
/// exactly `p` to its elements.
pub proof fn lemma_insert_sorted(acc: Seq<Seq<char>>, p: Seq<char>)
    requires
        strictly_sorted(acc),
    ensures
        strictly_sorted(insert_sorted(acc, p)),
        insert_sorted(acc, p).to_set() == acc.to_set().insert(p),
{
    if acc.contains(p) {
        assert(acc.to_set().insert(p) =~= acc.to_set());
    } else {
        lemma_insert_pos_bounds(acc, p);
        let i = insert_pos(acc, p);
        let r = acc.insert(i, p);
        if i < acc.len() {
            lemma_text_lt_total(acc[i], p);
        }
        assert forall|a: int, b: int| 0 <= a < b < r.len() implies text_lt(
            #[trigger] r[a],
            #[trigger] r[b],
        ) by {
            if b < i {
                assert(r[a] == acc[a] && r[b] == acc[b]);
            } else if b == i {
                assert(r[a] == acc[a]);
            } else if a == i {
                assert(r[b] == acc[b - 1]);
                if b - 1 > i {
                    lemma_text_lt_transitive(p, acc[i], acc[b - 1]);
                }
            } else if a < i {
                assert(r[a] == acc[a] && r[b] == acc[b - 1]);
            } else {
                assert(r[a] == acc[a - 1] && r[b] == acc[b - 1]);
            }
        }
        assert forall|x: Seq<char>| r.to_set().contains(x) == acc.to_set().insert(p).contains(x) by {
            if r.contains(x) {
                let k = choose|k: int| 0 <= k < r.len() && r[k] == x;
                if k < i {
                    assert(acc[k] == x);
                } else if k > i {
                    assert(acc[k - 1] == x);
                }
            }
            if acc.contains(x) {
                let k = choose|k: int| 0 <= k < acc.len() && acc[k] == x;
                if k < i {
                    assert(r[k] == x);
                } else {
                    assert(r[k + 1] == x);
                }
            }
            if x == p {
                assert(r[i] == p);
            }
        }
        assert(r.to_set() =~= acc.to_set().insert(p));
    }
}

/// Adds `p` to the sorted `acc` unless it is already there.
pub fn insert_sorted_unique(acc: &mut Vec<Vec<char>>, p: Vec<char>)
    requires
        strictly_sorted(pieces_view(old(acc)@)),
    ensures
        pieces_view(final(acc)@) == insert_sorted(pieces_view(old(acc)@), p@),
{
    let ghost a = pieces_view(acc@);
    let mut i: usize = 0;
    assert(a.skip(0) == a);
    while i < acc.len() && chars_lt(acc[i].as_slice(), p.as_slice())
        invariant
            i <= acc.len(),
            a == pieces_view(acc@),
            insert_pos(a, p@) == i + insert_pos(a.skip(i as int), p@),
            forall|k: int| 0 <= k < i ==> text_lt(#[trigger] a[k], p@),
        decreases acc.len() - i,
    {
        assert(a.skip(i as int)[0] == a[i as int]);
        assert(a.skip(i as int).drop_first() == a.skip(i + 1));
        i = i + 1;
    }
    assert(insert_pos(a.skip(i as int), p@) == 0);
    if i < acc.len() && chars_eq(acc[i].as_slice(), p.as_slice()) {
        assert(a[i as int] == p@);
        assert(a.contains(p@));
        return;
    }
    proof {
        lemma_text_lt_irreflexive(p@);
        if i < acc.len() {
            lemma_text_lt_total(a[i as int], p@);
        }
        if a.contains(p@) {
            let k = choose|k: int| 0 <= k < a.len() && a[k] == p@;
            if k > i {
                lemma_text_lt_transitive(p@, a[i as int], a[k]);
            }
            assert(false);
        }
    }
    let ghost old_acc = acc@;
    let ghost pv = p@;
    acc.insert(i, p);
    assert(pieces_view(acc@) =~= a.insert(i as int, pv));
}

// ---------------------------------------------------------------------------
// What counts as a file path
// ---------------------------------------------------------------------------
/// File name extensions that mark a token as a workspace file path.
pub open spec fn file_extensions() -> Seq<Seq<char>> {
    seq![
        ".rs"@, ".py"@, ".md"@, ".toml"@, ".json"@, ".txt"@, ".kt"@, ".kts"@, ".java"@,
        ".tsx"@, ".ts"@, ".js"@, ".html"@, ".css"@, ".gradle"@, ".xml"@, ".yml"@, ".yaml"@,
        ".sh"@, ".ps1"@, ".bat"@, ".cmd"@, ".zip"@,
    ]
}

fn extension_list() -> (r: Vec<&'static str>)
    ensures
        r@.map_values(|e: &str| e@) == file_extensions(),
{
    let r = vec![
        ".rs", ".py", ".md", ".toml", ".json", ".txt", ".kt", ".kts", ".java", ".tsx", ".ts",
        ".js", ".html", ".css", ".gradle", ".xml", ".yml", ".yaml", ".sh", ".ps1", ".bat", ".cmd",
        ".zip",
    ];
    assert(r@.map_values(|e: &str| e@) =~= file_extensions());
    r
}

/// A token names a file: at least three characters, not a URL, and it ends
/// with a known extension or has one right before a `/`.
pub open spec fn looks_like_file_path(p: Seq<char>) -> bool {
    &&& p.len() >= 3
    &&& !contains(p, "://"@)
    &&& exists|i: int|
        0 <= i < file_extensions().len() && (ends_with(p, #[trigger] file_extensions()[i])
            || contains(p, file_extensions()[i].push('/')))
}

/// Whether `p` looks like a workspace file path.
pub fn looks_like_file_path_chars(p: &[char]) -> (r: bool)
    ensures
        r == looks_like_file_path(p@),
{
    if p.len() < 3 {
        return false;
    }
    let url = chars_of("://");
    if contains_chars(p, &url) {
        return false;
    }
    let exts = extension_list();
    let ghost ev = exts@.map_values(|e: &str| e@);
    let mut i: usize = 0;
    while i < exts.len()
        invariant
            i <= exts.len(),
            ev == exts@.map_values(|e: &str| e@),
            ev == file_extensions(),
            p@.len() >= 3,
            !contains(p@, "://"@),
            forall|k: int|
                0 <= k < i ==> !(ends_with(p@, #[trigger] file_extensions()[k]) || contains(
                    p@,
                    file_extensions()[k].push('/'),
                )),
        decreases exts.len() - i,
    {
        let ext = chars_of(exts[i]);
        assert(ext@ == file_extensions()[i as int]);
        if ends_with_chars(p, &ext) {
            assert(ends_with(p@, file_extensions()[i as int]));
            assert(!contains(p@, "://"@));
            return true;
        }
        let mut dir = ext;
        dir.push('/');
        if contains_chars(p, &dir) {
            assert(contains(p@, file_extensions()[i as int].push('/')));
            assert(!contains(p@, "://"@));
            return true;
        }
        i = i + 1;
    }
    false
}

/// `str::trim_matches` with the characters that cannot belong to a path token.
pub open spec fn trim_path_token(t: Seq<char>) -> Seq<char> {
    trim_by(t, class_pred(CharClass::NonPathChar))
}

// ---------------------------------------------------------------------------
// Normalising a path
// ---------------------------------------------------------------------------
/// Back-slashes turned into forward slashes.
pub open spec fn forward_slashes(s: Seq<char>) -> Seq<char> {
    s.map_values(|c: char| if c == '\\' { '/' } else { c })
}

/// `s` without any number of leading `./`.
pub open spec fn strip_dot_slash(s: Seq<char>) -> Seq<char>
    decreases s.len(),
{
    if s.len() >= 2 && s[0] == '.' && s[1] == '/' {
        strip_dot_slash(s.skip(2))
    } else {
        s
    }
}

/// The position of the last occurrence of `p` in `s` (when there is one).
pub open spec fn last_occurrence(s: Seq<char>, p: Seq<char>) -> int {
    choose|i: int| occurs_at(s, p, i) && forall|k: int| i < k ==> !occurs_at(s, p, k)
}

/// The part of `s` after the last occurrence of `m`.
pub open spec fn after_last(s: Seq<char>, m: Seq<char>) -> Seq<char> {
    s.skip(last_occurrence(s, m) + m.len())
}

/// The directory names under which the app keeps the agent workspace.
pub open spec fn workspace_markers() -> Seq<Seq<char>> {
    seq![
        "/deepseek-mobile/Project workspace/"@,
        "/deepseek-mobile/workspace/"@,
        "/files/deepseek-mobile/Project workspace/"@,
        "/files/deepseek-mobile/workspace/"@,
    ]
}

/// An absolute path inside the app workspace made relative to it; the first
/// marker (in the order above) that occurs decides, at its last occurrence.
pub open spec fn strip_workspace_prefix(s: Seq<char>) -> Seq<char> {
    let m = workspace_markers();
    if s.len() > 1 && s[0] == '/' {
        if contains(s, m[0]) {
            after_last(s, m[0])
        } else if contains(s, m[1]) {
            after_last(s, m[1])
        } else if contains(s, m[2]) {
            after_last(s, m[2])
        } else if contains(s, m[3]) {
            after_last(s, m[3])
        } else {
            s
        }
    } else {
        s
    }
}

/// The workspace-relative form of a path token.
pub open spec fn normalized_path(s: Seq<char>) -> Seq<char> {
    strip_workspace_prefix(strip_dot_slash(forward_slashes(s)))
}

proof fn lemma_last_occurrence(s: Seq<char>, p: Seq<char>, i: int)
    requires
        occurs_at(s, p, i),
        forall|k: int| i < k ==> !occurs_at(s, p, k),
    ensures
        last_occurrence(s, p) == i,
{
    let j = last_occurrence(s, p);
    assert(occurs_at(s, p, j) && forall|k: int| j < k ==> !occurs_at(s, p, k));
}

fn strip_after_marker(s: &[char], marker: &str) -> (r: Option<Vec<char>>)
    ensures
        match r {
            Some(v) => contains(s@, marker@) && v@ == after_last(s@, marker@),
            None => !contains(s@, marker@),
        },
{
    let m = chars_of(marker);
    match rfind(s, &m) {
        Some(idx) => {
            proof {
                lemma_last_occurrence(s@, m@, idx as int);
            }
            let ml = m.len();
            assert(ml == m@.len());
            assert(idx + ml <= s.len());
            let v = slice_range(s, idx + ml, s.len());
            assert(v@ =~= s@.skip(idx + m@.len()));
            Some(v)
        },
        None => None,
    }
}

/// The characters of a normalised path.
pub fn normalize_path_chars(path: &[char]) -> (r: Vec<char>)
    ensures
        r@ == normalized_path(path@),
{
    let mut v: Vec<char> = Vec::new();
    let mut i: usize = 0;
    while i < path.len()
        invariant
            i <= path.len(),
            v@ == forward_slashes(path@).take(i as int),
        decreases path.len() - i,
    {
        let c = path[i];
        v.push(if c == '\\' { '/' } else { c });
        i = i + 1;
        assert(v@ =~= forward_slashes(path@).take(i as int));
    }
    assert(forward_slashes(path@).take(path@.len() as int) == forward_slashes(path@));
    let mut start: usize = 0;
    assert(v@.skip(0) == v@);
    while start < v.len() && v.len() - start >= 2 && v[start] == '.' && v[start + 1] == '/'
        invariant
            start <= v.len(),
            strip_dot_slash(v@) == strip_dot_slash(v@.skip(start as int)),
        decreases v.len() - start,
    {
        assert(v@.skip(start as int).skip(2) == v@.skip(start + 2));
        start = start + 2;
    }
    let s = slice_range(&v, start, v.len());
    assert(s@ == v@.skip(start as int));
    assert(strip_dot_slash(s@) == s@);
    strip_workspace_chars(s)
}

fn strip_workspace_chars(s: Vec<char>) -> (r: Vec<char>)
    ensures
        r@ == strip_workspace_prefix(s@),
{
    if s.len() > 1 && s[0] == '/' {
        if let Some(r) = strip_after_marker(&s, "/deepseek-mobile/Project workspace/") {
            return r;
        }
        if let Some(r) = strip_after_marker(&s, "/deepseek-mobile/workspace/") {
            return r;
        }
        if let Some(r) = strip_after_marker(&s, "/files/deepseek-mobile/Project workspace/") {
            return r;
        }
        if let Some(r) = strip_after_marker(&s, "/files/deepseek-mobile/workspace/") {
            return r;
        }
    }
    s
}

/// The workspace-relative form of a path named in chat or tool output:
/// back-slashes become `/`, leading `./` go, and an absolute path under the
/// app's workspace directory loses everything up to that directory.
pub fn normalize_path(path: &str) -> (r: String)
    ensures
        r@ == normalized_path(path@),
{
    let v = chars_of(path);
    let n = normalize_path_chars(&v);
    string_from_chars(&n)
}

// ---------------------------------------------------------------------------
// Extracting paths from text
// ---------------------------------------------------------------------------
/// The normalised path that a piece of text names, if it names one.
pub open spec fn path_candidate(piece: Seq<char>) -> Option<Seq<char>> {
    let t = trim_path_token(piece);
    if looks_like_file_path(t) {
        Some(normalized_path(t))
    } else {
        None
    }
}

/// `acc` with the path named by each piece added in order.
pub open spec fn add_candidates(acc: Seq<Seq<char>>, pieces: Seq<Seq<char>>) -> Seq<Seq<char>>
    decreases pieces.len(),
{
    if pieces.len() == 0 {
        acc
    } else {
        let a = add_candidates(acc, pieces.drop_last());
        match path_candidate(pieces.last()) {
            Some(p) => insert_sorted(a, p),
            None => a,
        }
    }
}

/// The pieces of `text` between white space, and between path delimiters.
pub open spec fn text_pieces(text: Seq<char>) -> Seq<Seq<char>> {
    split_on(text, split_pred(SplitClass::Whitespace)) + split_on(
        text,
        split_pred(SplitClass::PathDelimiter),
    )
}

/// The sorted, duplicate-free list of paths that `text` names.
pub open spec fn extracted_paths(text: Seq<char>) -> Seq<Seq<char>> {
    add_candidates(Seq::empty(), text_pieces(text))
}

/// The set of paths named by some piece of `text`.
pub open spec fn named_paths(text: Seq<char>) -> Set<Seq<char>> {
    Set::new(
        |p: Seq<char>|
            exists|i: int|
                0 <= i < text_pieces(text).len() && path_candidate(#[trigger] text_pieces(text)[i])
                    == Some(p),
    )
}

proof fn lemma_add_candidates(acc: Seq<Seq<char>>, pieces: Seq<Seq<char>>)
    requires
        strictly_sorted(acc),
    ensures
        strictly_sorted(add_candidates(acc, pieces)),
        add_candidates(acc, pieces).to_set() == acc.to_set().union(
            Set::new(
                |p: Seq<char>|
                    exists|i: int|
                        0 <= i < pieces.len() && path_candidate(#[trigger] pieces[i]) == Some(p),
            ),
        ),
    decreases pieces.len(),
{
    let named = |q: Seq<Seq<char>>|
        Set::new(
            |p: Seq<char>|
                exists|i: int| 0 <= i < q.len() && path_candidate(#[trigger] q[i]) == Some(p),
        );
    if pieces.len() == 0 {
        assert(named(pieces) =~= Set::empty());
        assert(acc.to_set().union(named(pieces)) =~= acc.to_set());
    } else {
        let init = pieces.drop_last();
        lemma_add_candidates(acc, init);
        let a = add_candidates(acc, init);
        match path_candidate(pieces.last()) {
            Some(p) => {
                lemma_insert_sorted(a, p);
            },
            None => {},
        }
        assert forall|p: Seq<char>| named(pieces).contains(p) == (named(init).contains(p) || path_candidate(pieces.last()) == Some(p)) by {
            if named(pieces).contains(p) {
                let i = choose|i: int| 0 <= i < pieces.len() && path_candidate(#[trigger] pieces[i]) == Some(p);
                if i < pieces.len() - 1 {
                    assert(init[i] == pieces[i]);
                }
            }
            if named(init).contains(p) {
                let i = choose|i: int| 0 <= i < init.len() && path_candidate(#[trigger] init[i]) == Some(p);
                assert(pieces[i] == init[i]);
            }
            if path_candidate(pieces.last()) == Some(p) {
                assert(pieces[pieces.len() - 1] == pieces.last());
            }
        }
        assert(add_candidates(acc, pieces).to_set() =~= acc.to_set().union(named(pieces)));
    }
}

/// The paths extracted from a text are strictly sorted, and are exactly the
/// paths that its pieces name.
pub proof fn lemma_extracted_paths(text: Seq<char>)
    ensures
        strictly_sorted(extracted_paths(text)),
        extracted_paths(text).to_set() == named_paths(text),
{
    lemma_add_candidates(Seq::empty(), text_pieces(text));
    assert(Seq::<Seq<char>>::empty().to_set() =~= Set::empty());
    assert(extracted_paths(text).to_set() =~= named_paths(text));
}

fn add_piece_candidates(out: &mut Vec<Vec<char>>, pieces: &Vec<Vec<char>>)
    requires
        strictly_sorted(pieces_view(old(out)@)),
    ensures
        pieces_view(final(out)@) == add_candidates(pieces_view(old(out)@), pieces_view(pieces@)),
        strictly_sorted(pieces_view(final(out)@)),
{
    let ghost acc0 = pieces_view(out@);
    let ghost pv = pieces_view(pieces@);
    let mut i: usize = 0;
    assert(pv.take(0) =~= Seq::<Seq<char>>::empty());
    while i < pieces.len()
        invariant
            i <= pieces.len(),
            pv == pieces_view(pieces@),
            pieces_view(out@) == add_candidates(acc0, pv.take(i as int)),
            strictly_sorted(pieces_view(out@)),
        decreases pieces.len() - i,
    {
        assert(pv.take(i + 1).drop_last() == pv.take(i as int));
        assert(pv.take(i + 1).last() == pieces[i as int]@);
        let t = trim_chars(pieces[i].as_slice(), CharClass::NonPathChar);
        if looks_like_file_path_chars(&t) {
            let n = normalize_path_chars(&t);
            proof {
                lemma_insert_sorted(pieces_view(out@), n@);
            }
            insert_sorted_unique(out, n);
        }
        i = i + 1;
    }
    assert(pv.take(pieces.len() as int) == pv);
}

/// The view of a list of strings.
pub open spec fn strings_view(v: Seq<String>) -> Seq<Seq<char>> {
    v.map_values(|s: String| s@)
}

/// Strings holding the given character vectors.
pub fn strings_from_pieces(v: &Vec<Vec<char>>) -> (r: Vec<String>)
    ensures
        strings_view(r@) == pieces_view(v@),
{
    let mut r: Vec<String> = Vec::new();
    let mut i: usize = 0;
    while i < v.len()
        invariant
            i <= v.len(),
            strings_view(r@) == pieces_view(v@).take(i as int),
        decreases v.len() - i,
    {
        let s = string_from_chars(v[i].as_slice());
        let ghost old_r = r@;
        let ghost sv = s@;
        r.push(s);
        assert(r@ == old_r.push(s));
        assert(strings_view(r@) == strings_view(old_r).push(sv));
        i = i + 1;
        assert(pieces_view(v@).take(i as int) == pieces_view(v@).take(i - 1).push(v@[i - 1]@));
        assert(strings_view(r@) =~= pieces_view(v@).take(i as int));
    }
    assert(pieces_view(v@).take(v.len() as int) == pieces_view(v@));
    r
}

/// Workspace file paths mentioned in free text, sorted and without duplicates:
/// every white-space separated token and every piece between path delimiters
/// is trimmed of non-path characters, kept when it looks like a file path,
/// and normalised.
pub fn extract_paths_from_text(text: &str) -> (r: Vec<String>)
    ensures
        strings_view(r@) == extracted_paths(text@),
        strictly_sorted(strings_view(r@)),
        strings_view(r@).to_set() == named_paths(text@),
{
    let chars = chars_of(text);
    let mut out: Vec<Vec<char>> = Vec::new();
    assert(pieces_view(out@) =~= Seq::<Seq<char>>::empty());
    let ws = split_at_class(&chars, SplitClass::Whitespace);
    let delim = split_at_class(&chars, SplitClass::PathDelimiter);
    assert(strictly_sorted(pieces_view(out@)));
    add_piece_candidates(&mut out, &ws);
    add_piece_candidates(&mut out, &delim);
    proof {
        lemma_add_candidates_append(
            Seq::empty(),
            pieces_view(ws@),
            pieces_view(delim@),
        );
        lemma_extracted_paths(text@);
    }
    strings_from_pieces(&out)
}

proof fn lemma_add_candidates_append(
    acc: Seq<Seq<char>>,
    a: Seq<Seq<char>>,
    b: Seq<Seq<char>>,
)
    ensures
        add_candidates(acc, a + b) == add_candidates(add_candidates(acc, a), b),
    decreases b.len(),
{
    if b.len() == 0 {
        assert(a + b == a);
    } else {
        assert((a + b).drop_last() == a + b.drop_last());
        assert((a + b).last() == b.last());
        lemma_add_candidates_append(acc, a, b.drop_last());
    }
}

/// The path that a `write_file` result such as `Wrote 12 bytes to src/a.rs`
/// names: the trimmed text after the last ` to `, when it is one word.
pub open spec fn write_file_output_path(output: Seq<char>) -> Option<Seq<char>> {
    if contains(output, " to "@) {
        let rest = crate::text::trim(after_last(output, " to "@));
        if rest.len() == 0 || rest.contains(' ') {
            None
        } else {
            Some(normalized_path(rest))
        }
    } else {
        None
    }
}

/// The path named by a `write_file` tool result, if any.
pub fn parse_write_file_output(output: &str) -> (r: Option<String>)
    ensures
        match r {
            Some(p) => write_file_output_path(output@) == Some(p@),
            None => write_file_output_path(output@) is None,
        },
{
    let chars = chars_of(output);
    let rest = match strip_after_marker(&chars, " to ") {
        Some(v) => v,
        None => return None,
    };
    let t = trim_chars(&rest, CharClass::Whitespace);
    assert(class_pred(CharClass::Whitespace) == (|c: char| crate::text::unicode_whitespace(c)));
    assert(t@ == crate::text::trim(rest@));
    if t.len() == 0 {
        return None;
    }
    if crate::text::has_char(&t, ' ') {
        return None;
    }
    let n = normalize_path_chars(&t);
    Some(string_from_chars(&n))
}

// ---------------------------------------------------------------------------
// Paths named by tool calls and their results
// ---------------------------------------------------------------------------
/// `acc` with each of `ps` added in order, as `insert_sorted` adds one.
pub open spec fn insert_all(acc: Seq<Seq<char>>, ps: Seq<Seq<char>>) -> Seq<Seq<char>>
    decreases ps.len(),
{
    if ps.len() == 0 {
        acc
    } else {
        insert_sorted(insert_all(acc, ps.drop_last()), ps.last())
    }
}

/// Adding paths to a strictly sorted list keeps it strictly sorted, and its
/// elements become those of the list and of the added paths.
pub proof fn lemma_insert_all(acc: Seq<Seq<char>>, ps: Seq<Seq<char>>)
    requires
        strictly_sorted(acc),
    ensures
        strictly_sorted(insert_all(acc, ps)),
        insert_all(acc, ps).to_set() == acc.to_set().union(ps.to_set()),
    decreases ps.len(),
{
    if ps.len() == 0 {
        assert(ps.to_set() =~= Set::empty());
        assert(acc.to_set().union(ps.to_set()) =~= acc.to_set());
    } else {
        lemma_insert_all(acc, ps.drop_last());
        lemma_insert_sorted(insert_all(acc, ps.drop_last()), ps.last());
        assert(ps =~= ps.drop_last().push(ps.last()));
        assert(ps.to_set() =~= ps.drop_last().to_set().insert(ps.last())) by {
            assert forall|x: Seq<char>| ps.to_set().contains(x) == ps.drop_last().to_set().insert(ps.last()).contains(x) by {
                if ps.contains(x) {
                    let k = choose|k: int| 0 <= k < ps.len() && ps[k] == x;
                    if k < ps.len() - 1 {
                        assert(ps.drop_last()[k] == x);
                    }
                }
                if ps.drop_last().contains(x) {
                    let k = choose|k: int| 0 <= k < ps.drop_last().len() && ps.drop_last()[k] == x;
                    assert(ps[k] == x);
                }
                if x == ps.last() {
                    assert(ps[ps.len() - 1] == x);
                }
            }
        }
        assert(insert_all(acc, ps).to_set() =~= acc.to_set().union(ps.to_set()));
    }
}

proof fn lemma_insert_all_append(acc: Seq<Seq<char>>, a: Seq<Seq<char>>, b: Seq<Seq<char>>)
    ensures
        insert_all(acc, a + b) == insert_all(insert_all(acc, a), b),
    decreases b.len(),
{
    if b.len() == 0 {
        assert(a + b == a);
    } else {
        assert((a + b).drop_last() == a + b.drop_last());
        assert((a + b).last() == b.last());
        lemma_insert_all_append(acc, a, b.drop_last());
    }
}

/// A member name under which a JSON object may give a file path.
pub open spec fn is_path_key(k: Seq<char>) -> bool {
    k == "path"@ || ends_with(k, "_path"@) || k == "file"@
}

/// The path that one member gives: a path-like string under a path key, normalised.
pub open spec fn member_path(k: Seq<char>, v: JsonValue) -> Seq<Seq<char>> {
    if is_path_key(k) {
        match json_str(v) {
            Some(t) => if looks_like_file_path(t) {
                seq![normalized_path(t)]
            } else {
                Seq::empty()
            },
            None => Seq::empty(),
        }
    } else {
        Seq::empty()
    }
}

/// The paths that a JSON value gives, at any depth, in document order.
pub open spec fn json_paths(v: JsonValue) -> Seq<Seq<char>>
    decreases v,
{
    match v {
        JsonValue::Object(es) => members_paths(es@),
        JsonValue::Array(items) => items_paths(items@),
        _ => Seq::empty(),
    }
}

/// The paths that the members of an object give.
pub open spec fn members_paths(es: Seq<(String, JsonValue)>) -> Seq<Seq<char>>
    decreases es,
{
    if es.len() == 0 {
        Seq::empty()
    } else {
        members_paths(es.drop_last()) + member_path(es.last().0@, es.last().1) + json_paths(es.last().1)
    }
}

/// The paths that the items of a list give.
pub open spec fn items_paths(items: Seq<JsonValue>) -> Seq<Seq<char>>
    decreases items,
{
    if items.len() == 0 {
        Seq::empty()
    } else {
        items_paths(items.drop_last()) + json_paths(items.last())
    }
}

fn add_path(out: &mut Vec<Vec<char>>, path: &str)
    requires
        strictly_sorted(pieces_view(old(out)@)),
    ensures
        pieces_view(final(out)@) == insert_sorted(pieces_view(old(out)@), normalized_path(path@)),
        strictly_sorted(pieces_view(final(out)@)),
{
    let chars = chars_of(path);
    let n = normalize_path_chars(&chars);
    proof {
        lemma_insert_sorted(pieces_view(out@), n@);
    }
    insert_sorted_unique(out, n);
}

fn collect_json_paths(v: &JsonValue, out: &mut Vec<Vec<char>>)
    requires
        strictly_sorted(pieces_view(old(out)@)),
    ensures
        pieces_view(final(out)@) == insert_all(pieces_view(old(out)@), json_paths(*v)),
        strictly_sorted(pieces_view(final(out)@)),
    decreases v,
{
    let ghost out0 = pieces_view(out@);
    match v {
        JsonValue::Object(es) => {
            let mut i: usize = 0;
            assert(es@.take(0) =~= Seq::<(String, JsonValue)>::empty());
            while i < es.len()
                invariant
                    i <= es.len(),
                    *v == JsonValue::Object(*es),
                    strictly_sorted(pieces_view(out@)),
                    pieces_view(out@) == insert_all(out0, members_paths(es@.take(i as int))),
                decreases es.len() - i,
            {
                let ghost before = pieces_view(out@);
                let ghost k = es@[i as int].0@;
                let ghost x = es@[i as int].1;
                assert(es@.take(i + 1).drop_last() == es@.take(i as int));
                assert(es@.take(i + 1).last() == es@[i as int]);
                let key = es[i].0.as_str();
                let is_key = str_eq_lit(key, "path") || crate::text::str_ends_with(key, "_path") || str_eq_lit(
                    key,
                    "file",
                );
                if is_key {
                    match crate::json::as_str(&es[i].1) {
                        Some(t) => {
                            let tc = chars_of(t);
                            if looks_like_file_path_chars(&tc) {
                                add_path(out, t);
                                assert(member_path(k, x) == seq![normalized_path(t@)]);
                                assert(pieces_view(out@) == insert_all(before, member_path(k, x))) by {
                                    reveal_with_fuel(insert_all, 2);
                                    assert(member_path(k, x).drop_last() =~= Seq::<Seq<char>>::empty());
                                }
                            } else {
                                assert(member_path(k, x) =~= Seq::<Seq<char>>::empty());
                            }
                        },
                        None => {
                            assert(member_path(k, x) =~= Seq::<Seq<char>>::empty());
                        },
                    }
                } else {
                    assert(member_path(k, x) =~= Seq::<Seq<char>>::empty());
                }
                let ghost mid = pieces_view(out@);
                proof {
                    if member_path(k, x).len() == 0 {
                        assert(mid == insert_all(before, member_path(k, x)));
                    }
                }
                proof {
                    vstd::std_specs::vec::axiom_vec_index_decreases(*es, i as int);
                    assert(decreases_to!(*v => (*v)->Object_0));
                    assert((*v)->Object_0 == *es);
                    assert(decreases_to!(es@[i as int] => es@[i as int].1));
                    assert(decreases_to!(*v => es@[i as int].1));
                }
                collect_json_paths(&es[i].1, out);
                proof {
                    lemma_insert_all_append(before, member_path(k, x), json_paths(x));
                    lemma_insert_all_append(out0, members_paths(es@.take(i as int)), member_path(k, x) + json_paths(x));
                    assert(members_paths(es@.take(i + 1)) == members_paths(es@.take(i as int)) + member_path(k, x)
                        + json_paths(x));
                    assert(members_paths(es@.take(i as int)) + member_path(k, x) + json_paths(x)
                        == members_paths(es@.take(i as int)) + (member_path(k, x) + json_paths(x)));
                }
                i = i + 1;
            }
            assert(es@.take(es.len() as int) == es@);
        },
        JsonValue::Array(items) => {
            let mut i: usize = 0;
            assert(items@.take(0) =~= Seq::<JsonValue>::empty());
            while i < items.len()
                invariant
                    i <= items.len(),
                    *v == JsonValue::Array(*items),
                    strictly_sorted(pieces_view(out@)),
                    pieces_view(out@) == insert_all(out0, items_paths(items@.take(i as int))),
                decreases items.len() - i,
            {
                assert(items@.take(i + 1).drop_last() == items@.take(i as int));
                assert(items@.take(i + 1).last() == items@[i as int]);
                proof {
                    vstd::std_specs::vec::axiom_vec_index_decreases(*items, i as int);
                    assert(decreases_to!(*v => (*v)->Array_0));
                    assert((*v)->Array_0 == *items);
                    assert(decreases_to!(*v => items@[i as int]));
                }
                collect_json_paths(&items[i], out);
                proof {
                    lemma_insert_all_append(out0, items_paths(items@.take(i as int)), json_paths(items@[i as int]));
                }
                i = i + 1;
            }
            assert(items@.take(items.len() as int) == items@);
        },
        _ => {
            assert(json_paths(*v) =~= Seq::<Seq<char>>::empty());
        },
    }
}

fn str_eq_lit(a: &str, b: &str) -> (r: bool)
    ensures
        r == (a@ == b@),
{
    crate::text::str_eq(a, b)
}

/// The paths that a tool result names: path members of its metadata, the
/// file of a `write_file` report, and the paths in its output text.
pub open spec fn tool_result_paths(output: Seq<char>, metadata: Option<JsonValue>) -> Seq<Seq<char>> {
    let from_meta = match metadata {
        Some(m) => json_paths(m),
        None => Seq::empty(),
    };
    let written = match write_file_output_path(output) {
        Some(p) => seq![p],
        None => Seq::empty(),
    };
    insert_all(insert_all(insert_all(Seq::empty(), from_meta), written), extracted_paths(output))
}

/// Workspace file paths named by a tool result, sorted and without duplicates.
pub fn extract_paths_from_tool_result(tool_name: &str, output: &str, metadata: Option<&JsonValue>) -> (r: Vec<
    String,
>)
    ensures
        strings_view(r@) == tool_result_paths(
            output@,
            match metadata {
                Some(m) => Some(*m),
                None => None,
            },
        ),
        strictly_sorted(strings_view(r@)),
{
    let mut out: Vec<Vec<char>> = Vec::new();
    assert(pieces_view(out@) =~= Seq::<Seq<char>>::empty());
    match metadata {
        Some(m) => collect_json_paths(m, &mut out),
        None => {},
    }
    match parse_write_file_output(output) {
        Some(p) => {
            let ghost before = pieces_view(out@);
            let pc = chars_of(p.as_str());
            proof {
                lemma_insert_sorted(pieces_view(out@), pc@);
            }
            insert_sorted_unique(&mut out, pc);
            assert(pieces_view(out@) == insert_all(before, seq![p@])) by {
                reveal_with_fuel(insert_all, 2);
                assert(seq![p@].drop_last() =~= Seq::<Seq<char>>::empty());
            }
        },
        None => {},
    }
    let found = extract_paths_from_text(output);
    let mut i: usize = 0;
    let ghost acc = pieces_view(out@);
    let ghost fv = strings_view(found@);
    assert(fv.take(0) =~= Seq::<Seq<char>>::empty());
    while i < found.len()
        invariant
            i <= found.len(),
            fv == strings_view(found@),
            strictly_sorted(pieces_view(out@)),
            pieces_view(out@) == insert_all(acc, fv.take(i as int)),
        decreases found.len() - i,
    {
        assert(fv.take(i + 1).drop_last() == fv.take(i as int));
        assert(fv.take(i + 1).last() == found@[i as int]@);
        let pc = chars_of(found[i].as_str());
        proof {
            lemma_insert_sorted(pieces_view(out@), pc@);
        }
        insert_sorted_unique(&mut out, pc);
        i = i + 1;
    }
    assert(fv.take(found.len() as int) == fv);
    strings_from_pieces(&out)
}

/// The tools whose `path` argument names a file.
pub open spec fn names_file_by_path(tool_name: Seq<char>) -> bool {
    tool_name == "write_file"@ || tool_name == "read_file"@ || tool_name == "edit_file"@ || tool_name
        == "delete_file"@ || tool_name == "list_dir"@ || tool_name == "open_path"@
}

/// The paths that a tool call's arguments name: their path members, and for
/// the file tools the `path` argument itself (normalised, whatever it looks
/// like); nothing when the arguments are not JSON.
pub open spec fn tool_args_paths(tool_name: Seq<char>, args: Option<JsonValue>) -> Seq<Seq<char>> {
    match args {
        None => Seq::empty(),
        Some(v) => {
            let direct = if names_file_by_path(tool_name) {
                match str_field(v, "path"@) {
                    Some(p) => seq![normalized_path(p)],
                    None => Seq::empty(),
                }
            } else {
                Seq::empty()
            };
            insert_all(insert_all(Seq::empty(), json_paths(v)), direct)
        },
    }
}

/// Workspace file paths named by a tool call's parsed arguments, sorted and
/// without duplicates; `args` is `None` when they did not parse as JSON.
pub fn extract_paths_from_tool_args_value(tool_name: &str, args: Option<&JsonValue>) -> (r: Vec<String>)
    ensures
        strings_view(r@) == tool_args_paths(
            tool_name@,
            match args {
                Some(m) => Some(*m),
                None => None,
            },
        ),
        strictly_sorted(strings_view(r@)),
{
    let mut out: Vec<Vec<char>> = Vec::new();
    assert(pieces_view(out@) =~= Seq::<Seq<char>>::empty());
    let v = match args {
        Some(v) => v,
        None => return Vec::new(),
    };
    collect_json_paths(v, &mut out);
    let file_tool = str_eq_lit(tool_name, "write_file") || str_eq_lit(tool_name, "read_file") || str_eq_lit(
        tool_name,
        "edit_file",
    ) || str_eq_lit(tool_name, "delete_file") || str_eq_lit(tool_name, "list_dir") || str_eq_lit(
        tool_name,
        "open_path",
    );
    if file_tool {
        match crate::json::get_str(v, "path") {
            Some(p) => {
                let ghost before = pieces_view(out@);
                add_path(&mut out, p);
                assert(pieces_view(out@) == insert_all(before, seq![normalized_path(p@)])) by {
                    reveal_with_fuel(insert_all, 2);
                    assert(seq![normalized_path(p@)].drop_last() =~= Seq::<Seq<char>>::empty());
                }
            },
            None => {},
        }
    }
    strings_from_pieces(&out)
}

/// The paths of a tool result are strictly sorted, and are exactly the path
/// members of its metadata, the file of a `write_file` report and the paths
/// that its output text names.
pub proof fn lemma_tool_result_paths(output: Seq<char>, metadata: Option<JsonValue>)
    ensures
        strictly_sorted(tool_result_paths(output, metadata)),
        tool_result_paths(output, metadata).to_set() == (match metadata {
            Some(m) => json_paths(m).to_set(),
            None => Set::empty(),
        }).union(
            match write_file_output_path(output) {
                Some(p) => set![p],
                None => Set::empty(),
            },
        ).union(named_paths(output)),
{
    let from_meta = match metadata {
        Some(m) => json_paths(m),
        None => Seq::empty(),
    };
    let written = match write_file_output_path(output) {
        Some(p) => seq![p],
        None => Seq::empty(),
    };
    let e = Seq::<Seq<char>>::empty();
    assert(strictly_sorted(e));
    lemma_insert_all(e, from_meta);
    lemma_insert_all(insert_all(e, from_meta), written);
    lemma_insert_all(insert_all(insert_all(e, from_meta), written), extracted_paths(output));
    lemma_extracted_paths(output);
    assert(e.to_set() =~= Set::empty());
    assert(Seq::<Seq<char>>::empty().to_set() =~= Set::<Seq<char>>::empty());
    match write_file_output_path(output) {
        Some(p) => {
            assert(seq![p].to_set() =~= set![p]) by {
                assert(seq![p][0] == p);
            }
        },
        None => {},
    }
    assert(tool_result_paths(output, metadata).to_set() =~= from_meta.to_set().union(written.to_set()).union(
        named_paths(output),
    ));
}

/// Workspace file paths named by a tool call's arguments, given as JSON
/// text: sorted, without duplicates, and none when the text is not JSON.
pub fn extract_paths_from_tool_args(tool_name: &str, args_json: &str) -> (r: Vec<String>)
    ensures
        strings_view(r@) == tool_args_paths(tool_name@, json_text_value(args_json@)),
        strictly_sorted(strings_view(r@)),
{
    match parse_json(args_json) {
        Some(v) => extract_paths_from_tool_args_value(tool_name, Some(&v)),
        None => extract_paths_from_tool_args_value(tool_name, None),
    }
}

} // verus!
