//! A small line diff of a text file, for previews of file changes.
use crate::text::{
    chars_eq, chars_of, decimal, lines, owned, pieces_view, push_chars, push_decimal, split_lines,
};
use vstd::prelude::*;

verus! {

broadcast use vstd::string::group_string_axioms;

/// The role of a line in a diff.
#[derive(Clone, Copy, Debug, PartialEq, Eq, Structural)]
pub enum ProjectDiffLineKind {
    Context,
    Added,
    Removed,
    Hunk,
}

/// One line of a diff.
#[derive(Clone, Debug, PartialEq, Eq)]
pub struct ProjectDiffLine {
    pub kind: ProjectDiffLineKind,
    pub text: String,
}

/// A diff line as values.
pub struct ProjectDiffLineView {
    pub kind: ProjectDiffLineKind,
    pub text: Seq<char>,
}

impl View for ProjectDiffLine {
    type V = ProjectDiffLineView;

    open spec fn view(&self) -> ProjectDiffLineView {
        ProjectDiffLineView { kind: self.kind, text: self.text@ }
    }
}

/// A diff of one file.
#[derive(Clone, Debug, PartialEq, Eq)]
pub struct ProjectDiffPreview {
    pub path: String,
    pub added_lines: usize,
    pub removed_lines: usize,
    pub lines: Vec<ProjectDiffLine>,
}

/// A diff as values.
pub struct ProjectDiffPreviewView {
    pub path: Seq<char>,
    pub added_lines: nat,
    pub removed_lines: nat,
    pub lines: Seq<ProjectDiffLineView>,
}

impl View for ProjectDiffPreview {
    type V = ProjectDiffPreviewView;

    open spec fn view(&self) -> ProjectDiffPreviewView {
        ProjectDiffPreviewView {
            path: self.path@,
            added_lines: self.added_lines as nat,
            removed_lines: self.removed_lines as nat,
            lines: self.lines@.map_values(|l: ProjectDiffLine| l@),
        }
    }
}

/// The diff of a file without changes.
pub open spec fn empty_diff(path: Seq<char>) -> ProjectDiffPreviewView {
    ProjectDiffPreviewView { path, added_lines: 0, removed_lines: 0, lines: Seq::empty() }
}

impl ProjectDiffPreview {
    /// The diff of a file without changes.
    pub fn empty(path: &str) -> (r: Self)
        ensures
            r@ == empty_diff(path@),
    {
        let r = ProjectDiffPreview {
            path: owned(path),
            added_lines: 0,
            removed_lines: 0,
            lines: Vec::new(),
        };
        assert(r.lines@.map_values(|l: ProjectDiffLine| l@) =~= Seq::<ProjectDiffLineView>::empty());
        r
    }

    /// Whether the diff shows no lines.
    pub fn is_empty(&self) -> (r: bool)
        ensures
            r == (self@.lines.len() == 0),
    {
        self.lines.len() == 0
    }
}

/// The number of leading lines that `a` and `b` share.
pub open spec fn common_prefix(a: Seq<Seq<char>>, b: Seq<Seq<char>>) -> nat
    decreases a.len(),
{
    if a.len() > 0 && b.len() > 0 && a[0] == b[0] {
        1 + common_prefix(a.drop_first(), b.drop_first())
    } else {
        0
    }
}

/// The number of trailing lines that `a` and `b` share, at most `room`.
pub open spec fn common_suffix(a: Seq<Seq<char>>, b: Seq<Seq<char>>, room: int) -> nat
    decreases a.len(),
{
    if room > 0 && a.len() > 0 && b.len() > 0 && a.last() == b.last() {
        1 + common_suffix(a.drop_last(), b.drop_last(), room - 1)
    } else {
        0
    }
}

/// Lines of one role, each behind its marker character.
pub open spec fn marked_lines(src: Seq<Seq<char>>, kind: ProjectDiffLineKind, marker: char) -> Seq<ProjectDiffLineView> {
    src.map_values(|l: Seq<char>| ProjectDiffLineView { kind, text: seq![marker] + l })
}

/// The `@@ -a,b +c,d @@` header of the single hunk.
pub open spec fn hunk_header(start: nat, removed: nat, added: nat) -> Seq<char> {
    "@@ -"@ + decimal(start) + ","@ + decimal(removed) + " +"@ + decimal(start) + ","@ + decimal(added)
        + " @@"@
}

/// The diff of two texts: the lines between their common leading and
/// trailing lines are removed and added, with up to three context lines
/// around them, under one hunk header.
pub open spec fn text_diff(path: Seq<char>, before: Seq<char>, after: Seq<char>) -> ProjectDiffPreviewView {
    if before == after {
        empty_diff(path)
    } else {
        let b = lines(before);
        let a = lines(after);
        let p = common_prefix(b, a);
        let room = if b.len() <= a.len() { b.len() - p } else { a.len() - p };
        let s = common_suffix(b, a, room);
        let be = b.len() - s;
        let ae = a.len() - s;
        let cs = if p >= 3 { p - 3 } else { 0 };
        let ce = if be + 3 <= b.len() { be + 3 } else { b.len() as int };
        ProjectDiffPreviewView {
            path,
            added_lines: (ae - p) as nat,
            removed_lines: (be - p) as nat,
            lines: seq![
                ProjectDiffLineView {
                    kind: ProjectDiffLineKind::Hunk,
                    text: hunk_header((p + 1) as nat, (be - p) as nat, (ae - p) as nat),
                },
            ] + marked_lines(b.subrange(cs, p as int), ProjectDiffLineKind::Context, ' ')
                + marked_lines(b.subrange(p as int, be), ProjectDiffLineKind::Removed, '-')
                + marked_lines(a.subrange(p as int, ae), ProjectDiffLineKind::Added, '+')
                + marked_lines(b.subrange(be, ce), ProjectDiffLineKind::Context, ' '),
        }
    }
}

/// The views of a list of diff lines.
pub open spec fn diff_lines_view(v: Seq<ProjectDiffLine>) -> Seq<ProjectDiffLineView> {
    v.map_values(|l: ProjectDiffLine| l@)
}

fn push_marked(
    out: &mut Vec<ProjectDiffLine>,
    src: &Vec<Vec<char>>,
    from: usize,
    to: usize,
    kind: ProjectDiffLineKind,
    marker: char,
)
    requires
        from <= to <= src.len(),
    ensures
        diff_lines_view(final(out)@) == diff_lines_view(old(out)@) + marked_lines(
            pieces_view(src@).subrange(from as int, to as int),
            kind,
            marker,
        ),
{
    let ghost o = diff_lines_view(out@);
    let ghost sv = pieces_view(src@);
    let mut i = from;
    assert(marked_lines(sv.subrange(from as int, from as int), kind, marker) =~= Seq::<
        ProjectDiffLineView,
    >::empty());
    assert(diff_lines_view(out@) =~= o + marked_lines(sv.subrange(from as int, from as int), kind, marker));
    while i < to
        invariant
            from <= i <= to <= src.len(),
            sv == pieces_view(src@),
            diff_lines_view(out@) == o + marked_lines(sv.subrange(from as int, i as int), kind, marker),
        decreases to - i,
    {
        let mut text = String::new();
        let mut m: Vec<char> = Vec::new();
        m.push(marker);
        push_chars(&mut text, &m);
        push_chars(&mut text, src[i].as_slice());
        assert(text@ == seq![marker] + sv[i as int]);
        let line = ProjectDiffLine { kind, text };
        let ghost before = out@;
        out.push(line);
        assert(diff_lines_view(out@) =~= diff_lines_view(before).push(line@));
        assert(marked_lines(sv.subrange(from as int, i + 1), kind, marker) =~= marked_lines(
            sv.subrange(from as int, i as int),
            kind,
            marker,
        ).push(line@));
        i = i + 1;
    }
}

/// The number of leading equal lines.
fn prefix_len(b: &Vec<Vec<char>>, a: &Vec<Vec<char>>) -> (r: usize)
    ensures
        r == common_prefix(pieces_view(b@), pieces_view(a@)),
        r <= b.len() && r <= a.len(),
{
    let ghost bv = pieces_view(b@);
    let ghost av = pieces_view(a@);
    let mut p: usize = 0;
    assert(bv.skip(0) == bv && av.skip(0) == av);
    while p < b.len() && p < a.len() && chars_eq(b[p].as_slice(), a[p].as_slice())
        invariant
            p <= b.len() && p <= a.len(),
            bv == pieces_view(b@) && av == pieces_view(a@),
            common_prefix(bv, av) == p + common_prefix(bv.skip(p as int), av.skip(p as int)),
        decreases b.len() - p,
    {
        assert(bv.skip(p as int)[0] == bv[p as int] && av.skip(p as int)[0] == av[p as int]);
        assert(bv.skip(p as int).drop_first() == bv.skip(p + 1));
        assert(av.skip(p as int).drop_first() == av.skip(p + 1));
        p = p + 1;
    }
    if p < b.len() && p < a.len() {
        assert(bv.skip(p as int)[0] == bv[p as int] && av.skip(p as int)[0] == av[p as int]);
    }
    p
}

/// The number of trailing equal lines, at most `room`.
fn suffix_len(b: &Vec<Vec<char>>, a: &Vec<Vec<char>>, room: usize) -> (r: usize)
    requires
        room <= b.len() && room <= a.len(),
    ensures
        r == common_suffix(pieces_view(b@), pieces_view(a@), room as int),
        r <= room,
{
    let ghost bv = pieces_view(b@);
    let ghost av = pieces_view(a@);
    let mut s: usize = 0;
    assert(bv.take(bv.len() as int) == bv && av.take(av.len() as int) == av);
    while s < room && chars_eq(b[b.len() - 1 - s].as_slice(), a[a.len() - 1 - s].as_slice())
        invariant
            s <= room <= b.len() && room <= a.len(),
            bv == pieces_view(b@) && av == pieces_view(a@),
            common_suffix(bv, av, room as int) == s + common_suffix(
                bv.take(b.len() - s),
                av.take(a.len() - s),
                room - s,
            ),
        decreases room - s,
    {
        let ghost bt = bv.take(b.len() - s);
        let ghost at = av.take(a.len() - s);
        assert(bt.last() == bv[b.len() - 1 - s] && at.last() == av[a.len() - 1 - s]);
        assert(bt.drop_last() == bv.take(b.len() - s - 1));
        assert(at.drop_last() == av.take(a.len() - s - 1));
        s = s + 1;
    }
    if s < room {
        let ghost bt = bv.take(b.len() - s);
        let ghost at = av.take(a.len() - s);
        assert(bt.last() == bv[b.len() - 1 - s] && at.last() == av[a.len() - 1 - s]);
    }
    s
}

/// The preview diff of a file changing from `before` to `after`.
pub fn build_text_diff_preview(path: &str, before: &str, after: &str) -> (r: ProjectDiffPreview)
    ensures
        r@ == text_diff(path@, before@, after@),
{
    let bc = chars_of(before);
    let ac = chars_of(after);
    if chars_eq(&bc, &ac) {
        return ProjectDiffPreview::empty(path);
    }
    let b = split_lines(&bc);
    let a = split_lines(&ac);
    let prefix = prefix_len(&b, &a);
    let room = if b.len() <= a.len() { b.len() - prefix } else { a.len() - prefix };
    let suffix = suffix_len(&b, &a, room);
    let before_end = b.len() - suffix;
    let after_end = a.len() - suffix;
    let context_start = if prefix >= 3 { prefix - 3 } else { 0 };
    let context_end = if b.len() - before_end >= 3 { before_end + 3 } else { b.len() };
    let removed = before_end - prefix;
    let added = after_end - prefix;
    let mut header = owned("@@ -");
    push_decimal(&mut header, prefix as u128 + 1);
    header.append(",");
    push_decimal(&mut header, removed as u128);
    header.append(" +");
    push_decimal(&mut header, prefix as u128 + 1);
    header.append(",");
    push_decimal(&mut header, added as u128);
    header.append(" @@");
    let mut out: Vec<ProjectDiffLine> = Vec::new();
    let hunk = ProjectDiffLine { kind: ProjectDiffLineKind::Hunk, text: header };
    out.push(hunk);
    assert(diff_lines_view(out@) =~= seq![hunk@]);
    push_marked(&mut out, &b, context_start, prefix, ProjectDiffLineKind::Context, ' ');
    push_marked(&mut out, &b, prefix, before_end, ProjectDiffLineKind::Removed, '-');
    push_marked(&mut out, &a, prefix, after_end, ProjectDiffLineKind::Added, '+');
    push_marked(&mut out, &b, before_end, context_end, ProjectDiffLineKind::Context, ' ');
    let r = ProjectDiffPreview {
        path: owned(path),
        added_lines: added,
        removed_lines: removed,
        lines: out,
    };
    assert(r@.lines =~= text_diff(path@, before@, after@).lines);
    r
}

/// The colour of a diff line.
pub fn diff_line_color(kind: &ProjectDiffLineKind) -> (r: &'static str)
    ensures
        r@ == (match *kind {
            ProjectDiffLineKind::Context => "#d1d5db"@,
            ProjectDiffLineKind::Added => "#86efac"@,
            ProjectDiffLineKind::Removed => "#fca5a5"@,
            ProjectDiffLineKind::Hunk => "#93c5fd"@,
        }),
{
    match kind {
        ProjectDiffLineKind::Context => "#d1d5db",
        ProjectDiffLineKind::Added => "#86efac",
        ProjectDiffLineKind::Removed => "#fca5a5",
        ProjectDiffLineKind::Hunk => "#93c5fd",
    }
}

/// The number of rows of a kind.
pub open spec fn rows_of_kind(lines: Seq<ProjectDiffLineView>, kind: ProjectDiffLineKind) -> nat {
    lines.filter(|l: ProjectDiffLineView| l.kind == kind).len()
}

proof fn lemma_common_prefix_bound(a: Seq<Seq<char>>, b: Seq<Seq<char>>)
    ensures
        common_prefix(a, b) <= a.len(),
        common_prefix(a, b) <= b.len(),
    decreases a.len(),
{
    if a.len() > 0 && b.len() > 0 && a[0] == b[0] {
        lemma_common_prefix_bound(a.drop_first(), b.drop_first());
    }
}

proof fn lemma_common_suffix_bound(a: Seq<Seq<char>>, b: Seq<Seq<char>>, room: int)
    ensures
        room >= 0 ==> common_suffix(a, b, room) <= room,
    decreases a.len(),
{
    if room > 0 && a.len() > 0 && b.len() > 0 && a.last() == b.last() {
        lemma_common_suffix_bound(a.drop_last(), b.drop_last(), room - 1);
    }
}

proof fn lemma_marked_rows(src: Seq<Seq<char>>, kind: ProjectDiffLineKind, marker: char, q: ProjectDiffLineKind)
    ensures
        rows_of_kind(marked_lines(src, kind, marker), q) == if kind == q {
            src.len()
        } else {
            0
        },
    decreases src.len(),
{
    let f = |l: ProjectDiffLineView| l.kind == q;
    if src.len() > 0 {
        lemma_marked_rows(src.drop_last(), kind, marker, q);
        let m = marked_lines(src, kind, marker);
        assert(m.drop_last() =~= marked_lines(src.drop_last(), kind, marker));
        reveal_with_fuel(Seq::filter, 1);
        assert(m =~= m.drop_last().push(m.last()));
    } else {
        assert(marked_lines(src, kind, marker) =~= Seq::<ProjectDiffLineView>::empty());
        assert(Seq::<ProjectDiffLineView>::empty().filter(f) =~= Seq::<ProjectDiffLineView>::empty());
    }
}

/// Two equal texts give the empty diff: no rows and nothing added or removed.
pub proof fn lemma_equal_texts_give_empty_diff(path: Seq<char>, text: Seq<char>)
    ensures
        text_diff(path, text, text) == empty_diff(path),
        text_diff(path, text, text).lines.len() == 0,
{
}

/// The counts of a diff are the numbers of its added and removed rows.
pub proof fn lemma_diff_counts_match_rows(path: Seq<char>, before: Seq<char>, after: Seq<char>)
    ensures
        text_diff(path, before, after).added_lines == rows_of_kind(
            text_diff(path, before, after).lines,
            ProjectDiffLineKind::Added,
        ),
        text_diff(path, before, after).removed_lines == rows_of_kind(
            text_diff(path, before, after).lines,
            ProjectDiffLineKind::Removed,
        ),
{
    if before == after {
        assert(Seq::<ProjectDiffLineView>::empty().filter(|l: ProjectDiffLineView| l.kind == ProjectDiffLineKind::Added)
            =~= Seq::<ProjectDiffLineView>::empty());
        assert(Seq::<ProjectDiffLineView>::empty().filter(
            |l: ProjectDiffLineView| l.kind == ProjectDiffLineKind::Removed,
        ) =~= Seq::<ProjectDiffLineView>::empty());
    } else {
        let b = lines(before);
        let a = lines(after);
        let p = common_prefix(b, a);
        lemma_common_prefix_bound(b, a);
        let room = if b.len() <= a.len() { b.len() - p } else { a.len() - p };
        let s = common_suffix(b, a, room);
        lemma_common_suffix_bound(b, a, room);
        let be = b.len() - s;
        let ae = a.len() - s;
        let cs = if p >= 3 { p - 3 } else { 0 };
        let ce = if be + 3 <= b.len() { be + 3 } else { b.len() as int };
        let h = seq![
            ProjectDiffLineView {
                kind: ProjectDiffLineKind::Hunk,
                text: hunk_header((p + 1) as nat, (be - p) as nat, (ae - p) as nat),
            },
        ];
        let c1 = marked_lines(b.subrange(cs, p as int), ProjectDiffLineKind::Context, ' ');
        let r = marked_lines(b.subrange(p as int, be), ProjectDiffLineKind::Removed, '-');
        let ad = marked_lines(a.subrange(p as int, ae), ProjectDiffLineKind::Added, '+');
        let c2 = marked_lines(b.subrange(be, ce), ProjectDiffLineKind::Context, ' ');
        assert(text_diff(path, before, after).lines == h + c1 + r + ad + c2);
        let kinds = seq![ProjectDiffLineKind::Added, ProjectDiffLineKind::Removed];
        assert forall|j: int| 0 <= j < 2 implies ({
            let q = #[trigger] kinds[j];
            let f = |l: ProjectDiffLineView| l.kind == q;
            rows_of_kind(h + c1 + r + ad + c2, q) == rows_of_kind(r, q) + rows_of_kind(ad, q)
        }) by {
            let q = kinds[j];
            let f = |l: ProjectDiffLineView| l.kind == q;
            Seq::filter_distributes_over_add(h + c1 + r + ad, c2, f);
            Seq::filter_distributes_over_add(h + c1 + r, ad, f);
            Seq::filter_distributes_over_add(h + c1, r, f);
            Seq::filter_distributes_over_add(h, c1, f);
            reveal_with_fuel(Seq::filter, 2);
            assert(h.drop_last() =~= Seq::<ProjectDiffLineView>::empty());
            assert(h.filter(f).len() == 0);
            lemma_marked_rows(b.subrange(cs, p as int), ProjectDiffLineKind::Context, ' ', q);
            lemma_marked_rows(b.subrange(be, ce), ProjectDiffLineKind::Context, ' ', q);
        }
        assert(kinds[0] == ProjectDiffLineKind::Added);
        assert(kinds[1] == ProjectDiffLineKind::Removed);
        lemma_marked_rows(b.subrange(p as int, be), ProjectDiffLineKind::Removed, '-', ProjectDiffLineKind::Added);
        lemma_marked_rows(a.subrange(p as int, ae), ProjectDiffLineKind::Added, '+', ProjectDiffLineKind::Added);
        lemma_marked_rows(b.subrange(p as int, be), ProjectDiffLineKind::Removed, '-', ProjectDiffLineKind::Removed);
        lemma_marked_rows(a.subrange(p as int, ae), ProjectDiffLineKind::Added, '+', ProjectDiffLineKind::Removed);
    }
}

/// The diff of two different texts opens with its hunk header, removes no
/// more lines than the old text has and adds no more than the new one has,
/// and shows at most three context lines on each side.
pub proof fn lemma_diff_shape(path: Seq<char>, before: Seq<char>, after: Seq<char>)
    requires
        before != after,
    ensures
        text_diff(path, before, after).lines.len() > 0,
        text_diff(path, before, after).lines[0].kind == ProjectDiffLineKind::Hunk,
        text_diff(path, before, after).removed_lines <= lines(before).len(),
        text_diff(path, before, after).added_lines <= lines(after).len(),
        rows_of_kind(text_diff(path, before, after).lines, ProjectDiffLineKind::Context) <= 6,
{
    let b = lines(before);
    let a = lines(after);
    let p = common_prefix(b, a);
    lemma_common_prefix_bound(b, a);
    let room = if b.len() <= a.len() { b.len() - p } else { a.len() - p };
    let s = common_suffix(b, a, room);
    lemma_common_suffix_bound(b, a, room);
    let be = b.len() - s;
    let ae = a.len() - s;
    let cs = if p >= 3 { p - 3 } else { 0 };
    let ce = if be + 3 <= b.len() { be + 3 } else { b.len() as int };
    let h = seq![
        ProjectDiffLineView {
            kind: ProjectDiffLineKind::Hunk,
            text: hunk_header((p + 1) as nat, (be - p) as nat, (ae - p) as nat),
        },
    ];
    let c1 = marked_lines(b.subrange(cs, p as int), ProjectDiffLineKind::Context, ' ');
    let r = marked_lines(b.subrange(p as int, be), ProjectDiffLineKind::Removed, '-');
    let ad = marked_lines(a.subrange(p as int, ae), ProjectDiffLineKind::Added, '+');
    let c2 = marked_lines(b.subrange(be, ce), ProjectDiffLineKind::Context, ' ');
    let all = h + c1 + r + ad + c2;
    assert(text_diff(path, before, after).lines == all);
    assert(all[0] == h[0]);
    let q = ProjectDiffLineKind::Context;
    let f = |l: ProjectDiffLineView| l.kind == q;
    Seq::filter_distributes_over_add(h + c1 + r + ad, c2, f);
    Seq::filter_distributes_over_add(h + c1 + r, ad, f);
    Seq::filter_distributes_over_add(h + c1, r, f);
    Seq::filter_distributes_over_add(h, c1, f);
    reveal_with_fuel(Seq::filter, 2);
    assert(h.drop_last() =~= Seq::<ProjectDiffLineView>::empty());
    assert(h.filter(f).len() == 0);
    lemma_marked_rows(b.subrange(cs, p as int), ProjectDiffLineKind::Context, ' ', q);
    lemma_marked_rows(b.subrange(p as int, be), ProjectDiffLineKind::Removed, '-', q);
    lemma_marked_rows(a.subrange(p as int, ae), ProjectDiffLineKind::Added, '+', q);
    lemma_marked_rows(b.subrange(be, ce), ProjectDiffLineKind::Context, ' ', q);
}

proof fn lemma_common_prefix_at_least(a: Seq<Seq<char>>, b: Seq<Seq<char>>, k: nat)
    requires
        k <= a.len(),
        k <= b.len(),
        forall|i: int| 0 <= i < k ==> #[trigger] a[i] == b[i],
    ensures
        common_prefix(a, b) >= k,
    decreases k,
{
    if k > 0 {
        assert(a[0] == b[0]);
        assert forall|i: int| 0 <= i < k - 1 implies #[trigger] a.drop_first()[i] == b.drop_first()[i] by {
            assert(a[i + 1] == b[i + 1]);
        }
        lemma_common_prefix_at_least(a.drop_first(), b.drop_first(), (k - 1) as nat);
    }
}

proof fn lemma_common_suffix_at_least(a: Seq<Seq<char>>, b: Seq<Seq<char>>, room: int, k: nat)
    requires
        k <= a.len(),
        k <= b.len(),
        room >= 0,
        forall|i: int| 0 <= i < k ==> #[trigger] a[a.len() - 1 - i] == b[b.len() - 1 - i],
    ensures
        common_suffix(a, b, room) >= if k <= room { k as int } else { room },
    decreases k,
{
    if k > 0 && room > 0 {
        assert(a[a.len() - 1 - 0] == b[b.len() - 1 - 0]);
        assert(a.last() == b.last());
        assert forall|i: int| 0 <= i < k - 1 implies #[trigger] a.drop_last()[a.drop_last().len() - 1 - i]
            == b.drop_last()[b.drop_last().len() - 1 - i] by {
            assert(a[a.len() - 1 - (i + 1)] == b[b.len() - 1 - (i + 1)]);
        }
        lemma_common_suffix_at_least(a.drop_last(), b.drop_last(), room - 1, (k - 1) as nat);
    }
}

/// The diff is never larger than any way of seeing the change as shared
/// leading lines `shared_start`, then `old_mid` replaced by `new_mid`, then
/// shared trailing lines `shared_end`: it removes at most `old_mid`'s lines,
/// adds at most `new_mid`'s, and removes exactly as many more lines than it
/// adds as the old text has more lines than the new. So an inserted line is
/// one added line and nothing removed, and a deleted line the reverse.
pub proof fn lemma_diff_is_minimal(
    path: Seq<char>,
    before: Seq<char>,
    after: Seq<char>,
    shared_start: Seq<Seq<char>>,
    old_mid: Seq<Seq<char>>,
    new_mid: Seq<Seq<char>>,
    shared_end: Seq<Seq<char>>,
)
    requires
        lines(before) == shared_start + old_mid + shared_end,
        lines(after) == shared_start + new_mid + shared_end,
    ensures
        text_diff(path, before, after).removed_lines <= old_mid.len(),
        text_diff(path, before, after).added_lines <= new_mid.len(),
        text_diff(path, before, after).removed_lines - text_diff(path, before, after).added_lines == old_mid.len()
            - new_mid.len(),
{
    let b = lines(before);
    let a = lines(after);
    if before != after {
        let p = common_prefix(b, a);
        lemma_common_prefix_bound(b, a);
        assert forall|i: int| 0 <= i < shared_start.len() implies #[trigger] b[i] == a[i] by {
            assert(b[i] == shared_start[i]);
            assert(a[i] == shared_start[i]);
        }
        lemma_common_prefix_at_least(b, a, shared_start.len());
        let room = if b.len() <= a.len() { b.len() - p } else { a.len() - p };
        let s = common_suffix(b, a, room);
        lemma_common_suffix_bound(b, a, room);
        assert forall|i: int| 0 <= i < shared_end.len() implies #[trigger] b[b.len() - 1 - i] == a[a.len() - 1 - i] by {
            assert(b[b.len() - 1 - i] == shared_end[shared_end.len() - 1 - i]);
            assert(a[a.len() - 1 - i] == shared_end[shared_end.len() - 1 - i]);
        }
        lemma_common_suffix_at_least(b, a, room, shared_end.len());
    } else {
        assert(old_mid.len() == new_mid.len());
    }
}

} // verus!
