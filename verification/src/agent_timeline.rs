//! The chat / work-log timeline: user and assistant messages, tool cards,
//! status lines and errors, with live (streaming) assistant and reasoning rows.
use crate::chat_file_links::{extract_paths_from_text, extracted_paths, strings_view};
use crate::text::{
    char_index, char_position, chars_of, class_pred, concat, contains, first_occurrence, find,
    is_blank, lemma_first_occurrence, occurs_at, owned, push_decimal, decimal, starts_with,
    str_contains, str_starts_with, string_from_chars, trim, trim_chars, to_lowercase,
    unicode_lowercase, CharClass,
};
use vstd::prelude::*;

verus! {

broadcast use vstd::string::group_string_axioms;

/// What a timeline row shows.
#[derive(Clone, Copy, Debug, PartialEq, Eq, Structural)]
pub enum MobileTimelineItemKind {
    UserMessage,
    AssistantMessage,
    Attachment,
    NativeCommand,
    ToolCall,
    Approval,
    Status,
    Error,
}

/// The progress of a timeline row.
#[derive(Clone, Copy, Debug, PartialEq, Eq, Structural)]
pub enum MobileTimelineItemStatus {
    Pending,
    Running,
    Done,
    Failed,
    WaitingForApproval,
}

/// One row of the timeline.
#[derive(Clone, Debug, PartialEq, Eq)]
pub struct MobileTimelineItem {
    pub id: String,
    pub kind: MobileTimelineItemKind,
    pub status: MobileTimelineItemStatus,
    pub title: String,
    pub body: String,
    /// Workspace-relative paths for "Open in Files" from chat / tool cards.
    pub linked_file_paths: Vec<String>,
    /// Safety snapshot id for one-tap rollback from chat / work log.
    pub linked_snapshot_id: Option<String>,
}

/// A timeline row as values.
pub struct MobileTimelineItemView {
    pub id: Seq<char>,
    pub kind: MobileTimelineItemKind,
    pub status: MobileTimelineItemStatus,
    pub title: Seq<char>,
    pub body: Seq<char>,
    pub linked_file_paths: Seq<Seq<char>>,
    pub linked_snapshot_id: Option<Seq<char>>,
}

/// The view of an optional string.
pub open spec fn opt_view(o: Option<String>) -> Option<Seq<char>> {
    match o {
        Some(s) => Some(s@),
        None => None,
    }
}

impl View for MobileTimelineItem {
    type V = MobileTimelineItemView;

    open spec fn view(&self) -> MobileTimelineItemView {
        MobileTimelineItemView {
            id: self.id@,
            kind: self.kind,
            status: self.status,
            title: self.title@,
            body: self.body@,
            linked_file_paths: strings_view(self.linked_file_paths@),
            linked_snapshot_id: opt_view(self.linked_snapshot_id),
        }
    }
}

/// The views of a list of rows.
pub open spec fn items_view(v: Seq<MobileTimelineItem>) -> Seq<MobileTimelineItemView> {
    v.map_values(|i: MobileTimelineItem| i@)
}

/// A fresh row: no linked paths and no snapshot.
pub open spec fn new_item_view(
    id: Seq<char>,
    kind: MobileTimelineItemKind,
    status: MobileTimelineItemStatus,
    title: Seq<char>,
    body: Seq<char>,
) -> MobileTimelineItemView {
    MobileTimelineItemView {
        id,
        kind,
        status,
        title,
        body,
        linked_file_paths: Seq::empty(),
        linked_snapshot_id: None,
    }
}

/// The marker that opens the input part of a tool step body.
pub const TOOL_STEP_INPUT_MARKER: &'static str = "── Input ──\n";

/// The marker that opens the output part of a tool step body.
pub const TOOL_STEP_OUTPUT_MARKER: &'static str = "\n\n── Output ──\n";

/// The tool name in a `Tool: …` or `Tool result: …` title.
pub open spec fn tool_name_of_title(title: Seq<char>) -> Option<Seq<char>> {
    if starts_with(title, "Tool: "@) {
        Some(title.skip("Tool: "@.len() as int))
    } else if starts_with(title, "Tool result: "@) {
        Some(title.skip("Tool result: "@.len() as int))
    } else {
        None
    }
}

/// The id before the first `·` of a safety snapshot line, trimmed, if not empty.
pub open spec fn safety_snapshot_id_of(body: Seq<char>) -> Option<Seq<char>> {
    let token = trim(body.take(char_index(body, '·')));
    if token.len() == 0 {
        None
    } else {
        Some(token)
    }
}

/// A tool step body: the input under the input marker, then the output under the output marker.
pub open spec fn tool_step_body(input: Seq<char>, output: Seq<char>) -> Seq<char> {
    TOOL_STEP_INPUT_MARKER@ + input + TOOL_STEP_OUTPUT_MARKER@ + output
}

/// The input and output parts of a tool step body, when it has both markers.
pub open spec fn tool_step_parts(body: Seq<char>) -> Option<(Seq<char>, Seq<char>)> {
    let i = TOOL_STEP_INPUT_MARKER@;
    let o = TOOL_STEP_OUTPUT_MARKER@;
    if contains(body, i) && contains(body, o) {
        let a = first_occurrence(body, i) + i.len();
        let b = first_occurrence(body, o);
        Some((body.subrange(a, b), body.skip(b + o.len())))
    } else {
        None
    }
}

/// The body can be split: its first output marker does not start before the
/// end of its first input marker.
pub open spec fn tool_step_splittable(body: Seq<char>) -> bool {
    let i = TOOL_STEP_INPUT_MARKER@;
    let o = TOOL_STEP_OUTPUT_MARKER@;
    contains(body, i) && contains(body, o) ==> first_occurrence(body, i) + i.len()
        <= first_occurrence(body, o)
}

impl MobileTimelineItem {
    /// A row with the given fields, no linked paths and no snapshot.
    pub fn new(
        id: &str,
        kind: MobileTimelineItemKind,
        status: MobileTimelineItemStatus,
        title: &str,
        body: &str,
    ) -> (r: Self)
        ensures
            r@ == new_item_view(id@, kind, status, title@, body@),
    {
        let r = MobileTimelineItem {
            id: owned(id),
            kind,
            status,
            title: owned(title),
            body: owned(body),
            linked_file_paths: Vec::new(),
            linked_snapshot_id: None,
        };
        assert(strings_view(r.linked_file_paths@) =~= Seq::<Seq<char>>::empty());
        r
    }

    /// The safety snapshot the row refers to: its linked snapshot, or for a
    /// `Safety snapshot` row the id at the start of its body.
    pub fn snapshot_id(&self) -> (r: Option<String>)
        ensures
            opt_view(r) == (match self@.linked_snapshot_id {
                Some(id) => Some(id),
                None => if self@.title == "Safety snapshot"@ {
                    safety_snapshot_id_of(self@.body)
                } else {
                    None
                },
            }),
    {
        match &self.linked_snapshot_id {
            Some(id) => {
                return Some(id.clone());
            },
            None => {},
        }
        let label = owned("Safety snapshot");
        if self.title == label {
            return parse_safety_snapshot_id(self.body.as_str());
        }
        None
    }

    /// The row with its linked paths replaced.
    pub fn with_linked_file_paths(self, paths: Vec<String>) -> (r: Self)
        ensures
            r@ == (MobileTimelineItemView { linked_file_paths: strings_view(paths@), ..self@ }),
    {
        let mut s = self;
        s.linked_file_paths = paths;
        s
    }
}

/// The tool name in a `Tool: …` or `Tool result: …` title.
pub fn tool_name_from_step_title(title: &str) -> (r: Option<&str>)
    ensures
        match r {
            Some(n) => tool_name_of_title(title@) == Some(n@),
            None => tool_name_of_title(title@) is None,
        },
{
    let n = crate::text::unicode_len_of(title);
    if str_starts_with(title, "Tool: ") {
        let k = crate::text::unicode_len_of("Tool: ");
        proof { lemma_prefix_len(title@, "Tool: "@); }
        let r = title.substring_char(k, n);
        assert(r@ =~= title@.skip("Tool: "@.len() as int));
        Some(r)
    } else if str_starts_with(title, "Tool result: ") {
        let k = crate::text::unicode_len_of("Tool result: ");
        proof { lemma_prefix_len(title@, "Tool result: "@); }
        let r = title.substring_char(k, n);
        assert(r@ =~= title@.skip("Tool result: "@.len() as int));
        Some(r)
    } else {
        None
    }
}

proof fn lemma_prefix_len(s: Seq<char>, p: Seq<char>)
    requires
        starts_with(s, p),
    ensures
        p.len() <= s.len(),
{
}

/// The snapshot id at the start of a safety snapshot line (`snap-abc · 3 file(s) · …`).
pub fn parse_safety_snapshot_id(body: &str) -> (r: Option<String>)
    ensures
        opt_view(r) == safety_snapshot_id_of(body@),
{
    let chars = chars_of(body);
    let end = char_position(&chars, '·');
    let head = crate::text::slice_range(&chars, 0, end);
    assert(head@ == body@.take(char_index(body@, '·')));
    let token = trim_chars(&head, CharClass::Whitespace);
    assert(class_pred(CharClass::Whitespace) == (|c: char| crate::text::unicode_whitespace(c)));
    assert(token@ == trim(head@));
    if token.len() == 0 {
        None
    } else {
        Some(string_from_chars(&token))
    }
}

/// A tool step body holding `input` and `output` under their markers.
pub fn format_tool_step_with_output(input: &str, output: &str) -> (r: String)
    ensures
        r@ == tool_step_body(input@, output@),
{
    let mut r = owned(TOOL_STEP_INPUT_MARKER);
    r.append(input);
    r.append(TOOL_STEP_OUTPUT_MARKER);
    r.append(output);
    r
}

/// The input and output parts of a tool step body.
pub fn split_tool_step_body(body: &str) -> (r: Option<(&str, &str)>)
    requires
        tool_step_splittable(body@),
    ensures
        match r {
            Some((a, b)) => tool_step_parts(body@) == Some((a@, b@)),
            None => tool_step_parts(body@) is None,
        },
{
    let chars = chars_of(body);
    let im = chars_of(TOOL_STEP_INPUT_MARKER);
    let om = chars_of(TOOL_STEP_OUTPUT_MARKER);
    let i = match find(&chars, &im) {
        Some(i) => i,
        None => return None,
    };
    let o = match find(&chars, &om) {
        Some(o) => o,
        None => return None,
    };
    proof {
        lemma_first_occurrence(body@, im@, i as int);
        lemma_first_occurrence(body@, om@, o as int);
    }
    let iml = im.len();
    let oml = om.len();
    assert(i + iml <= chars.len() && o + oml <= chars.len());
    let a = i + iml;
    let b = o + oml;
    let n = chars.len();
    let input = body.substring_char(a, o);
    let output = body.substring_char(b, n);
    assert(output@ =~= body@.skip(b as int));
    Some((input, output))
}

// ---------------------------------------------------------------------------
// Linked paths
// ---------------------------------------------------------------------------
/// `existing` with each non-empty path of `more` appended, in order, unless
/// already present.
pub open spec fn merge_paths(existing: Seq<Seq<char>>, more: Seq<Seq<char>>) -> Seq<Seq<char>>
    decreases more.len(),
{
    if more.len() == 0 {
        existing
    } else {
        let m = merge_paths(existing, more.drop_last());
        let p = more.last();
        if p.len() == 0 || m.contains(p) {
            m
        } else {
            m.push(p)
        }
    }
}

fn strings_contain(v: &Vec<String>, p: &String) -> (r: bool)
    ensures
        r == strings_view(v@).contains(p@),
{
    let mut i: usize = 0;
    while i < v.len()
        invariant
            i <= v.len(),
            forall|k: int| 0 <= k < i ==> strings_view(v@)[k] != p@,
        decreases v.len() - i,
    {
        if v[i] == *p {
            assert(strings_view(v@)[i as int] == p@);
            return true;
        }
        i = i + 1;
    }
    false
}

/// Appends the non-empty paths of `more` that `existing` lacks.
fn merge_linked_paths(existing: &mut Vec<String>, more: &Vec<String>)
    ensures
        strings_view(final(existing)@) == merge_paths(strings_view(old(existing)@), strings_view(more@)),
{
    let ghost e0 = strings_view(existing@);
    let ghost mv = strings_view(more@);
    let mut i: usize = 0;
    assert(mv.take(0) =~= Seq::<Seq<char>>::empty());
    while i < more.len()
        invariant
            i <= more.len(),
            mv == strings_view(more@),
            strings_view(existing@) == merge_paths(e0, mv.take(i as int)),
        decreases more.len() - i,
    {
        assert(mv.take(i + 1).drop_last() == mv.take(i as int));
        assert(mv.take(i + 1).last() == more[i as int]@);
        let p = &more[i];
        if !p.as_str().is_empty() && !strings_contain(existing, p) {
            let ghost before = existing@;
            existing.push(p.clone());
            assert(strings_view(existing@) =~= strings_view(before).push(p@));
        }
        i = i + 1;
    }
    assert(mv.take(more.len() as int) == mv);
}

// ---------------------------------------------------------------------------
// The timeline state
// ---------------------------------------------------------------------------
/// The timeline with its row counter and the ids of the live rows.
#[derive(Clone, Debug, PartialEq, Eq)]
pub struct MobileTimelineState {
    next_id: u64,
    pub items: Vec<MobileTimelineItem>,
    live_assistant_item_id: Option<String>,
    live_reasoning_item_id: Option<String>,
    /// UI: expand «Work log» while tools / reasoning are in flight.
    pub open_worklog_hint: bool,
}

/// The timeline as values.
pub struct TimelineView {
    /// How many rows were pushed; the last generated id is `timeline-{next_id}`.
    pub next_id: nat,
    pub items: Seq<MobileTimelineItemView>,
    /// The row that streams the assistant reply.
    pub live_assistant: Option<Seq<char>>,
    /// The row that streams the model's reasoning.
    pub live_reasoning: Option<Seq<char>>,
    pub open_worklog_hint: bool,
}

impl View for MobileTimelineState {
    type V = TimelineView;

    closed spec fn view(&self) -> TimelineView {
        TimelineView {
            next_id: self.next_id as nat,
            items: items_view(self.items@),
            live_assistant: opt_view(self.live_assistant_item_id),
            live_reasoning: opt_view(self.live_reasoning_item_id),
            open_worklog_hint: self.open_worklog_hint,
        }
    }
}

/// The id that the `n`-th generated row gets.
pub open spec fn timeline_id(n: nat) -> Seq<char> {
    "timeline-"@ + decimal(n)
}

/// `i` is the first row with id `id`.
pub open spec fn is_first_with_id(items: Seq<MobileTimelineItemView>, id: Seq<char>, i: int) -> bool {
    0 <= i < items.len() && items[i].id == id && forall|k: int|
        0 <= k < i ==> (#[trigger] items[k]).id != id
}

/// The position of the first row with id `id`, or -1.
pub open spec fn id_pos(items: Seq<MobileTimelineItemView>, id: Seq<char>) -> int {
    if exists|i: int| is_first_with_id(items, id, i) {
        choose|i: int| is_first_with_id(items, id, i)
    } else {
        -1
    }
}

/// `id_pos` finds the first row with the id.
pub proof fn lemma_id_pos(items: Seq<MobileTimelineItemView>, id: Seq<char>, i: int)
    requires
        is_first_with_id(items, id, i),
    ensures
        id_pos(items, id) == i,
{
    let j = id_pos(items, id);
    assert(is_first_with_id(items, id, j));
    if j < i {
        assert(items[j].id != id);
    } else if i < j {
        assert(items[i].id != id);
    }
}

/// A row with another status.
pub open spec fn with_status(it: MobileTimelineItemView, st: MobileTimelineItemStatus) -> MobileTimelineItemView {
    MobileTimelineItemView { status: st, ..it }
}

/// The rows with the first row of id `id` (if any) given status `st`.
pub open spec fn set_status_by_id(
    items: Seq<MobileTimelineItemView>,
    id: Seq<char>,
    st: MobileTimelineItemStatus,
) -> Seq<MobileTimelineItemView> {
    let p = id_pos(items, id);
    if p >= 0 {
        items.update(p, with_status(items[p], st))
    } else {
        items
    }
}

/// The empty timeline.
pub open spec fn empty_timeline() -> TimelineView {
    TimelineView {
        next_id: 0,
        items: Seq::empty(),
        live_assistant: None,
        live_reasoning: None,
        open_worklog_hint: false,
    }
}

/// A row pushed with a generated id.
pub open spec fn push_spec(
    v: TimelineView,
    kind: MobileTimelineItemKind,
    status: MobileTimelineItemStatus,
    title: Seq<char>,
    body: Seq<char>,
) -> TimelineView {
    TimelineView {
        next_id: v.next_id + 1,
        items: v.items.push(new_item_view(timeline_id(v.next_id + 1), kind, status, title, body)),
        ..v
    }
}

/// A row pushed with a given id (the counter still advances).
pub open spec fn push_with_id_spec(
    v: TimelineView,
    id: Seq<char>,
    kind: MobileTimelineItemKind,
    status: MobileTimelineItemStatus,
    title: Seq<char>,
    body: Seq<char>,
) -> TimelineView {
    TimelineView {
        next_id: v.next_id + 1,
        items: v.items.push(new_item_view(id, kind, status, title, body)),
        ..v
    }
}

/// Linked paths merged into the first row with the given id (nothing when `paths` is empty).
pub open spec fn attach_paths_spec(v: TimelineView, id: Seq<char>, paths: Seq<Seq<char>>) -> TimelineView {
    let p = id_pos(v.items, id);
    if paths.len() == 0 || p < 0 {
        v
    } else {
        TimelineView {
            items: v.items.update(
                p,
                MobileTimelineItemView {
                    linked_file_paths: merge_paths(v.items[p].linked_file_paths, paths),
                    ..v.items[p]
                },
            ),
            ..v
        }
    }
}

/// A snapshot linked to the first row with the given id (nothing when `snapshot` is empty).
pub open spec fn attach_snapshot_spec(v: TimelineView, id: Seq<char>, snapshot: Seq<char>) -> TimelineView {
    let p = id_pos(v.items, id);
    if snapshot.len() == 0 || p < 0 {
        v
    } else {
        TimelineView {
            items: v.items.update(
                p,
                MobileTimelineItemView { linked_snapshot_id: Some(snapshot), ..v.items[p] },
            ),
            ..v
        }
    }
}

/// Ends the live reasoning row: dropped (with every row of its id) when its
/// body is blank, otherwise marked done.
pub open spec fn finish_reasoning_spec(v: TimelineView) -> TimelineView {
    match v.live_reasoning {
        Some(id) => {
            let p = id_pos(v.items, id);
            let items = if p < 0 {
                v.items
            } else if is_blank(v.items[p].body) {
                v.items.filter(|it: MobileTimelineItemView| it.id != id)
            } else {
                v.items.update(p, with_status(v.items[p], MobileTimelineItemStatus::Done))
            };
            TimelineView { items, live_reasoning: None, ..v }
        },
        None => v,
    }
}

/// Ends the live assistant row as failed.
pub open spec fn fail_assistant_spec(v: TimelineView) -> TimelineView {
    match v.live_assistant {
        Some(id) => TimelineView {
            items: set_status_by_id(v.items, id, MobileTimelineItemStatus::Failed),
            live_assistant: None,
            ..v
        },
        None => v,
    }
}

/// An agent status line that is still running.
pub open spec fn is_running_agent_status(it: MobileTimelineItemView) -> bool {
    it.kind == MobileTimelineItemKind::Status && it.status == MobileTimelineItemStatus::Running
        && it.title == "Agent status"@
}

/// Running agent status lines marked done.
pub open spec fn seal_agent_status_spec(v: TimelineView) -> TimelineView {
    TimelineView {
        items: v.items.map_values(
            |it: MobileTimelineItemView|
                if is_running_agent_status(it) {
                    with_status(it, MobileTimelineItemStatus::Done)
                } else {
                    it
                },
        ),
        ..v
    }
}

/// A work row (status, native command or tool) that is still pending or running.
pub open spec fn is_open_work_item(it: MobileTimelineItemView) -> bool {
    (it.status == MobileTimelineItemStatus::Running || it.status
        == MobileTimelineItemStatus::Pending) && (it.kind == MobileTimelineItemKind::Status
        || it.kind == MobileTimelineItemKind::NativeCommand || it.kind
        == MobileTimelineItemKind::ToolCall)
}

/// Open work rows marked done.
pub open spec fn seal_work_rows(items: Seq<MobileTimelineItemView>) -> Seq<MobileTimelineItemView> {
    items.map_values(
        |it: MobileTimelineItemView|
            if is_open_work_item(it) {
                with_status(it, MobileTimelineItemStatus::Done)
            } else {
                it
            },
    )
}

/// The number of error rows.
pub open spec fn error_count(items: Seq<MobileTimelineItemView>) -> nat {
    items.filter(|it: MobileTimelineItemView| it.kind == MobileTimelineItemKind::Error).len()
}

/// With more than two error rows, all error rows dropped.
pub open spec fn soften_errors_spec(v: TimelineView) -> TimelineView {
    if error_count(v.items) > 2 {
        TimelineView {
            items: v.items.filter(|it: MobileTimelineItemView| it.kind != MobileTimelineItemKind::Error),
            ..v
        }
    } else {
        v
    }
}

/// Only the last `max` rows kept.
pub open spec fn retain_recent_spec(v: TimelineView, max: nat) -> TimelineView {
    if v.items.len() > max {
        TimelineView { items: v.items.skip(v.items.len() - max), ..v }
    } else {
        v
    }
}


// ---------------------------------------------------------------------------
// Live rows and the paths of a turn
// ---------------------------------------------------------------------------
/// The live assistant row: the existing one, or a new running `DeepSeek response` row.
pub open spec fn start_assistant_spec(v: TimelineView) -> (TimelineView, Seq<char>) {
    match v.live_assistant {
        Some(id) => (v, id),
        None => {
            let id = timeline_id(v.next_id + 1);
            let w = push_spec(
                v,
                MobileTimelineItemKind::AssistantMessage,
                MobileTimelineItemStatus::Running,
                "DeepSeek response"@,
                ""@,
            );
            (TimelineView { live_assistant: Some(id), ..w }, id)
        },
    }
}

/// The live reasoning row: the existing one, or a new running `Reasoning` status row.
pub open spec fn start_reasoning_spec(v: TimelineView) -> (TimelineView, Seq<char>) {
    match v.live_reasoning {
        Some(id) => (v, id),
        None => {
            let id = timeline_id(v.next_id + 1);
            let w = push_spec(
                v,
                MobileTimelineItemKind::Status,
                MobileTimelineItemStatus::Running,
                "Reasoning"@,
                ""@,
            );
            (TimelineView { live_reasoning: Some(id), ..w }, id)
        },
    }
}

/// `delta` appended to the body of the first row with id `id`, which is marked running.
pub open spec fn append_to_row_spec(v: TimelineView, id: Seq<char>, delta: Seq<char>) -> TimelineView {
    let p = id_pos(v.items, id);
    if p < 0 {
        v
    } else {
        TimelineView {
            items: v.items.update(
                p,
                MobileTimelineItemView {
                    body: v.items[p].body + delta,
                    status: MobileTimelineItemStatus::Running,
                    ..v.items[p]
                },
            ),
            ..v
        }
    }
}

/// The first row of the turn that ends before `end`: the row after the last
/// user message before `end`, or the first row.
pub open spec fn turn_start(items: Seq<MobileTimelineItemView>, end: int) -> int
    decreases end,
{
    if end <= 0 {
        0
    } else if items[end - 1].kind == MobileTimelineItemKind::UserMessage {
        end
    } else {
        turn_start(items, end - 1)
    }
}

/// Rows whose title and body may name files (tools, status lines, native commands, attachments).
pub open spec fn is_work_kind(k: MobileTimelineItemKind) -> bool {
    k == MobileTimelineItemKind::ToolCall || k == MobileTimelineItemKind::Status || k
        == MobileTimelineItemKind::NativeCommand || k == MobileTimelineItemKind::Attachment
}

/// The paths that the rows of a turn contribute: their linked paths, and for
/// work rows the paths named in `title body`.
pub open spec fn turn_paths(rows: Seq<MobileTimelineItemView>) -> Seq<Seq<char>>
    decreases rows.len(),
{
    if rows.len() == 0 {
        Seq::empty()
    } else {
        let it = rows.last();
        let a = merge_paths(turn_paths(rows.drop_last()), it.linked_file_paths);
        if is_work_kind(it.kind) {
            merge_paths(a, extracted_paths(it.title + " "@ + it.body))
        } else {
            a
        }
    }
}

/// The paths linked since the last user message before row `idx`.
pub open spec fn paths_since_last_user(items: Seq<MobileTimelineItemView>, idx: int) -> Seq<Seq<char>> {
    turn_paths(items.subrange(turn_start(items, idx), idx))
}

/// The first row with id `id` gains the paths named in its body and those of its turn.
pub open spec fn enrich_spec(v: TimelineView, id: Seq<char>) -> TimelineView {
    let p = id_pos(v.items, id);
    if p < 0 {
        v
    } else {
        let it = v.items[p];
        let paths = merge_paths(extracted_paths(it.body), paths_since_last_user(v.items, p));
        TimelineView {
            items: v.items.update(
                p,
                MobileTimelineItemView {
                    linked_file_paths: merge_paths(it.linked_file_paths, paths),
                    ..it
                },
            ),
            ..v
        }
    }
}

/// Ends the live assistant row (done, enriched with paths), then the live reasoning row.
pub open spec fn finish_assistant_spec(v: TimelineView) -> TimelineView {
    let w = match v.live_assistant {
        Some(id) => enrich_spec(
            TimelineView {
                items: set_status_by_id(v.items, id, MobileTimelineItemStatus::Done),
                live_assistant: None,
                ..v
            },
            id,
        ),
        None => v,
    };
    finish_reasoning_spec(w)
}

/// A finished `DeepSeek response` row, enriched with the paths of its turn.
pub open spec fn push_assistant_spec(v: TimelineView, body: Seq<char>) -> TimelineView {
    let w = push_spec(
        v,
        MobileTimelineItemKind::AssistantMessage,
        MobileTimelineItemStatus::Done,
        "DeepSeek response"@,
        body,
    );
    enrich_spec(TimelineView { live_assistant: None, ..w }, timeline_id(v.next_id + 1))
}


// ---------------------------------------------------------------------------
// Tool rows, compaction and replies
// ---------------------------------------------------------------------------
/// `i` is the last row that satisfies `pred`.
pub open spec fn is_last_where(
    items: Seq<MobileTimelineItemView>,
    pred: spec_fn(MobileTimelineItemView) -> bool,
    i: int,
) -> bool {
    0 <= i < items.len() && pred(items[i]) && forall|k: int|
        i < k < items.len() ==> !pred(#[trigger] items[k])
}

/// The position of the last row that satisfies `pred`, or -1.
pub open spec fn last_where(
    items: Seq<MobileTimelineItemView>,
    pred: spec_fn(MobileTimelineItemView) -> bool,
) -> int {
    if exists|i: int| is_last_where(items, pred, i) {
        choose|i: int| is_last_where(items, pred, i)
    } else {
        -1
    }
}

proof fn lemma_last_where(
    items: Seq<MobileTimelineItemView>,
    pred: spec_fn(MobileTimelineItemView) -> bool,
    i: int,
)
    requires
        is_last_where(items, pred, i),
    ensures
        last_where(items, pred) == i,
{
    let j = last_where(items, pred);
    assert(is_last_where(items, pred, j));
    if j < i {
        assert(!pred(items[i]));
    } else if i < j {
        assert(!pred(items[j]));
    }
}

/// A running tool row with the given title.
pub open spec fn running_tool_titled(title: Seq<char>) -> spec_fn(MobileTimelineItemView) -> bool {
    |it: MobileTimelineItemView|
        it.kind == MobileTimelineItemKind::ToolCall && it.status == MobileTimelineItemStatus::Running
            && it.title == title
}

/// An assistant message row.
pub open spec fn assistant_row() -> spec_fn(MobileTimelineItemView) -> bool {
    |it: MobileTimelineItemView| it.kind == MobileTimelineItemKind::AssistantMessage
}

/// The last running `Tool: {name}` row marked done.
pub open spec fn seal_tool_spec(v: TimelineView, name: Seq<char>) -> TimelineView {
    let i = last_where(v.items, running_tool_titled("Tool: "@ + name));
    if i < 0 {
        v
    } else {
        TimelineView {
            items: v.items.update(i, with_status(v.items[i], MobileTimelineItemStatus::Done)),
            ..v
        }
    }
}

/// The tool output merged into the last running `Tool: {name}` row (by its
/// id), which ends done or failed and gains the given paths; the id is returned.
pub open spec fn complete_tool_spec(
    v: TimelineView,
    name: Seq<char>,
    success: bool,
    output: Seq<char>,
    paths: Seq<Seq<char>>,
) -> (TimelineView, Option<Seq<char>>) {
    let i = last_where(v.items, running_tool_titled("Tool: "@ + name));
    if i < 0 {
        (v, None)
    } else {
        let id = v.items[i].id;
        let p = id_pos(v.items, id);
        let w = TimelineView {
            items: v.items.update(
                p,
                MobileTimelineItemView {
                    body: tool_step_body(v.items[p].body, output),
                    status: if success {
                        MobileTimelineItemStatus::Done
                    } else {
                        MobileTimelineItemStatus::Failed
                    },
                    ..v.items[p]
                },
            ),
            ..v
        };
        (attach_paths_spec(w, id, paths), Some(id))
    }
}

/// A legacy `Tool result: x` row that belongs to the `Tool: x` row before it.
pub open spec fn tool_result_merges(call: MobileTimelineItemView, result: MobileTimelineItemView) -> bool {
    &&& call.kind == MobileTimelineItemKind::ToolCall
    &&& result.kind == MobileTimelineItemKind::ToolCall
    &&& tool_name_of_title(call.title) is Some
    &&& tool_name_of_title(result.title) is Some
    &&& !starts_with(call.title, "Tool result:"@)
    &&& starts_with(result.title, "Tool result:"@)
    &&& tool_name_of_title(call.title) == tool_name_of_title(result.title)
}

/// The tool row with the result row's body as output, its status and its paths.
pub open spec fn merged_tool_row(call: MobileTimelineItemView, result: MobileTimelineItemView) -> MobileTimelineItemView {
    MobileTimelineItemView {
        body: tool_step_body(call.body, result.body),
        status: result.status,
        linked_file_paths: merge_paths(call.linked_file_paths, result.linked_file_paths),
        ..call
    }
}

/// A `Reasoning` status row.
pub open spec fn is_reasoning_row(it: MobileTimelineItemView) -> bool {
    it.kind == MobileTimelineItemKind::Status && it.title == "Reasoning"@
}

/// Consecutive reasoning rows joined into one, and tool result rows folded
/// into the tool row before them.
pub open spec fn merge_rows(items: Seq<MobileTimelineItemView>) -> Seq<MobileTimelineItemView>
    decreases items.len(),
{
    if items.len() == 0 {
        Seq::empty()
    } else {
        let m = merge_rows(items.drop_last());
        let it = items.last();
        if m.len() > 0 && is_reasoning_row(m.last()) && is_reasoning_row(it) {
            m.update(
                m.len() - 1,
                MobileTimelineItemView { body: m.last().body + it.body, status: it.status, ..m.last() },
            )
        } else if m.len() > 0 && tool_result_merges(m.last(), it) {
            m.update(m.len() - 1, merged_tool_row(m.last(), it))
        } else {
            m.push(it)
        }
    }
}

/// An assistant reply that is only the `PROBE_OK` answer of a connectivity probe.
pub open spec fn is_probe_reply(it: MobileTimelineItemView) -> bool {
    it.kind == MobileTimelineItemKind::AssistantMessage && trim(it.body) == "PROBE_OK"@
}

/// Probe replies dropped, rows merged, no live rows.
pub open spec fn compact_spec(v: TimelineView) -> TimelineView {
    TimelineView {
        items: merge_rows(v.items.filter(|it: MobileTimelineItemView| !is_probe_reply(it))),
        live_assistant: None,
        live_reasoning: None,
        ..v
    }
}

/// The trimmed reply made visible: it fills (or just finishes) the live
/// assistant row, or the last assistant row when that is blank or overlaps
/// the reply, or else is pushed as a new assistant message.
pub open spec fn publish_reply_spec(v: TimelineView, text: Seq<char>) -> TimelineView {
    let t = trim(text);
    if t.len() == 0 {
        v
    } else {
        match v.live_assistant {
            Some(id) => {
                let p = id_pos(v.items, id);
                let items = if p < 0 {
                    v.items
                } else {
                    v.items.update(
                        p,
                        MobileTimelineItemView {
                            body: if is_blank(v.items[p].body) { t } else { v.items[p].body },
                            status: MobileTimelineItemStatus::Done,
                            ..v.items[p]
                        },
                    )
                };
                TimelineView { items, live_assistant: None, ..v }
            },
            None => {
                let i = last_where(v.items, assistant_row());
                if i >= 0 && is_blank(v.items[i].body) {
                    TimelineView {
                        items: v.items.update(
                            i,
                            MobileTimelineItemView {
                                body: t,
                                status: MobileTimelineItemStatus::Done,
                                ..v.items[i]
                            },
                        ),
                        ..v
                    }
                } else if i >= 0 && (contains(v.items[i].body, t) || contains(t, v.items[i].body)) {
                    TimelineView {
                        items: v.items.update(i, with_status(v.items[i], MobileTimelineItemStatus::Done)),
                        ..v
                    }
                } else {
                    push_assistant_spec(v, t)
                }
            },
        }
    }
}

/// A lower-cased status line that reports a finished turn.
pub open spec fn is_terminal_status_text(lower: Seq<char>) -> bool {
    contains(lower, "готово"@) || contains(lower, "finished"@) || contains(lower, "completed"@)
        || contains(lower, "turn finished"@) || contains(lower, "approval continuation finished"@)
        || contains(lower, "калибровка termux завершена"@) || contains(lower, "termux result injected"@)
        || starts_with(lower, "done ·"@)
}

/// The short English label of a row kind.
pub open spec fn kind_label(kind: MobileTimelineItemKind) -> Seq<char> {
    match kind {
        MobileTimelineItemKind::UserMessage => "USER"@,
        MobileTimelineItemKind::AssistantMessage => "AI"@,
        MobileTimelineItemKind::Attachment => "FILE"@,
        MobileTimelineItemKind::NativeCommand => "NATIVE"@,
        MobileTimelineItemKind::ToolCall => "TOOL"@,
        MobileTimelineItemKind::Approval => "APPROVAL"@,
        MobileTimelineItemKind::Status => "STATUS"@,
        MobileTimelineItemKind::Error => "ERROR"@,
    }
}

/// The short English label of a row status.
pub open spec fn status_label(status: MobileTimelineItemStatus) -> Seq<char> {
    match status {
        MobileTimelineItemStatus::Pending => "pending"@,
        MobileTimelineItemStatus::Running => "running"@,
        MobileTimelineItemStatus::Done => "done"@,
        MobileTimelineItemStatus::Failed => "failed"@,
        MobileTimelineItemStatus::WaitingForApproval => "approval"@,
    }
}

/// Which rows a filtering pass keeps.
pub enum RowRule {
    /// Rows whose id differs from this one.
    OtherId(String),
    /// Rows that are not errors.
    NotError,
    /// Rows that are not `PROBE_OK` probe replies.
    NotProbeReply,
}

/// Whether `rule` keeps `it`.
pub open spec fn rule_keeps(rule: RowRule, it: MobileTimelineItemView) -> bool {
    match rule {
        RowRule::OtherId(id) => it.id != id@,
        RowRule::NotError => it.kind != MobileTimelineItemKind::Error,
        RowRule::NotProbeReply => !is_probe_reply(it),
    }
}

// ---------------------------------------------------------------------------
// Row-level steps
// ---------------------------------------------------------------------------
proof fn lemma_items_view_update(v: Seq<MobileTimelineItem>, i: int, x: MobileTimelineItem)
    requires
        0 <= i < v.len(),
    ensures
        items_view(v.remove(i).insert(i, x)) == items_view(v).update(i, x@),
{
    assert(items_view(v.remove(i).insert(i, x)) =~= items_view(v).update(i, x@));
}

/// The position of the first row with id `id`.
fn id_position(items: &Vec<MobileTimelineItem>, id: &str) -> (r: Option<usize>)
    ensures
        match r {
            Some(i) => is_first_with_id(items_view(items@), id@, i as int) && id_pos(
                items_view(items@),
                id@,
            ) == i,
            None => id_pos(items_view(items@), id@) == -1 && forall|k: int|
                0 <= k < items@.len() ==> (#[trigger] items_view(items@)[k]).id != id@,
        },
{
    let ghost iv = items_view(items@);
    let mut i: usize = 0;
    while i < items.len()
        invariant
            i <= items.len(),
            iv == items_view(items@),
            forall|k: int| 0 <= k < i ==> (#[trigger] iv[k]).id != id@,
        decreases items.len() - i,
    {
        if crate::text::str_eq(items[i].id.as_str(), id) {
            assert(is_first_with_id(iv, id@, i as int));
            proof {
                lemma_id_pos(iv, id@, i as int);
            }
            return Some(i);
        }
        i = i + 1;
    }
    assert(!exists|j: int| is_first_with_id(iv, id@, j));
    None
}

/// Gives the row at `i` status `st`.
fn set_status_at(items: &mut Vec<MobileTimelineItem>, i: usize, st: MobileTimelineItemStatus)
    requires
        i < old(items).len(),
    ensures
        final(items)@.len() == old(items)@.len(),
        items_view(final(items)@) == items_view(old(items)@).update(
            i as int,
            with_status(items_view(old(items)@)[i as int], st),
        ),
{
    let ghost v = items@;
    let mut it = items.remove(i);
    it.status = st;
    items.insert(i, it);
    proof {
        lemma_items_view_update(v, i as int, it);
    }
}

fn seal_agent_status_rows(items: &mut Vec<MobileTimelineItem>)
    ensures
        items_view(final(items)@) == items_view(old(items)@).map_values(
            |it: MobileTimelineItemView|
                if is_running_agent_status(it) {
                    with_status(it, MobileTimelineItemStatus::Done)
                } else {
                    it
                },
        ),
{
    let ghost v0 = items_view(items@);
    let label = owned("Agent status");
    let mut i: usize = 0;
    while i < items.len()
        invariant
            i <= items.len(),
            items.len() == v0.len(),
            label@ == "Agent status"@,
            forall|k: int|
                0 <= k < i ==> #[trigger] items_view(items@)[k] == (if is_running_agent_status(
                    v0[k],
                ) {
                    with_status(v0[k], MobileTimelineItemStatus::Done)
                } else {
                    v0[k]
                }),
            forall|k: int| i <= k < v0.len() ==> #[trigger] items_view(items@)[k] == v0[k],
        decreases items.len() - i,
    {
        if items[i].kind == MobileTimelineItemKind::Status && items[i].status
            == MobileTimelineItemStatus::Running && items[i].title == label {
            set_status_at(items, i, MobileTimelineItemStatus::Done);
        }
        i = i + 1;
    }
    assert(items_view(items@) =~= v0.map_values(
        |it: MobileTimelineItemView|
            if is_running_agent_status(it) {
                with_status(it, MobileTimelineItemStatus::Done)
            } else {
                it
            },
    ));
}


/// Appends `delta` to the body of the row at `i` and marks it running.
fn append_at(items: &mut Vec<MobileTimelineItem>, i: usize, delta: &str)
    requires
        i < old(items).len(),
    ensures
        final(items)@.len() == old(items)@.len(),
        items_view(final(items)@) == items_view(old(items)@).update(
            i as int,
            MobileTimelineItemView {
                body: items_view(old(items)@)[i as int].body + delta@,
                status: MobileTimelineItemStatus::Running,
                ..items_view(old(items)@)[i as int]
            },
        ),
{
    let ghost v = items@;
    let mut it = items.remove(i);
    it.body.append(delta);
    it.status = MobileTimelineItemStatus::Running;
    items.insert(i, it);
    proof {
        lemma_items_view_update(v, i as int, it);
    }
}

/// The paths that the rows since the last user message before `assistant_index` link or name.
fn linked_paths_since_last_user_message(items: &Vec<MobileTimelineItem>, assistant_index: usize) -> (r: Vec<String>)
    requires
        assistant_index <= items.len(),
    ensures
        strings_view(r@) == paths_since_last_user(items_view(items@), assistant_index as int),
{
    let ghost iv = items_view(items@);
    let mut start = assistant_index;
    while start > 0 && items[start - 1].kind != MobileTimelineItemKind::UserMessage
        invariant
            start <= assistant_index <= items.len(),
            iv == items_view(items@),
            turn_start(iv, assistant_index as int) == turn_start(iv, start as int),
        decreases start,
    {
        start = start - 1;
    }
    let mut paths: Vec<String> = Vec::new();
    let mut k = start;
    assert(iv.subrange(start as int, start as int) =~= Seq::<MobileTimelineItemView>::empty());
    assert(strings_view(paths@) =~= Seq::<Seq<char>>::empty());
    while k < assistant_index
        invariant
            start <= k <= assistant_index <= items.len(),
            iv == items_view(items@),
            turn_start(iv, assistant_index as int) == start,
            strings_view(paths@) == turn_paths(iv.subrange(start as int, k as int)),
        decreases assistant_index - k,
    {
        let ghost sub = iv.subrange(start as int, k + 1);
        assert(sub.drop_last() == iv.subrange(start as int, k as int));
        assert(sub.last() == items@[k as int]@);
        let item = &items[k];
        merge_linked_paths(&mut paths, &item.linked_file_paths);
        match item.kind {
            MobileTimelineItemKind::ToolCall | MobileTimelineItemKind::Status
            | MobileTimelineItemKind::NativeCommand | MobileTimelineItemKind::Attachment => {
                let mut text = item.title.clone();
                text.append(" ");
                text.append(item.body.as_str());
                let named = extract_paths_from_text(text.as_str());
                merge_linked_paths(&mut paths, &named);
            },
            _ => {},
        }
        k = k + 1;
    }
    paths
}


fn row_kept(rule: &RowRule, it: &MobileTimelineItem) -> (r: bool)
    ensures
        r == rule_keeps(*rule, it@),
{
    match rule {
        RowRule::OtherId(id) => !(it.id == *id),
        RowRule::NotError => it.kind != MobileTimelineItemKind::Error,
        RowRule::NotProbeReply => {
            if it.kind != MobileTimelineItemKind::AssistantMessage {
                return true;
            }
            let t = crate::text::trim_str(it.body.as_str());
            !crate::text::str_eq(t.as_str(), "PROBE_OK")
        },
    }
}

/// Keeps, in order, the rows that `rule` keeps.
fn filter_rows(items: &mut Vec<MobileTimelineItem>, rule: &RowRule)
    ensures
        items_view(final(items)@) == items_view(old(items)@).filter(
            |it: MobileTimelineItemView| rule_keeps(*rule, it),
        ),
{
    let ghost f = |it: MobileTimelineItemView| rule_keeps(*rule, it);
    let ghost iv = items_view(items@);
    let mut rest: Vec<MobileTimelineItem> = Vec::new();
    std::mem::swap(&mut rest, items);
    assert(items_view(rest@) == iv);
    let mut kept: Vec<MobileTimelineItem> = Vec::new();
    let ghost mut i: int = 0;
    assert(iv.take(0).filter(f) =~= Seq::<MobileTimelineItemView>::empty());
    assert(items_view(kept@) =~= Seq::<MobileTimelineItemView>::empty());
    while rest.len() > 0
        invariant
            0 <= i <= iv.len(),
            rest@.len() == iv.len() - i,
            items_view(rest@) == iv.skip(i),
            items_view(kept@) == iv.take(i).filter(f),
            f == (|it: MobileTimelineItemView| rule_keeps(*rule, it)),
        decreases rest.len(),
    {
        let ghost before_rest = rest@;
        let it = rest.remove(0);
        assert(it == before_rest[0]);
        assert(items_view(before_rest)[0] == before_rest[0]@);
        assert(items_view(before_rest)[0] == iv.skip(i)[0]);
        assert(it@ == iv[i]);
        assert(rest@ == before_rest.remove(0));
        assert forall|k: int| 0 <= k < rest@.len() implies #[trigger] items_view(rest@)[k] == iv.skip(i + 1)[k] by {
            assert(rest@[k] == before_rest[k + 1]);
            assert(items_view(before_rest)[k + 1] == iv.skip(i)[k + 1]);
        }
        assert(items_view(rest@) =~= iv.skip(i + 1));
        reveal_with_fuel(Seq::filter, 1);
        assert(iv.take(i + 1).drop_last() == iv.take(i));
        assert(iv.take(i + 1).last() == iv[i]);
        if row_kept(rule, &it) {
            let ghost before = kept@;
            kept.push(it);
            assert(items_view(kept@) =~= items_view(before).push(it@));
        }
        proof {
            i = i + 1;
        }
    }
    assert(iv.take(i) == iv);
    *items = kept;
}

/// The position of the last running tool row titled `title`.
fn last_running_tool(items: &Vec<MobileTimelineItem>, title: &String) -> (r: Option<usize>)
    ensures
        match r {
            Some(i) => last_where(items_view(items@), running_tool_titled(title@)) == i
                && is_last_where(items_view(items@), running_tool_titled(title@), i as int),
            None => last_where(items_view(items@), running_tool_titled(title@)) == -1,
        },
{
    let ghost iv = items_view(items@);
    let ghost pred = running_tool_titled(title@);
    let mut i = items.len();
    while i > 0
        invariant
            i <= items.len(),
            iv == items_view(items@),
            pred == running_tool_titled(title@),
            forall|k: int| i <= k < iv.len() ==> !pred(#[trigger] iv[k]),
        decreases i,
    {
        i = i - 1;
        let it = &items[i];
        if it.kind == MobileTimelineItemKind::ToolCall && it.status == MobileTimelineItemStatus::Running
            && it.title == *title {
            assert(pred(iv[i as int]));
            assert(is_last_where(iv, pred, i as int));
            proof {
                lemma_last_where(iv, pred, i as int);
            }
            return Some(i);
        }
    }
    assert(!exists|j: int| is_last_where(iv, pred, j));
    None
}

/// The position of the last assistant row.
fn last_assistant(items: &Vec<MobileTimelineItem>) -> (r: Option<usize>)
    ensures
        match r {
            Some(i) => last_where(items_view(items@), assistant_row()) == i && i < items@.len(),
            None => last_where(items_view(items@), assistant_row()) == -1,
        },
{
    let ghost iv = items_view(items@);
    let ghost pred = assistant_row();
    let mut i = items.len();
    while i > 0
        invariant
            i <= items.len(),
            iv == items_view(items@),
            pred == assistant_row(),
            forall|k: int| i <= k < iv.len() ==> !pred(#[trigger] iv[k]),
        decreases i,
    {
        i = i - 1;
        if items[i].kind == MobileTimelineItemKind::AssistantMessage {
            assert(pred(iv[i as int]));
            proof {
                lemma_last_where(iv, pred, i as int);
            }
            return Some(i);
        }
    }
    assert(!exists|j: int| is_last_where(iv, pred, j));
    None
}

/// Folds a legacy tool result row into the tool row before it; whether it did.
fn merge_tool_result_into_call(call: &mut MobileTimelineItem, result: &MobileTimelineItem) -> (r: bool)
    ensures
        r == tool_result_merges(old(call)@, result@),
        final(call)@ == (if r { merged_tool_row(old(call)@, result@) } else { old(call)@ }),
{
    if call.kind != MobileTimelineItemKind::ToolCall || result.kind != MobileTimelineItemKind::ToolCall {
        return false;
    }
    let call_name = match tool_name_from_step_title(call.title.as_str()) {
        Some(n) => owned(n),
        None => return false,
    };
    let result_name = match tool_name_from_step_title(result.title.as_str()) {
        Some(n) => owned(n),
        None => return false,
    };
    if str_starts_with(call.title.as_str(), "Tool result:") || !str_starts_with(
        result.title.as_str(),
        "Tool result:",
    ) {
        return false;
    }
    if !(call_name == result_name) {
        return false;
    }
    let body = format_tool_step_with_output(call.body.as_str(), result.body.as_str());
    call.body = body;
    call.status = result.status;
    merge_linked_paths(&mut call.linked_file_paths, &result.linked_file_paths);
    true
}


fn seal_open_rows(items: &mut Vec<MobileTimelineItem>)
    ensures
        items_view(final(items)@) == seal_work_rows(items_view(old(items)@)),
{
    let ghost v0 = items_view(items@);
    let mut i: usize = 0;
    while i < items.len()
        invariant
            i <= items.len(),
            items.len() == v0.len(),
            forall|k: int|
                0 <= k < i ==> #[trigger] items_view(items@)[k] == (if is_open_work_item(v0[k]) {
                    with_status(v0[k], MobileTimelineItemStatus::Done)
                } else {
                    v0[k]
                }),
            forall|k: int| i <= k < v0.len() ==> #[trigger] items_view(items@)[k] == v0[k],
        decreases items.len() - i,
    {
        let open_status = items[i].status == MobileTimelineItemStatus::Running || items[i].status
            == MobileTimelineItemStatus::Pending;
        let work_kind = items[i].kind == MobileTimelineItemKind::Status || items[i].kind
            == MobileTimelineItemKind::NativeCommand || items[i].kind == MobileTimelineItemKind::ToolCall;
        if open_status && work_kind {
            set_status_at(items, i, MobileTimelineItemStatus::Done);
        }
        i = i + 1;
    }
    assert(items_view(items@) =~= seal_work_rows(v0));
}

fn count_error_rows(items: &Vec<MobileTimelineItem>) -> (r: usize)
    ensures
        r as nat == error_count(items_view(items@)),
{
    let ghost iv = items_view(items@);
    let ghost f = |it: MobileTimelineItemView| it.kind == MobileTimelineItemKind::Error;
    let mut n: usize = 0;
    let mut i: usize = 0;
    assert(iv.take(0).filter(f) =~= Seq::<MobileTimelineItemView>::empty());
    while i < items.len()
        invariant
            i <= items.len(),
            iv == items_view(items@),
            f == (|it: MobileTimelineItemView| it.kind == MobileTimelineItemKind::Error),
            n as nat == iv.take(i as int).filter(f).len(),
            n <= i,
        decreases items.len() - i,
    {
        reveal_with_fuel(Seq::filter, 1);
        assert(iv.take(i + 1).drop_last() == iv.take(i as int));
        assert(iv.take(i + 1).last() == iv[i as int]);
        if items[i].kind == MobileTimelineItemKind::Error {
            n = n + 1;
        }
        i = i + 1;
    }
    assert(iv.take(items.len() as int) == iv);
    n
}

/// Joins consecutive reasoning rows and folds tool result rows into their tool rows.
fn merge_adjacent_rows(items: &mut Vec<MobileTimelineItem>)
    ensures
        items_view(final(items)@) == merge_rows(items_view(old(items)@)),
{
    let ghost iv = items_view(items@);
    let mut rest: Vec<MobileTimelineItem> = Vec::new();
    std::mem::swap(&mut rest, items);
    assert(items_view(rest@) == iv);
    let mut merged: Vec<MobileTimelineItem> = Vec::new();
    let ghost mut i: int = 0;
    assert(iv.take(0) =~= Seq::<MobileTimelineItemView>::empty());
    assert(items_view(merged@) =~= Seq::<MobileTimelineItemView>::empty());
    let reasoning = owned("Reasoning");
    while rest.len() > 0
        invariant
            0 <= i <= iv.len(),
            rest@.len() == iv.len() - i,
            items_view(rest@) == iv.skip(i),
            items_view(merged@) == merge_rows(iv.take(i)),
            reasoning@ == "Reasoning"@,
        decreases rest.len(),
    {
        let ghost before_rest = rest@;
        let it = rest.remove(0);
        assert(it == before_rest[0]);
        assert(items_view(before_rest)[0] == before_rest[0]@);
        assert(items_view(before_rest)[0] == iv.skip(i)[0]);
        assert(it@ == iv[i]);
        assert(rest@ == before_rest.remove(0));
        assert forall|k: int| 0 <= k < rest@.len() implies #[trigger] items_view(rest@)[k] == iv.skip(i + 1)[k] by {
            assert(rest@[k] == before_rest[k + 1]);
            assert(items_view(before_rest)[k + 1] == iv.skip(i)[k + 1]);
        }
        assert(items_view(rest@) =~= iv.skip(i + 1));
        assert(iv.take(i + 1).drop_last() == iv.take(i));
        assert(iv.take(i + 1).last() == iv[i]);
        let ghost m = items_view(merged@);
        let n = merged.len();
        if n > 0 {
            let last_is_reasoning = merged[n - 1].kind == MobileTimelineItemKind::Status
                && merged[n - 1].title == reasoning;
            let it_is_reasoning = it.kind == MobileTimelineItemKind::Status && it.title == reasoning;
            if last_is_reasoning && it_is_reasoning {
                let ghost mv = merged@;
                let mut last = merged.pop().unwrap();
                last.body.append(it.body.as_str());
                last.status = it.status;
                merged.push(last);
                assert(items_view(merged@) =~= m.update(
                    m.len() - 1,
                    MobileTimelineItemView { body: m.last().body + it@.body, status: it@.status, ..m.last() },
                ));
                proof {
                    i = i + 1;
                }
                continue;
            }
            let ghost mv = merged@;
            let mut last = merged.pop().unwrap();
            assert(last@ == m.last());
            let folded = merge_tool_result_into_call(&mut last, &it);
            merged.push(last);
            if folded {
                assert(items_view(merged@) =~= m.update(m.len() - 1, merged_tool_row(m.last(), it@)));
                proof {
                    i = i + 1;
                }
                continue;
            }
            assert(items_view(merged@) =~= m);
        }
        let ghost before = merged@;
        merged.push(it);
        assert(items_view(merged@) =~= items_view(before).push(it@));
        proof {
            i = i + 1;
        }
    }
    assert(iv.take(i) == iv);
    *items = merged;
}

impl Default for MobileTimelineState {
    fn default() -> (r: Self)
        ensures
            r@ == empty_timeline(),
    {
        let r = MobileTimelineState {
            next_id: 0,
            items: Vec::new(),
            live_assistant_item_id: None,
            live_reasoning_item_id: None,
            open_worklog_hint: false,
        };
        assert(items_view(r.items@) =~= Seq::<MobileTimelineItemView>::empty());
        r
    }
}

impl MobileTimelineState {
    /// Appends a row with the next generated id (`timeline-{n}`) and returns that id.
    pub fn push(
        &mut self,
        kind: MobileTimelineItemKind,
        status: MobileTimelineItemStatus,
        title: &str,
        body: &str,
    ) -> (id: String)
        requires
            old(self)@.next_id < u64::MAX,
        ensures
            id@ == timeline_id(old(self)@.next_id + 1),
            final(self)@ == push_spec(old(self)@, kind, status, title@, body@),
    {
        self.next_id = self.next_id + 1;
        let mut id = owned("timeline-");
        push_decimal(&mut id, self.next_id as u128);
        let item = MobileTimelineItem::new(id.as_str(), kind, status, title, body);
        let ghost before = self.items@;
        self.items.push(item);
        assert(items_view(self.items@) =~= items_view(before).push(item@));
        id
    }

    /// Appends a row with a stable id (e.g. an approval request id for inline UI wiring).
    pub fn push_with_id(
        &mut self,
        id: &str,
        kind: MobileTimelineItemKind,
        status: MobileTimelineItemStatus,
        title: &str,
        body: &str,
    ) -> (r: String)
        requires
            old(self)@.next_id < u64::MAX,
        ensures
            r@ == id@,
            final(self)@ == push_with_id_spec(old(self)@, id@, kind, status, title@, body@),
    {
        self.next_id = self.next_id + 1;
        let item = MobileTimelineItem::new(id, kind, status, title, body);
        let ghost before = self.items@;
        self.items.push(item);
        assert(items_view(self.items@) =~= items_view(before).push(item@));
        owned(id)
    }


    /// Attaches to an assistant row the file paths named in its text and
    /// those of the tool and status rows of its turn.
    pub fn enrich_assistant_file_links(&mut self, assistant_id: &str)
        ensures
            final(self)@ == enrich_spec(old(self)@, assistant_id@),
    {
        let i = match id_position(&self.items, assistant_id) {
            Some(i) => i,
            None => return,
        };
        let body = self.items[i].body.clone();
        let mut paths = extract_paths_from_text(body.as_str());
        let since = linked_paths_since_last_user_message(&self.items, i);
        merge_linked_paths(&mut paths, &since);
        let ghost v = self.items@;
        let mut it = self.items.remove(i);
        merge_linked_paths(&mut it.linked_file_paths, &paths);
        self.items.insert(i, it);
        proof {
            lemma_items_view_update(v, i as int, it);
        }
    }

    /// The id of the live assistant row, starting a running one if there is none.
    pub fn start_live_assistant_message(&mut self) -> (r: String)
        requires
            old(self)@.live_assistant is None ==> old(self)@.next_id < u64::MAX,
        ensures
            (final(self)@, r@) == start_assistant_spec(old(self)@),
    {
        match &self.live_assistant_item_id {
            Some(id) => {
                return id.clone();
            },
            None => {},
        }
        let ghost v0 = self@;
        let id = self.push(
            MobileTimelineItemKind::AssistantMessage,
            MobileTimelineItemStatus::Running,
            "DeepSeek response",
            "",
        );
        self.live_assistant_item_id = Some(id.clone());
        assert(self@ == start_assistant_spec(v0).0);
        id
    }

    /// Appends streamed text to the live assistant row (started if needed) and returns its id.
    pub fn append_live_assistant_delta(&mut self, delta: &str) -> (r: String)
        requires
            old(self)@.live_assistant is None ==> old(self)@.next_id < u64::MAX,
        ensures
            r@ == start_assistant_spec(old(self)@).1,
            final(self)@ == append_to_row_spec(
                start_assistant_spec(old(self)@).0,
                start_assistant_spec(old(self)@).1,
                delta@,
            ),
    {
        let id = self.start_live_assistant_message();
        match id_position(&self.items, id.as_str()) {
            Some(i) => append_at(&mut self.items, i, delta),
            None => {},
        }
        id
    }

    /// Ends the live assistant row as done (with the paths of its turn), then
    /// the live reasoning row.
    pub fn finish_live_assistant_message(&mut self)
        ensures
            final(self)@ == finish_assistant_spec(old(self)@),
    {
        let live = self.live_assistant_item_id.take();
        match live {
            Some(id) => {
                match id_position(&self.items, id.as_str()) {
                    Some(i) => set_status_at(&mut self.items, i, MobileTimelineItemStatus::Done),
                    None => {},
                }
                self.enrich_assistant_file_links(id.as_str());
            },
            None => {},
        }
        self.finish_live_reasoning();
    }

    /// Ends the live assistant row, then appends a user message.
    pub fn push_user_message(&mut self, body: &str) -> (r: String)
        requires
            old(self)@.next_id < u64::MAX,
        ensures
            r@ == timeline_id(old(self)@.next_id + 1),
            final(self)@ == push_spec(
                finish_assistant_spec(old(self)@),
                MobileTimelineItemKind::UserMessage,
                MobileTimelineItemStatus::Done,
                "User message"@,
                body@,
            ),
    {
        self.finish_live_assistant_message();
        self.push(
            MobileTimelineItemKind::UserMessage,
            MobileTimelineItemStatus::Done,
            "User message",
            body,
        )
    }

    /// Appends a finished assistant reply, enriched with the paths of its turn;
    /// there is no live assistant row afterwards.
    pub fn push_assistant_message(&mut self, body: &str) -> (r: String)
        requires
            old(self)@.next_id < u64::MAX,
        ensures
            r@ == timeline_id(old(self)@.next_id + 1),
            final(self)@ == push_assistant_spec(old(self)@, body@),
    {
        let id = self.push(
            MobileTimelineItemKind::AssistantMessage,
            MobileTimelineItemStatus::Done,
            "DeepSeek response",
            body,
        );
        self.live_assistant_item_id = None;
        self.enrich_assistant_file_links(id.as_str());
        id
    }

    fn start_live_reasoning(&mut self) -> (r: String)
        requires
            old(self)@.live_reasoning is None ==> old(self)@.next_id < u64::MAX,
        ensures
            (final(self)@, r@) == start_reasoning_spec(old(self)@),
    {
        match &self.live_reasoning_item_id {
            Some(id) => {
                return id.clone();
            },
            None => {},
        }
        let ghost v0 = self@;
        let id = self.push(
            MobileTimelineItemKind::Status,
            MobileTimelineItemStatus::Running,
            "Reasoning",
            "",
        );
        self.live_reasoning_item_id = Some(id.clone());
        assert(self@ == start_reasoning_spec(v0).0);
        id
    }

    /// Appends streamed reasoning to the live reasoning row (started if
    /// needed) and returns its id; an empty delta only ensures the row exists.
    pub fn append_live_reasoning_delta(&mut self, delta: &str) -> (r: String)
        requires
            old(self)@.live_reasoning is None ==> old(self)@.next_id < u64::MAX,
        ensures
            r@ == start_reasoning_spec(old(self)@).1,
            final(self)@ == (if delta@.len() == 0 {
                start_reasoning_spec(old(self)@).0
            } else {
                append_to_row_spec(
                    start_reasoning_spec(old(self)@).0,
                    start_reasoning_spec(old(self)@).1,
                    delta@,
                )
            }),
    {
        if delta.is_empty() {
            return self.start_live_reasoning();
        }
        let id = self.start_live_reasoning();
        match id_position(&self.items, id.as_str()) {
            Some(i) => append_at(&mut self.items, i, delta),
            None => {},
        }
        id
    }


    /// Appends an `Attachment added` row.
    pub fn push_attachment(&mut self, body: &str) -> (r: String)
        requires
            old(self)@.next_id < u64::MAX,
        ensures
            r@ == timeline_id(old(self)@.next_id + 1),
            final(self)@ == push_spec(
                old(self)@,
                MobileTimelineItemKind::Attachment,
                MobileTimelineItemStatus::Done,
                "Attachment added"@,
                body@,
            ),
    {
        self.push(
            MobileTimelineItemKind::Attachment,
            MobileTimelineItemStatus::Done,
            "Attachment added",
            body,
        )
    }

    /// Appends a pending `Native mobile command` row.
    pub fn push_native_command(&mut self, body: &str) -> (r: String)
        requires
            old(self)@.next_id < u64::MAX,
        ensures
            r@ == timeline_id(old(self)@.next_id + 1),
            final(self)@ == push_spec(
                old(self)@,
                MobileTimelineItemKind::NativeCommand,
                MobileTimelineItemStatus::Pending,
                "Native mobile command"@,
                body@,
            ),
    {
        self.push(
            MobileTimelineItemKind::NativeCommand,
            MobileTimelineItemStatus::Pending,
            "Native mobile command",
            body,
        )
    }

    /// Closes the running agent status lines, then appends a running one.
    pub fn push_status(&mut self, body: &str) -> (r: String)
        requires
            old(self)@.next_id < u64::MAX,
        ensures
            r@ == timeline_id(old(self)@.next_id + 1),
            final(self)@ == push_spec(
                seal_agent_status_spec(old(self)@),
                MobileTimelineItemKind::Status,
                MobileTimelineItemStatus::Running,
                "Agent status"@,
                body@,
            ),
    {
        self.seal_agent_status_items();
        self.push(MobileTimelineItemKind::Status, MobileTimelineItemStatus::Running, "Agent status", body)
    }

    /// Fails the live assistant row, then appends an error row.
    pub fn push_error(&mut self, body: &str) -> (r: String)
        requires
            old(self)@.next_id < u64::MAX,
        ensures
            r@ == timeline_id(old(self)@.next_id + 1),
            final(self)@ == push_spec(
                fail_assistant_spec(old(self)@),
                MobileTimelineItemKind::Error,
                MobileTimelineItemStatus::Failed,
                "Error"@,
                body@,
            ),
    {
        self.fail_live_assistant_message();
        self.push(MobileTimelineItemKind::Error, MobileTimelineItemStatus::Failed, "Error", body)
    }

    /// Marks in-flight agent status, native command and tool rows as done (end
    /// of turn or restore), after ending the live rows.
    pub fn seal_open_work_items(&mut self)
        ensures
            final(self)@ == (TimelineView {
                items: seal_work_rows(finish_reasoning_spec(finish_assistant_spec(old(self)@)).items),
                ..finish_reasoning_spec(finish_assistant_spec(old(self)@))
            }),
    {
        self.finish_live_assistant_message();
        self.finish_live_reasoning();
        seal_open_rows(&mut self.items);
    }

    /// Marks the last running `Tool: {tool_name}` row as done.
    pub fn seal_tool_call(&mut self, tool_name: &str)
        ensures
            final(self)@ == seal_tool_spec(old(self)@, tool_name@),
    {
        let title = concat("Tool: ", tool_name);
        match last_running_tool(&self.items, &title) {
            Some(i) => set_status_at(&mut self.items, i, MobileTimelineItemStatus::Done),
            None => {},
        }
    }

    /// Attaches tool output to the in-flight `Tool: …` row (one card per
    /// tool), which ends done or failed and gains `paths`; returns its id.
    pub fn complete_tool_call(&mut self, tool_name: &str, success: bool, output: &str, paths: Vec<String>) -> (r: Option<String>)
        ensures
            (final(self)@, opt_view(r)) == complete_tool_spec(
                old(self)@,
                tool_name@,
                success,
                output@,
                strings_view(paths@),
            ),
    {
        let title = concat("Tool: ", tool_name);
        let found = match last_running_tool(&self.items, &title) {
            Some(i) => i,
            None => return None,
        };
        let item_id = self.items[found].id.clone();
        let ghost iv = items_view(self.items@);
        match id_position(&self.items, item_id.as_str()) {
            Some(i) => {
                let ghost v = self.items@;
                let mut it = self.items.remove(i);
                let body = format_tool_step_with_output(it.body.as_str(), output);
                it.body = body;
                it.status = if success {
                    MobileTimelineItemStatus::Done
                } else {
                    MobileTimelineItemStatus::Failed
                };
                self.items.insert(i, it);
                proof {
                    lemma_items_view_update(v, i as int, it);
                }
            },
            None => {
                assert(iv[found as int].id == item_id@);
                assert(false);
            },
        }
        self.attach_linked_paths(item_id.as_str(), paths);
        Some(item_id)
    }

    /// After reloading persisted rows: drops `PROBE_OK` probe replies, joins
    /// consecutive reasoning rows and folds legacy tool result rows into
    /// their tool rows; no row stays live.
    pub fn compact_for_display(&mut self)
        ensures
            final(self)@ == compact_spec(old(self)@),
    {
        let rule = RowRule::NotProbeReply;
        filter_rows(&mut self.items, &rule);
        assert((|it: MobileTimelineItemView| rule_keeps(rule, it)) =~= (|it: MobileTimelineItemView|
            !is_probe_reply(it)));
        merge_adjacent_rows(&mut self.items);
        self.live_assistant_item_id = None;
        self.live_reasoning_item_id = None;
    }

    /// Drops all error rows when there are more than two of them, so stale
    /// boot errors do not fill the chat.
    pub fn soften_stale_errors(&mut self)
        ensures
            final(self)@ == soften_errors_spec(old(self)@),
    {
        let errors = count_error_rows(&self.items);
        if errors > 2 {
            let rule = RowRule::NotError;
            filter_rows(&mut self.items, &rule);
            assert((|it: MobileTimelineItemView| rule_keeps(rule, it)) =~= (|it: MobileTimelineItemView|
                it.kind != MobileTimelineItemKind::Error));
        }
    }

    /// Makes sure the model reply is visible in the conversation column.
    pub fn publish_assistant_reply(&mut self, text: &str)
        requires
            old(self)@.next_id < u64::MAX,
        ensures
            final(self)@ == publish_reply_spec(old(self)@, text@),
    {
        let text = crate::text::trim_str(text);
        if text.as_str().is_empty() {
            return;
        }
        let live = self.live_assistant_item_id.clone();
        match live {
            Some(id) => {
                match id_position(&self.items, id.as_str()) {
                    Some(i) => {
                        let ghost v = self.items@;
                        let mut it = self.items.remove(i);
                        if crate::text::is_blank_str(it.body.as_str()) {
                            it.body = text.clone();
                        }
                        it.status = MobileTimelineItemStatus::Done;
                        self.items.insert(i, it);
                        proof {
                            lemma_items_view_update(v, i as int, it);
                        }
                    },
                    None => {},
                }
                self.live_assistant_item_id = None;
                return;
            },
            None => {},
        }
        match last_assistant(&self.items) {
            Some(i) => {
                if crate::text::is_blank_str(self.items[i].body.as_str()) {
                    let ghost v = self.items@;
                    let mut it = self.items.remove(i);
                    it.body = text.clone();
                    it.status = MobileTimelineItemStatus::Done;
                    self.items.insert(i, it);
                    proof {
                        lemma_items_view_update(v, i as int, it);
                    }
                    return;
                }
                if str_contains(self.items[i].body.as_str(), text.as_str()) || str_contains(
                    text.as_str(),
                    self.items[i].body.as_str(),
                ) {
                    set_status_at(&mut self.items, i, MobileTimelineItemStatus::Done);
                    return;
                }
            },
            None => {},
        }
        self.push_assistant_message(text.as_str());
    }

    /// Whether a status line describes a finished turn (so the work log should
    /// not keep showing it as running); decided on the lower-cased text.
    pub fn status_message_is_terminal(message: &str) -> (r: bool)
        ensures
            r == is_terminal_status_text(unicode_lowercase(message@)),
    {
        let lower = to_lowercase(message);
        let l = lower.as_str();
        str_contains(l, "готово") || str_contains(l, "finished") || str_contains(l, "completed")
            || str_contains(l, "turn finished") || str_contains(l, "approval continuation finished")
            || str_contains(l, "калибровка termux завершена") || str_contains(l, "termux result injected")
            || str_starts_with(l, "done ·")
    }

    /// Merges paths into the first row with id `item_id`.
    pub fn attach_linked_paths(&mut self, item_id: &str, paths: Vec<String>)
        ensures
            final(self)@ == attach_paths_spec(old(self)@, item_id@, strings_view(paths@)),
    {
        if paths.len() == 0 {
            return;
        }
        match id_position(&self.items, item_id) {
            Some(i) => {
                let ghost v = self.items@;
                let mut it = self.items.remove(i);
                merge_linked_paths(&mut it.linked_file_paths, &paths);
                self.items.insert(i, it);
                proof {
                    lemma_items_view_update(v, i as int, it);
                }
            },
            None => {},
        }
    }

    /// Links a safety snapshot to the first row with id `item_id`.
    pub fn attach_linked_snapshot(&mut self, item_id: &str, snapshot_id: &str)
        ensures
            final(self)@ == attach_snapshot_spec(old(self)@, item_id@, snapshot_id@),
    {
        if snapshot_id.is_empty() {
            return;
        }
        match id_position(&self.items, item_id) {
            Some(i) => {
                let ghost v = self.items@;
                let mut it = self.items.remove(i);
                it.linked_snapshot_id = Some(owned(snapshot_id));
                self.items.insert(i, it);
                proof {
                    lemma_items_view_update(v, i as int, it);
                }
            },
            None => {},
        }
    }

    /// Ends the live reasoning row (dropping it when it stayed blank).
    pub fn finish_live_reasoning(&mut self)
        ensures
            final(self)@ == finish_reasoning_spec(old(self)@),
    {
        let live = self.live_reasoning_item_id.take();
        match live {
            Some(id) => {
                match id_position(&self.items, id.as_str()) {
                    Some(i) => {
                        if crate::text::is_blank_str(self.items[i].body.as_str()) {
                            let ghost idv = id@;
                            let rule = RowRule::OtherId(id);
                            filter_rows(&mut self.items, &rule);
                            assert((|it: MobileTimelineItemView| rule_keeps(rule, it)) =~= (
                            |it: MobileTimelineItemView| it.id != idv));
                        } else {
                            set_status_at(&mut self.items, i, MobileTimelineItemStatus::Done);
                        }
                    },
                    None => {},
                }
            },
            None => {},
        }
    }

    /// Ends the live assistant row as failed.
    pub fn fail_live_assistant_message(&mut self)
        ensures
            final(self)@ == fail_assistant_spec(old(self)@),
    {
        let live = self.live_assistant_item_id.take();
        match live {
            Some(id) => {
                match id_position(&self.items, id.as_str()) {
                    Some(i) => set_status_at(&mut self.items, i, MobileTimelineItemStatus::Failed),
                    None => {},
                }
            },
            None => {},
        }
    }

    /// Closes the previous running «Agent status» lines before another is appended.
    pub fn seal_agent_status_items(&mut self)
        ensures
            final(self)@ == seal_agent_status_spec(old(self)@),
    {
        seal_agent_status_rows(&mut self.items);
    }

    /// Keeps the chat usable when many old rows were persisted: only the last
    /// `max_items` rows stay.
    pub fn retain_recent(&mut self, max_items: usize)
        ensures
            final(self)@ == retain_recent_spec(old(self)@, max_items as nat),
    {
        if self.items.len() > max_items {
            let drop = self.items.len() - max_items;
            let ghost v = self.items@;
            let kept = self.items.split_off(drop);
            self.items = kept;
            assert(items_view(self.items@) =~= items_view(v).skip(drop as int));
        }
    }

    /// The number of rows.
    pub fn len(&self) -> (r: usize)
        ensures
            r == self@.items.len(),
    {
        self.items.len()
    }

    /// Whether there are no rows.
    pub fn is_empty(&self) -> (r: bool)
        ensures
            r == (self@.items.len() == 0),
    {
        self.items.len() == 0
    }
}

/// The short English label of a row kind.
pub fn timeline_kind_label(kind: &MobileTimelineItemKind) -> (r: &'static str)
    ensures
        r@ == kind_label(*kind),
{
    match kind {
        MobileTimelineItemKind::UserMessage => "USER",
        MobileTimelineItemKind::AssistantMessage => "AI",
        MobileTimelineItemKind::Attachment => "FILE",
        MobileTimelineItemKind::NativeCommand => "NATIVE",
        MobileTimelineItemKind::ToolCall => "TOOL",
        MobileTimelineItemKind::Approval => "APPROVAL",
        MobileTimelineItemKind::Status => "STATUS",
        MobileTimelineItemKind::Error => "ERROR",
    }
}

/// The short English label of a row status.
pub fn timeline_status_label(status: &MobileTimelineItemStatus) -> (r: &'static str)
    ensures
        r@ == status_label(*status),
{
    match status {
        MobileTimelineItemStatus::Pending => "pending",
        MobileTimelineItemStatus::Running => "running",
        MobileTimelineItemStatus::Done => "done",
        MobileTimelineItemStatus::Failed => "failed",
        MobileTimelineItemStatus::WaitingForApproval => "approval",
    }
}

} // verus!
