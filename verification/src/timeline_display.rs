//! How timeline rows are sorted into the conversation and the activity
//! log, and the short texts and colours they are shown with.
use crate::agent_timeline::{
    is_terminal_status_text, items_view, MobileTimelineItem, MobileTimelineItemKind, MobileTimelineItemStatus,
    MobileTimelineItemView, MobileTimelineState,
};
use crate::text::{
    chars_of, contains, is_blank, is_blank_str, owned, push_chars, slice_range, starts_with, str_contains,
    str_eq, str_starts_with, trim, trim_str, unicode_lowercase,
};
use vstd::prelude::*;

verus! {

broadcast use vstd::string::group_string_axioms;

/// The longest status text shown before it is cut.
pub const COMPACT_STATUS_MAX_CHARS: usize = 120;

/// A text with every line feed written as ` · `.
pub open spec fn one_line(s: Seq<char>) -> Seq<char>
    decreases s.len(),
{
    if s.len() == 0 {
        Seq::empty()
    } else {
        one_line(s.drop_last()) + if s.last() == '\n' {
            " · "@
        } else {
            seq![s.last()]
        }
    }
}

/// A status text on one line, cut after `COMPACT_STATUS_MAX_CHARS`
/// characters with an ellipsis.
pub open spec fn compact_text(s: Seq<char>) -> Seq<char> {
    let t = one_line(s);
    if t.len() <= COMPACT_STATUS_MAX_CHARS {
        t
    } else {
        t.take(COMPACT_STATUS_MAX_CHARS as int).push('…')
    }
}

/// A status text on one line, cut after 120 characters.
pub fn compact_status_text(text: &str) -> (r: String)
    ensures
        r@ == compact_text(text@),
{
    let chars = chars_of(text);
    let mut flat: Vec<char> = Vec::new();
    let mut i: usize = 0;
    proof {
        reveal_strlit(" · ");
    }
    while i < chars.len()
        invariant
            i <= chars.len(),
            chars@ == text@,
            flat@ == one_line(chars@.take(i as int)),
            " · "@ =~= seq![' ', '·', ' '],
        decreases chars.len() - i,
    {
        assert(chars@.take(i + 1).drop_last() == chars@.take(i as int));
        assert(chars@.take(i + 1).last() == chars@[i as int]);
        let c = chars[i];
        if c == '\n' {
            flat.push(' ');
            flat.push('·');
            flat.push(' ');
        } else {
            flat.push(c);
        }
        i = i + 1;
        assert(flat@ =~= one_line(chars@.take(i as int)));
    }
    assert(chars@.take(chars.len() as int) == chars@);
    let mut out = String::new();
    if flat.len() <= COMPACT_STATUS_MAX_CHARS {
        push_chars(&mut out, &flat);
    } else {
        let mut head = slice_range(&flat, 0, COMPACT_STATUS_MAX_CHARS);
        head.push('…');
        push_chars(&mut out, &head);
    }
    out
}

/// The background colour of a row of a kind.
pub fn item_background(kind: &MobileTimelineItemKind) -> (r: &'static str)
    ensures
        r@ == match *kind {
            MobileTimelineItemKind::UserMessage => "#2563eb"@,
            MobileTimelineItemKind::AssistantMessage => "#172033"@,
            MobileTimelineItemKind::Attachment => "#0f172a"@,
            MobileTimelineItemKind::NativeCommand => "#0f172a"@,
            MobileTimelineItemKind::ToolCall => "#0f172a"@,
            MobileTimelineItemKind::Approval => "#422006"@,
            MobileTimelineItemKind::Status => "#0b1220"@,
            MobileTimelineItemKind::Error => "#7f1d1d"@,
        },
{
    match kind {
        MobileTimelineItemKind::UserMessage => "#2563eb",
        MobileTimelineItemKind::AssistantMessage => "#172033",
        MobileTimelineItemKind::Attachment => "#0f172a",
        MobileTimelineItemKind::NativeCommand => "#0f172a",
        MobileTimelineItemKind::ToolCall => "#0f172a",
        MobileTimelineItemKind::Approval => "#422006",
        MobileTimelineItemKind::Status => "#0b1220",
        MobileTimelineItemKind::Error => "#7f1d1d",
    }
}

/// The border of a row in a status.
pub fn item_border(status: &MobileTimelineItemStatus) -> (r: &'static str)
    ensures
        r@ == match *status {
            MobileTimelineItemStatus::Pending => "1px solid #4b5563"@,
            MobileTimelineItemStatus::Running => "1px solid #3b82f6"@,
            MobileTimelineItemStatus::Done => "1px solid #334155"@,
            MobileTimelineItemStatus::Failed => "1px solid #dc2626"@,
            MobileTimelineItemStatus::WaitingForApproval => "1px solid #ca8a04"@,
        },
{
    match status {
        MobileTimelineItemStatus::Pending => "1px solid #4b5563",
        MobileTimelineItemStatus::Running => "1px solid #3b82f6",
        MobileTimelineItemStatus::Done => "1px solid #334155",
        MobileTimelineItemStatus::Failed => "1px solid #dc2626",
        MobileTimelineItemStatus::WaitingForApproval => "1px solid #ca8a04",
    }
}

/// The badge colour of a row of a kind.
pub fn item_badge_color(kind: &MobileTimelineItemKind) -> (r: &'static str)
    ensures
        r@ == match *kind {
            MobileTimelineItemKind::UserMessage => "#1d4ed8"@,
            MobileTimelineItemKind::AssistantMessage => "#3b82f6"@,
            MobileTimelineItemKind::Attachment => "#059669"@,
            MobileTimelineItemKind::NativeCommand => "#7c3aed"@,
            MobileTimelineItemKind::ToolCall => "#7c3aed"@,
            MobileTimelineItemKind::Approval => "#ca8a04"@,
            MobileTimelineItemKind::Status => "#2563eb"@,
            MobileTimelineItemKind::Error => "#dc2626"@,
        },
{
    match kind {
        MobileTimelineItemKind::UserMessage => "#1d4ed8",
        MobileTimelineItemKind::AssistantMessage => "#3b82f6",
        MobileTimelineItemKind::Attachment => "#059669",
        MobileTimelineItemKind::NativeCommand => "#7c3aed",
        MobileTimelineItemKind::ToolCall => "#7c3aed",
        MobileTimelineItemKind::Approval => "#ca8a04",
        MobileTimelineItemKind::Status => "#2563eb",
        MobileTimelineItemKind::Error => "#dc2626",
    }
}

/// The text colour of a status.
pub fn status_color(status: &MobileTimelineItemStatus) -> (r: &'static str)
    ensures
        r@ == match *status {
            MobileTimelineItemStatus::Pending => "#94a3b8"@,
            MobileTimelineItemStatus::Running => "#93c5fd"@,
            MobileTimelineItemStatus::Done => "#86efac"@,
            MobileTimelineItemStatus::Failed => "#fca5a5"@,
            MobileTimelineItemStatus::WaitingForApproval => "#fde68a"@,
        },
{
    match status {
        MobileTimelineItemStatus::Pending => "#94a3b8",
        MobileTimelineItemStatus::Running => "#93c5fd",
        MobileTimelineItemStatus::Done => "#86efac",
        MobileTimelineItemStatus::Failed => "#fca5a5",
        MobileTimelineItemStatus::WaitingForApproval => "#fde68a",
    }
}

/// A row of the conversation: user and assistant messages (but not the
/// `PROBE_OK` answer of a probe), approvals, errors, and tool calls that
/// wait for approval.
pub open spec fn conversation_row(it: MobileTimelineItemView) -> bool {
    if it.kind == MobileTimelineItemKind::AssistantMessage && trim(it.body) == "PROBE_OK"@ {
        false
    } else {
        it.kind == MobileTimelineItemKind::UserMessage || it.kind == MobileTimelineItemKind::AssistantMessage
            || it.kind == MobileTimelineItemKind::Approval || it.kind == MobileTimelineItemKind::Error || (it.kind
            == MobileTimelineItemKind::ToolCall && it.status == MobileTimelineItemStatus::WaitingForApproval)
    }
}

/// Whether a row belongs to the conversation.
pub fn is_conversation_item(item: &MobileTimelineItem) -> (r: bool)
    ensures
        r == conversation_row(item@),
{
    if item.kind == MobileTimelineItemKind::AssistantMessage && str_eq(trim_str(item.body.as_str()).as_str(), "PROBE_OK") {
        return false;
    }
    item.kind == MobileTimelineItemKind::UserMessage || item.kind == MobileTimelineItemKind::AssistantMessage
        || item.kind == MobileTimelineItemKind::Approval || item.kind == MobileTimelineItemKind::Error || (item.kind
        == MobileTimelineItemKind::ToolCall && item.status == MobileTimelineItemStatus::WaitingForApproval)
}

/// A row of the activity log: status lines, attachments, native commands and tool calls.
pub open spec fn activity_row(it: MobileTimelineItemView) -> bool {
    it.kind == MobileTimelineItemKind::Status || it.kind == MobileTimelineItemKind::Attachment || it.kind
        == MobileTimelineItemKind::NativeCommand || it.kind == MobileTimelineItemKind::ToolCall
}

/// Whether a row belongs to the activity log.
pub fn is_activity_item(item: &MobileTimelineItem) -> (r: bool)
    ensures
        r == activity_row(item@),
{
    item.kind == MobileTimelineItemKind::Status || item.kind == MobileTimelineItemKind::Attachment || item.kind
        == MobileTimelineItemKind::NativeCommand || item.kind == MobileTimelineItemKind::ToolCall
}

/// The tool that a row's title names: after `Tool: ` or `Patch proposed: `.
pub open spec fn row_tool_name(title: Seq<char>) -> Option<Seq<char>> {
    if starts_with(title, "Tool: "@) {
        Some(title.skip("Tool: "@.len() as int))
    } else if starts_with(title, "Patch proposed: "@) {
        Some(title.skip("Patch proposed: "@.len() as int))
    } else {
        None
    }
}

/// The tool that a row's title names.
pub fn tool_name_from_timeline_item(item: &MobileTimelineItem) -> (r: Option<String>)
    ensures
        crate::agent_timeline::opt_view(r) == row_tool_name(item@.title),
{
    let chars = chars_of(item.title.as_str());
    let tool = chars_of("Tool: ");
    let patch = chars_of("Patch proposed: ");
    if crate::text::starts_with_chars(&chars, &tool) {
        let rest = slice_range(&chars, tool.len(), chars.len());
        assert(rest@ =~= item@.title.skip("Tool: "@.len() as int));
        Some(crate::text::string_from_chars(&rest))
    } else if crate::text::starts_with_chars(&chars, &patch) {
        let rest = slice_range(&chars, patch.len(), chars.len());
        assert(rest@ =~= item@.title.skip("Patch proposed: "@.len() as int));
        Some(crate::text::string_from_chars(&rest))
    } else {
        None
    }
}

/// Whether a row is the card of a tool call that waits: titled after the
/// tool, or naming it.
pub fn item_matches_pending_tool(item: &MobileTimelineItem, tool_name: &str) -> (r: bool)
    ensures
        r == (item@.title == "Tool: "@ + tool_name@ || item@.title == "Patch proposed: "@ + tool_name@ || contains(
            item@.title,
            tool_name@,
        )),
{
    let a = crate::text::concat("Tool: ", tool_name);
    let b = crate::text::concat("Patch proposed: ", tool_name);
    str_eq(item.title.as_str(), a.as_str()) || str_eq(item.title.as_str(), b.as_str()) || str_contains(
        item.title.as_str(),
        tool_name,
    )
}

/// `acc` with each path of `more` appended unless it is already there.
pub open spec fn add_new_paths(acc: Seq<Seq<char>>, more: Seq<Seq<char>>) -> Seq<Seq<char>>
    decreases more.len(),
{
    if more.len() == 0 {
        acc
    } else {
        let a = add_new_paths(acc, more.drop_last());
        if a.contains(more.last()) {
            a
        } else {
            a.push(more.last())
        }
    }
}

/// The linked paths of rows, in order, each once.
pub open spec fn rows_linked_paths(rows: Seq<MobileTimelineItemView>) -> Seq<Seq<char>>
    decreases rows.len(),
{
    if rows.len() == 0 {
        Seq::empty()
    } else {
        add_new_paths(rows_linked_paths(rows.drop_last()), rows.last().linked_file_paths)
    }
}

fn add_new_path_strings(acc: &mut Vec<String>, more: &Vec<String>)
    ensures
        crate::chat_file_links::strings_view(final(acc)@) == add_new_paths(
            crate::chat_file_links::strings_view(old(acc)@),
            crate::chat_file_links::strings_view(more@),
        ),
{
    let ghost a0 = crate::chat_file_links::strings_view(acc@);
    let ghost mv = crate::chat_file_links::strings_view(more@);
    let mut i: usize = 0;
    assert(mv.take(0) =~= Seq::<Seq<char>>::empty());
    while i < more.len()
        invariant
            i <= more.len(),
            mv == crate::chat_file_links::strings_view(more@),
            crate::chat_file_links::strings_view(acc@) == add_new_paths(a0, mv.take(i as int)),
        decreases more.len() - i,
    {
        assert(mv.take(i + 1).drop_last() == mv.take(i as int));
        assert(mv.take(i + 1).last() == more@[i as int]@);
        let mut found = false;
        let mut k: usize = 0;
        while k < acc.len()
            invariant
                k <= acc.len(),
                found == exists|j: int| 0 <= j < k && acc@[j]@ == more@[i as int]@,
                i < more.len(),
            decreases acc.len() - k,
        {
            if str_eq(acc[k].as_str(), more[i].as_str()) {
                found = true;
            }
            k = k + 1;
        }
        let ghost av = crate::chat_file_links::strings_view(acc@);
        assert(found == av.contains(more@[i as int]@)) by {
            if found {
                let j = choose|j: int| 0 <= j < acc@.len() && acc@[j]@ == more@[i as int]@;
                assert(av[j] == more@[i as int]@);
            }
            if av.contains(more@[i as int]@) {
                let j = choose|j: int| 0 <= j < av.len() && av[j] == more@[i as int]@;
                assert(acc@[j]@ == more@[i as int]@);
            }
        }
        if !found {
            acc.push(more[i].clone());
            assert(crate::chat_file_links::strings_view(acc@) =~= av.push(more@[i as int]@));
        }
        i = i + 1;
    }
    assert(mv.take(more.len() as int) == mv);
}

/// The file paths linked from the rows of an activity block, each once.
pub fn activity_linked_paths(items: &Vec<MobileTimelineItem>) -> (r: Vec<String>)
    ensures
        crate::chat_file_links::strings_view(r@) == rows_linked_paths(items_view(items@)),
{
    let ghost iv = items_view(items@);
    let mut paths: Vec<String> = Vec::new();
    let mut i: usize = 0;
    assert(crate::chat_file_links::strings_view(paths@) =~= Seq::<Seq<char>>::empty());
    assert(iv.take(0) =~= Seq::<MobileTimelineItemView>::empty());
    while i < items.len()
        invariant
            i <= items.len(),
            iv == items_view(items@),
            crate::chat_file_links::strings_view(paths@) == rows_linked_paths(iv.take(i as int)),
        decreases items.len() - i,
    {
        assert(iv.take(i + 1).drop_last() == iv.take(i as int));
        assert(iv.take(i + 1).last() == items@[i as int]@);
        add_new_path_strings(&mut paths, &items[i].linked_file_paths);
        i = i + 1;
    }
    assert(iv.take(items.len() as int) == iv);
    paths
}

/// A step that counts in an activity summary: tool calls, approvals,
/// reasoning, the end of a turn, errors.
pub open spec fn significant_step(it: MobileTimelineItemView) -> bool {
    it.kind == MobileTimelineItemKind::ToolCall || it.kind == MobileTimelineItemKind::Approval || it.title
        == "Reasoning"@ || it.title == "Turn finished"@ || it.kind == MobileTimelineItemKind::Error
}

/// The number of significant steps among rows.
pub fn activity_significant_step_count(items: &Vec<MobileTimelineItem>) -> (r: usize)
    ensures
        r == items_view(items@).filter(|it: MobileTimelineItemView| significant_step(it)).len(),
{
    let ghost iv = items_view(items@);
    let ghost f = |it: MobileTimelineItemView| significant_step(it);
    let mut n: usize = 0;
    let mut i: usize = 0;
    assert(iv.take(0).filter(f) =~= Seq::<MobileTimelineItemView>::empty());
    while i < items.len()
        invariant
            i <= items.len(),
            iv == items_view(items@),
            f == (|it: MobileTimelineItemView| significant_step(it)),
            n == iv.take(i as int).filter(f).len(),
            n <= i,
        decreases items.len() - i,
    {
        reveal_with_fuel(Seq::filter, 1);
        assert(iv.take(i + 1).drop_last() == iv.take(i as int));
        assert(iv.take(i + 1).last() == items@[i as int]@);
        let it = &items[i];
        if it.kind == MobileTimelineItemKind::ToolCall || it.kind == MobileTimelineItemKind::Approval || str_eq(
            it.title.as_str(),
            "Reasoning",
        ) || str_eq(it.title.as_str(), "Turn finished") || it.kind == MobileTimelineItemKind::Error {
            n = n + 1;
        }
        i = i + 1;
    }
    assert(iv.take(items.len() as int) == iv);
    n
}

/// A row still in progress: pending, running or waiting, except a status
/// line whose text says the turn is over.
pub open spec fn in_progress(it: MobileTimelineItemView) -> bool {
    (it.status == MobileTimelineItemStatus::Pending || it.status == MobileTimelineItemStatus::Running || it.status
        == MobileTimelineItemStatus::WaitingForApproval) && !(it.kind == MobileTimelineItemKind::Status
        && is_terminal_status_text(unicode_lowercase(it.body)))
}

/// Whether a row is still in progress.
pub fn activity_item_is_in_progress(item: &MobileTimelineItem) -> (r: bool)
    ensures
        r == in_progress(item@),
{
    if !(item.status == MobileTimelineItemStatus::Pending || item.status == MobileTimelineItemStatus::Running
        || item.status == MobileTimelineItemStatus::WaitingForApproval) {
        return false;
    }
    if item.kind == MobileTimelineItemKind::Status && MobileTimelineState::status_message_is_terminal(
        item.body.as_str(),
    ) {
        return false;
    }
    true
}

/// Whether any row is still in progress.
pub fn activity_has_active_item(items: &Vec<MobileTimelineItem>) -> (r: bool)
    ensures
        r == exists|i: int| 0 <= i < items@.len() && in_progress(#[trigger] items@[i]@),
{
    let mut i: usize = 0;
    while i < items.len()
        invariant
            i <= items.len(),
            forall|j: int| 0 <= j < i ==> !in_progress(#[trigger] items@[j]@),
        decreases items.len() - i,
    {
        if activity_item_is_in_progress(&items[i]) {
            return true;
        }
        i = i + 1;
    }
    false
}

/// The one-line text of an activity row: its title, and its compacted body
/// when that says more.
pub open spec fn activity_line(it: MobileTimelineItemView) -> Seq<char> {
    let body = compact_text(it.body);
    if is_blank(body) || body == it.title {
        it.title
    } else {
        it.title + " · "@ + body
    }
}

/// The one-line text of an activity row.
pub fn activity_text(item: &MobileTimelineItem) -> (r: String)
    ensures
        r@ == activity_line(item@),
{
    let body = compact_status_text(item.body.as_str());
    if is_blank_str(body.as_str()) || str_eq(body.as_str(), item.title.as_str()) {
        return item.title.clone();
    }
    let mut s = item.title.clone();
    s.append(" · ");
    s.append(body.as_str());
    s
}

} // verus!
