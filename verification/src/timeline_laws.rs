//! What holds of the timeline over several calls: streamed pieces add up,
//! trimming keeps the newest rows, softening and sealing settle the feed,
//! compaction settles the feed in one pass, linked paths never repeat and
//! attaching them again changes nothing, and a tool step body splits back
//! into the parts it was made of, generated ids count the rows pushed, and
//! sealing closes all work while keeping every other row as it was.
use crate::agent_timeline::{
    append_to_row_spec, attach_paths_spec, empty_timeline, enrich_spec, is_work_kind, paths_since_last_user,
    turn_paths, turn_start, push_spec, push_with_id_spec, timeline_id, compact_spec, error_count, id_pos, is_first_with_id, is_open_work_item,
    is_probe_reply, is_reasoning_row, lemma_id_pos, merge_paths, merge_rows, merged_tool_row, retain_recent_spec,
    seal_work_rows, soften_errors_spec, start_assistant_spec, tool_result_merges, tool_step_body, tool_step_parts,
    tool_step_splittable, with_status, finish_assistant_spec, finish_reasoning_spec, set_status_by_id,
    MobileTimelineItemKind, MobileTimelineItemStatus, MobileTimelineItemView,
    TimelineView, TOOL_STEP_INPUT_MARKER, TOOL_STEP_OUTPUT_MARKER,
};
use crate::chat_file_links::extracted_paths;
use crate::text::{contains, first_occurrence, is_blank, lemma_first_occurrence, occurs_at};
use vstd::prelude::*;

verus! {

/// Appending `a` and then `b` to a row is appending `a + b`: streamed deltas
/// add up to one body.
pub proof fn lemma_deltas_concatenate(v: TimelineView, id: Seq<char>, a: Seq<char>, b: Seq<char>)
    ensures
        append_to_row_spec(append_to_row_spec(v, id, a), id, b) == append_to_row_spec(v, id, a + b),
{
    let p = id_pos(v.items, id);
    if p >= 0 {
        assert(is_first_with_id(v.items, id, p)) by {
            assert(exists|i: int| is_first_with_id(v.items, id, i));
        }
        let w = append_to_row_spec(v, id, a);
        assert(is_first_with_id(w.items, id, p)) by {
            assert forall|k: int| 0 <= k < p implies (#[trigger] w.items[k]).id != id by {
                assert(w.items[k] == v.items[k]);
            }
        }
        lemma_id_pos(w.items, id, p);
        assert(v.items[p].body + a + b == v.items[p].body + (a + b));
        assert(append_to_row_spec(w, id, b).items =~= append_to_row_spec(v, id, a + b).items);
    } else {
        let w = append_to_row_spec(v, id, a);
        assert(w == v);
    }
}

/// Trimming to `max` rows leaves at most `max` rows, and they are the
/// newest ones, in order.
pub proof fn lemma_retain_recent_keeps_newest(v: TimelineView, max: nat)
    ensures
        retain_recent_spec(v, max).items.len() <= max || retain_recent_spec(v, max).items == v.items,
        retain_recent_spec(v, max).items.len() <= v.items.len(),
        retain_recent_spec(v, max).items == v.items.skip(
            v.items.len() - retain_recent_spec(v, max).items.len(),
        ),
{
    if v.items.len() <= max {
        assert(v.items.skip(0) == v.items);
    }
}

/// After softening, at most two error rows are left, and softening again
/// changes nothing.
pub proof fn lemma_soften_settles(v: TimelineView)
    ensures
        error_count(soften_errors_spec(v).items) <= 2,
        soften_errors_spec(soften_errors_spec(v)) == soften_errors_spec(v),
{
    if error_count(v.items) > 2 {
        let not_error = |it: MobileTimelineItemView| it.kind != MobileTimelineItemKind::Error;
        let is_error = |it: MobileTimelineItemView| it.kind == MobileTimelineItemKind::Error;
        let kept = v.items.filter(not_error);
        assert(kept.all(|x: MobileTimelineItemView| !is_error(x))) by {
            assert forall|i: int| 0 <= i < kept.len() implies !is_error(#[trigger] kept[i]) by {
                v.items.lemma_filter_pred(not_error, i);
            }
        }
        kept.lemma_all_neg_filter_empty(is_error);
        assert(error_count(kept) == 0);
    }
}

/// After sealing, no work row is pending or running, no row is added or
/// removed, open work rows become done, and nothing else of any row changes.
pub proof fn lemma_seal_closes_all_work(items: Seq<MobileTimelineItemView>)
    ensures
        seal_work_rows(items).len() == items.len(),
        forall|i: int| 0 <= i < items.len() ==> !is_open_work_item(#[trigger] seal_work_rows(items)[i]),
        forall|i: int|
            0 <= i < items.len() ==> (#[trigger] seal_work_rows(items)[i]).id == items[i].id
                && seal_work_rows(items)[i].kind == items[i].kind && seal_work_rows(items)[i].title == items[i].title
                && seal_work_rows(items)[i].body == items[i].body && seal_work_rows(items)[i].linked_file_paths
                == items[i].linked_file_paths && (is_open_work_item(items[i]) ==> seal_work_rows(items)[i].status
                == MobileTimelineItemStatus::Done) && (!is_open_work_item(items[i]) ==> seal_work_rows(items)[i]
                == items[i]),
{
}

proof fn lemma_merge_rows_len(items: Seq<MobileTimelineItemView>)
    ensures
        merge_rows(items).len() <= items.len(),
    decreases items.len(),
{
    if items.len() > 0 {
        lemma_merge_rows_len(items.drop_last());
    }
}

/// Compaction for display never adds rows.
pub proof fn lemma_compact_never_grows(v: TimelineView)
    ensures
        compact_spec(v).items.len() <= v.items.len(),
{
    let kept = v.items.filter(|it: MobileTimelineItemView| !crate::agent_timeline::is_probe_reply(it));
    v.items.lemma_filter_len(|it: MobileTimelineItemView| !crate::agent_timeline::is_probe_reply(it));
    lemma_merge_rows_len(kept);
}

/// Merging linked paths keeps the existing ones first and in order, adds
/// every non-empty new path, and never repeats a path when the existing
/// ones do not.
pub proof fn lemma_merge_paths_unique(existing: Seq<Seq<char>>, more: Seq<Seq<char>>)
    ensures
        merge_paths(existing, more).len() >= existing.len(),
        merge_paths(existing, more).take(existing.len() as int) == existing,
        forall|i: int| 0 <= i < more.len() && more[i].len() > 0 ==> merge_paths(existing, more).contains(#[trigger] more[i]),
        existing.no_duplicates() ==> merge_paths(existing, more).no_duplicates(),
    decreases more.len(),
{
    if more.len() == 0 {
        assert(existing.take(existing.len() as int) == existing);
    } else {
        let m = merge_paths(existing, more.drop_last());
        lemma_merge_paths_unique(existing, more.drop_last());
        let p = more.last();
        let r = merge_paths(existing, more);
        if !(p.len() == 0 || m.contains(p)) {
            assert(r == m.push(p));
            assert(r.take(existing.len() as int) =~= m.take(existing.len() as int));
            assert(r[m.len() as int] == p);
            assert forall|i: int| 0 <= i < m.len() implies r.contains(#[trigger] m[i]) by {
                assert(r[i] == m[i]);
            }
        }
        assert forall|i: int| 0 <= i < more.len() && more[i].len() > 0 implies r.contains(#[trigger] more[i]) by {
            if i < more.len() - 1 {
                assert(more.drop_last()[i] == more[i]);
                assert(m.contains(more[i]));
                let k = choose|k: int| 0 <= k < m.len() && m[k] == more[i];
                assert(r[k] == m[k]);
            } else {
                assert(more[i] == p);
                if m.contains(p) {
                    assert(r == m);
                } else {
                    assert(r[m.len() as int] == p);
                }
            }
        }
    }
}

proof fn lemma_merge_paths_absorbs(x: Seq<Seq<char>>, m: Seq<Seq<char>>)
    requires
        forall|i: int| 0 <= i < m.len() ==> (#[trigger] m[i]).len() == 0 || x.contains(m[i]),
    ensures
        merge_paths(x, m) == x,
    decreases m.len(),
{
    if m.len() > 0 {
        assert forall|i: int| 0 <= i < m.drop_last().len() implies (#[trigger] m.drop_last()[i]).len() == 0
            || x.contains(m.drop_last()[i]) by {
            assert(m.drop_last()[i] == m[i]);
        }
        lemma_merge_paths_absorbs(x, m.drop_last());
        assert(m.last() == m[m.len() - 1]);
    }
}

/// Merging the same paths a second time changes nothing.
pub proof fn lemma_merge_paths_idempotent(existing: Seq<Seq<char>>, more: Seq<Seq<char>>)
    ensures
        merge_paths(merge_paths(existing, more), more) == merge_paths(existing, more),
{
    lemma_merge_paths_unique(existing, more);
    lemma_merge_paths_absorbs(merge_paths(existing, more), more);
}

/// Attaching the same paths to the same row a second time changes nothing.
pub proof fn lemma_attach_paths_idempotent(v: TimelineView, id: Seq<char>, paths: Seq<Seq<char>>)
    ensures
        attach_paths_spec(attach_paths_spec(v, id, paths), id, paths) == attach_paths_spec(v, id, paths),
{
    let p = id_pos(v.items, id);
    if paths.len() > 0 && p >= 0 {
        assert(is_first_with_id(v.items, id, p)) by {
            assert(exists|i: int| is_first_with_id(v.items, id, i));
        }
        let w = attach_paths_spec(v, id, paths);
        assert(is_first_with_id(w.items, id, p)) by {
            assert forall|k: int| 0 <= k < p implies (#[trigger] w.items[k]).id != id by {
                assert(w.items[k] == v.items[k]);
            }
        }
        lemma_id_pos(w.items, id, p);
        lemma_merge_paths_idempotent(v.items[p].linked_file_paths, paths);
        assert(attach_paths_spec(w, id, paths).items =~= w.items);
    }
}

/// A tool step body splits back into the input and output it was made of,
/// when the output marker does not already appear in the input marker, the
/// input and the start of the output marker (an input that ends like the
/// start of the output marker would be cut there).
pub proof fn lemma_tool_step_round_trip(input: Seq<char>, output: Seq<char>)
    requires
        !contains(TOOL_STEP_INPUT_MARKER@ + input + TOOL_STEP_OUTPUT_MARKER@.drop_last(), TOOL_STEP_OUTPUT_MARKER@),
    ensures
        tool_step_splittable(tool_step_body(input, output)),
        tool_step_parts(tool_step_body(input, output)) == Some((input, output)),
{
    reveal_strlit("── Input ──\n");
    reveal_strlit("\n\n── Output ──\n");
    let im = TOOL_STEP_INPUT_MARKER@;
    let om = TOOL_STEP_OUTPUT_MARKER@;
    let body = tool_step_body(input, output);
    let a = im.len() as int;
    let b = a + input.len();
    let pre = im + input + om.drop_last();
    assert(body.subrange(0, a) =~= im);
    assert(occurs_at(body, im, 0));
    lemma_first_occurrence(body, im, 0);
    assert(body.subrange(b, b + om.len()) =~= om);
    assert(occurs_at(body, om, b));
    assert forall|k: int| 0 <= k < b implies !occurs_at(body, om, k) by {
        if occurs_at(body, om, k) {
            assert(pre.len() == b + om.len() - 1);
            assert(body.subrange(k, k + om.len()) =~= pre.subrange(k, k + om.len()));
            assert(occurs_at(pre, om, k));
        }
    }
    lemma_first_occurrence(body, om, b);
    assert(body.subrange(a, b) =~= input);
    assert(body.skip(b + om.len()) =~= output);
}

/// The text between the dashes of the output marker.
pub open spec fn output_heading() -> Seq<char> {
    "── Output ──"@
}

/// A tool step whose input does not hold the output heading splits back into
/// exactly its input and output.
pub proof fn lemma_tool_step_round_trip_plain(input: Seq<char>, output: Seq<char>)
    requires
        !contains(input, output_heading()),
    ensures
        tool_step_splittable(tool_step_body(input, output)),
        tool_step_parts(tool_step_body(input, output)) == Some((input, output)),
{
    reveal_strlit("── Input ──\n");
    reveal_strlit("\n\n── Output ──\n");
    reveal_strlit("── Output ──");
    let im = TOOL_STEP_INPUT_MARKER@;
    let om = TOOL_STEP_OUTPUT_MARKER@;
    let m = output_heading();
    let a = im.len() as int;
    let n = input.len() as int;
    let pre = im + input + om.drop_last();
    assert(a == 12);
    assert(om.len() == 15);
    assert forall|k: int| !occurs_at(pre, om, k) by {
        if occurs_at(pre, om, k) {
            assert(pre.subrange(k, k + 15)[0] == om[0]);
            assert(pre[k] == '\n');
            if k < a - 2 {
                assert(pre[k] == im[k]);
            } else if k + 14 <= a + n {
                assert forall|j: int| 0 <= j < 12 implies input.subrange(k + 2 - a, k + 14 - a)[j] == m[j] by {
                    assert(pre.subrange(k, k + 15)[j + 2] == om[j + 2]);
                    assert(pre[k + 2 + j] == input[k + 2 - a + j]);
                }
                assert(input.subrange(k + 2 - a, k + 14 - a) =~= m);
                assert(occurs_at(input, m, k + 2 - a));
            } else if k + 2 <= a + n {
                let j = a + n - k;
                assert(pre.subrange(k, k + 15)[j] == om[j]);
                assert(pre[a + n] == om[0]);
            } else {
                assert(pre.subrange(k, k + 15)[2] == om[2]);
                assert(pre[a + n + 1] == om[1]);
            }
        }
    }
    lemma_tool_step_round_trip(input, output);
}

/// Two neighbouring rows that compaction would join: two reasoning rows, or
/// a tool row and the legacy result row of the same tool.
pub open spec fn joinable(a: MobileTimelineItemView, b: MobileTimelineItemView) -> bool {
    (is_reasoning_row(a) && is_reasoning_row(b)) || tool_result_merges(a, b)
}

/// No two neighbouring rows are joinable.
pub open spec fn settled(s: Seq<MobileTimelineItemView>) -> bool {
    forall|i: int| 0 <= i < s.len() - 1 ==> !joinable(#[trigger] s[i], s[i + 1])
}

proof fn lemma_merge_rows_settled(s: Seq<MobileTimelineItemView>)
    ensures
        settled(merge_rows(s)),
        (forall|j: int| 0 <= j < s.len() ==> !is_probe_reply(#[trigger] s[j])) ==> (forall|i: int|
            0 <= i < merge_rows(s).len() ==> !is_probe_reply(#[trigger] merge_rows(s)[i])),
    decreases s.len(),
{
    if s.len() > 0 {
        let init = s.drop_last();
        lemma_merge_rows_settled(init);
        let m = merge_rows(init);
        let it = s.last();
        let r = merge_rows(s);
        if (forall|j: int| 0 <= j < s.len() ==> !is_probe_reply(#[trigger] s[j])) {
            assert forall|j: int| 0 <= j < init.len() implies !is_probe_reply(#[trigger] init[j]) by {
                assert(init[j] == s[j]);
            }
            assert(!is_probe_reply(s[s.len() - 1]));
        }
        if m.len() > 0 && is_reasoning_row(m.last()) && is_reasoning_row(it) {
            assert forall|i: int| 0 <= i < r.len() - 1 implies !joinable(#[trigger] r[i], r[i + 1]) by {
                if i + 1 < m.len() - 1 {
                    assert(r[i] == m[i] && r[i + 1] == m[i + 1]);
                } else {
                    assert(r[i] == m[i]);
                    assert(!joinable(m[i], m[i + 1]));
                }
            }
        } else if m.len() > 0 && tool_result_merges(m.last(), it) {
            assert forall|i: int| 0 <= i < r.len() - 1 implies !joinable(#[trigger] r[i], r[i + 1]) by {
                if i + 1 < m.len() - 1 {
                    assert(r[i] == m[i] && r[i + 1] == m[i + 1]);
                } else {
                    assert(r[i] == m[i]);
                    assert(r[i + 1] == merged_tool_row(m.last(), it));
                }
            }
        } else {
            assert forall|i: int| 0 <= i < r.len() - 1 implies !joinable(#[trigger] r[i], r[i + 1]) by {
                if i + 1 < m.len() {
                    assert(r[i] == m[i] && r[i + 1] == m[i + 1]);
                } else {
                    assert(r[i] == m.last() && r[i + 1] == it);
                }
            }
        }
    }
}

proof fn lemma_merge_rows_fixed(s: Seq<MobileTimelineItemView>)
    requires
        settled(s),
    ensures
        merge_rows(s) == s,
    decreases s.len(),
{
    if s.len() > 0 {
        let init = s.drop_last();
        assert forall|i: int| 0 <= i < init.len() - 1 implies !joinable(#[trigger] init[i], init[i + 1]) by {
            assert(init[i] == s[i] && init[i + 1] == s[i + 1]);
        }
        lemma_merge_rows_fixed(init);
        if init.len() > 0 {
            assert(!joinable(s[s.len() - 2], s[s.len() - 1]));
            assert(init.last() == s[s.len() - 2]);
        }
        assert(init.push(s.last()) =~= s);
    }
}

proof fn lemma_keep_all(s: Seq<MobileTimelineItemView>)
    requires
        forall|i: int| 0 <= i < s.len() ==> !is_probe_reply(#[trigger] s[i]),
    ensures
        s.filter(|it: MobileTimelineItemView| !is_probe_reply(it)) == s,
    decreases s.len(),
{
    reveal_with_fuel(Seq::filter, 1);
    if s.len() > 0 {
        assert forall|i: int| 0 <= i < s.drop_last().len() implies !is_probe_reply(#[trigger] s.drop_last()[i]) by {
            assert(s.drop_last()[i] == s[i]);
        }
        lemma_keep_all(s.drop_last());
        assert(!is_probe_reply(s[s.len() - 1]));
        assert(s.drop_last().push(s.last()) =~= s);
    } else {
        assert(s.filter(|it: MobileTimelineItemView| !is_probe_reply(it)) =~= s);
    }
}

/// After compaction no probe reply is left, no two neighbouring rows can be
/// joined, no live row stays open, and compacting again changes nothing.
pub proof fn lemma_compact_settles(v: TimelineView)
    ensures
        forall|i: int|
            0 <= i < compact_spec(v).items.len() ==> !is_probe_reply(#[trigger] compact_spec(v).items[i]),
        settled(compact_spec(v).items),
        compact_spec(v).live_assistant is None,
        compact_spec(v).live_reasoning is None,
        compact_spec(compact_spec(v)) == compact_spec(v),
{
    let f = |it: MobileTimelineItemView| !is_probe_reply(it);
    let kept = v.items.filter(f);
    assert forall|j: int| 0 <= j < kept.len() implies !is_probe_reply(#[trigger] kept[j]) by {
        v.items.lemma_filter_pred(f, j);
    }
    lemma_merge_rows_settled(kept);
    let c = compact_spec(v);
    lemma_keep_all(c.items);
    lemma_merge_rows_fixed(c.items);
    assert(compact_spec(c).items == c.items);
}

/// Asking for the live reply twice gives the same row and changes nothing
/// the second time.
pub proof fn lemma_start_assistant_idempotent(v: TimelineView)
    ensures
        start_assistant_spec(start_assistant_spec(v).0) == start_assistant_spec(v),
{
}

/// One step of a run of timeline calls as the row counter sees it: a call
/// that pushes a row moves the counter on by one, any other leaves it.
pub open spec fn counter_step(a: TimelineView, b: TimelineView, pushed: bool) -> bool {
    if pushed {
        b.next_id == a.next_id + 1
    } else {
        b.next_id == a.next_id
    }
}

/// How many steps of a run pushed a row.
pub open spec fn push_count(pushed: Seq<bool>) -> nat
    decreases pushed.len(),
{
    if pushed.len() == 0 {
        0
    } else {
        push_count(pushed.drop_last()) + if pushed.last() {
            1nat
        } else {
            0nat
        }
    }
}

/// Both ways of pushing a row are counted steps, and a generated id is the
/// next number of the counter.
pub proof fn lemma_pushes_count(
    v: TimelineView,
    id: Seq<char>,
    kind: MobileTimelineItemKind,
    status: MobileTimelineItemStatus,
    title: Seq<char>,
    body: Seq<char>,
)
    ensures
        counter_step(v, push_spec(v, kind, status, title, body), true),
        counter_step(v, push_with_id_spec(v, id, kind, status, title, body), true),
        push_spec(v, kind, status, title, body).items.last().id == timeline_id(v.next_id + 1),
{
}

/// In a run that starts from the empty timeline, the counter is the number of
/// rows pushed so far (whether or not they were removed later), so the next
/// generated id is `timeline-{k + 1}` after `k` pushes.
pub proof fn lemma_ids_follow_push_count(trace: Seq<TimelineView>, pushed: Seq<bool>)
    requires
        trace.len() == pushed.len() + 1,
        trace[0] == empty_timeline(),
        forall|i: int| 0 <= i < pushed.len() ==> counter_step(#[trigger] trace[i], trace[i + 1], pushed[i]),
    ensures
        trace.last().next_id == push_count(pushed),
        timeline_id(trace.last().next_id + 1) == timeline_id(push_count(pushed) + 1),
    decreases pushed.len(),
{
    if pushed.len() > 0 {
        let n = pushed.len() - 1;
        let t = trace.drop_last();
        let p = pushed.drop_last();
        assert forall|i: int| 0 <= i < p.len() implies counter_step(#[trigger] t[i], t[i + 1], p[i]) by {
            assert(counter_step(trace[i], trace[i + 1], pushed[i]));
        }
        lemma_ids_follow_push_count(t, p);
        assert(counter_step(trace[n], trace[n + 1], pushed[n]));
    }
}

/// What merging paths holds, as a set: the existing paths, and every
/// non-empty new one.
pub proof fn lemma_merge_paths_members(existing: Seq<Seq<char>>, more: Seq<Seq<char>>, q: Seq<char>)
    ensures
        merge_paths(existing, more).contains(q) <==> existing.contains(q) || (q.len() > 0 && more.contains(q)),
    decreases more.len(),
{
    if more.len() > 0 {
        let m = merge_paths(existing, more.drop_last());
        lemma_merge_paths_members(existing, more.drop_last(), q);
        let p = more.last();
        let r = merge_paths(existing, more);
        if !(p.len() == 0 || m.contains(p)) {
            assert(r == m.push(p));
            if m.contains(q) {
                let k = choose|k: int| 0 <= k < m.len() && m[k] == q;
                assert(r[k] == q);
            }
            if r.contains(q) && q != p {
                let k = choose|k: int| 0 <= k < r.len() && r[k] == q;
                assert(k < m.len());
                assert(m[k] == q);
            }
            if q == p {
                assert(r[m.len() as int] == q);
            }
        }
        if more.drop_last().contains(q) {
            let k = choose|k: int| 0 <= k < more.drop_last().len() && more.drop_last()[k] == q;
            assert(more[k] == q);
        }
        if more.contains(q) && q != p {
            let k = choose|k: int| 0 <= k < more.len() && more[k] == q;
            assert(k < more.len() - 1);
            assert(more.drop_last()[k] == q);
        }
        if q == p {
            assert(more[more.len() - 1] == q);
        }
    }
}

/// A row of a turn names a path: among its linked paths, or, for a work
/// row, in its title and body.
pub open spec fn row_names_path(it: MobileTimelineItemView, q: Seq<char>) -> bool {
    it.linked_file_paths.contains(q) || (is_work_kind(it.kind) && extracted_paths(it.title + " "@ + it.body).contains(
        q,
    ))
}

/// The paths of a turn are the non-empty paths that its rows name.
pub proof fn lemma_turn_paths_members(rows: Seq<MobileTimelineItemView>, q: Seq<char>)
    ensures
        turn_paths(rows).contains(q) <==> q.len() > 0 && exists|k: int|
            0 <= k < rows.len() && row_names_path(#[trigger] rows[k], q),
    decreases rows.len(),
{
    if rows.len() > 0 {
        let it = rows.last();
        let t = turn_paths(rows.drop_last());
        lemma_turn_paths_members(rows.drop_last(), q);
        let a = merge_paths(t, it.linked_file_paths);
        lemma_merge_paths_members(t, it.linked_file_paths, q);
        if is_work_kind(it.kind) {
            lemma_merge_paths_members(a, extracted_paths(it.title + " "@ + it.body), q);
        }
        if exists|k: int| 0 <= k < rows.drop_last().len() && row_names_path(#[trigger] rows.drop_last()[k], q) {
            let k = choose|k: int| 0 <= k < rows.drop_last().len() && row_names_path(#[trigger] rows.drop_last()[k], q);
            assert(rows[k] == rows.drop_last()[k]);
        }
        if exists|k: int| 0 <= k < rows.len() && row_names_path(#[trigger] rows[k], q) {
            let k = choose|k: int| 0 <= k < rows.len() && row_names_path(#[trigger] rows[k], q);
            if k < rows.len() - 1 {
                assert(rows.drop_last()[k] == rows[k]);
            }
        }
        if row_names_path(it, q) {
            assert(rows[rows.len() - 1] == it);
        }
    }
}

/// Enriching the first row with id `id` changes nothing when there is none;
/// otherwise only that row's linked paths change: the old list stays in
/// front, and the paths that join it are exactly the non-empty ones named in
/// the row's body or by the rows of its turn (since the last user message),
/// never repeating one when the old list does not.
pub proof fn lemma_enrich_adds_turn_paths(v: TimelineView, id: Seq<char>, q: Seq<char>)
    ensures
        id_pos(v.items, id) < 0 ==> enrich_spec(v, id) == v,
        id_pos(v.items, id) >= 0 ==> ({
            let p = id_pos(v.items, id);
            let w = enrich_spec(v, id);
            let old = v.items[p].linked_file_paths;
            let new = w.items[p].linked_file_paths;
            let start = turn_start(v.items, p);
            &&& w.items.len() == v.items.len()
            &&& forall|k: int| 0 <= k < v.items.len() && k != p ==> w.items[k] == v.items[k]
            &&& w.items[p] == (MobileTimelineItemView { linked_file_paths: new, ..v.items[p] })
            &&& w.next_id == v.next_id && w.live_assistant == v.live_assistant
            &&& w.live_reasoning == v.live_reasoning && w.open_worklog_hint == v.open_worklog_hint
            &&& new.take(old.len() as int) == old
            &&& (new.contains(q) <==> old.contains(q) || (q.len() > 0 && (extracted_paths(v.items[p].body).contains(q)
                || exists|k: int| start <= k < p && row_names_path(#[trigger] v.items[k], q))))
            &&& old.no_duplicates() ==> new.no_duplicates()
        }),
{
    let p = id_pos(v.items, id);
    if p >= 0 {
        assert(is_first_with_id(v.items, id, p)) by {
            assert(exists|i: int| is_first_with_id(v.items, id, i));
        }
        let it = v.items[p];
        let start = turn_start(v.items, p);
        lemma_turn_start_bounds(v.items, p);
        let rows = v.items.subrange(start, p);
        let turn = paths_since_last_user(v.items, p);
        let paths = merge_paths(extracted_paths(it.body), turn);
        lemma_merge_paths_unique(it.linked_file_paths, paths);
        lemma_merge_paths_members(it.linked_file_paths, paths, q);
        lemma_merge_paths_members(extracted_paths(it.body), turn, q);
        lemma_turn_paths_members(rows, q);
        if exists|k: int| 0 <= k < rows.len() && row_names_path(#[trigger] rows[k], q) {
            let k = choose|k: int| 0 <= k < rows.len() && row_names_path(#[trigger] rows[k], q);
            assert(rows[k] == v.items[start + k]);
        }
        if exists|k: int| start <= k < p && row_names_path(#[trigger] v.items[k], q) {
            let k = choose|k: int| start <= k < p && row_names_path(#[trigger] v.items[k], q);
            assert(rows[k - start] == v.items[k]);
        }
    }
}

proof fn lemma_turn_start_bounds(items: Seq<MobileTimelineItemView>, end: int)
    requires
        0 <= end <= items.len(),
    ensures
        0 <= turn_start(items, end) <= end,
    decreases end,
{
    if end > 0 && items[end - 1].kind != MobileTimelineItemKind::UserMessage {
        lemma_turn_start_bounds(items, end - 1);
    }
}

/// The timeline after `seal_open_work_items`: the live reply finished, the
/// live reasoning finished, and every open work row marked done.
pub open spec fn sealed_timeline(v: TimelineView) -> TimelineView {
    let f = finish_reasoning_spec(finish_assistant_spec(v));
    TimelineView { items: seal_work_rows(f.items), ..f }
}

/// Sealing drops the rows of the live reasoning id when the first of them
/// has a blank body (a reasoning row that never got text).
pub open spec fn seal_drops_reasoning(v: TimelineView) -> bool {
    v.live_reasoning matches Some(r) && id_pos(v.items, r) >= 0 && is_blank(v.items[id_pos(v.items, r)].body)
}

/// The rows without those with id `id`, in order.
pub open spec fn without_id(s: Seq<MobileTimelineItemView>, id: Seq<char>) -> Seq<MobileTimelineItemView> {
    s.filter(|it: MobileTimelineItemView| it.id != id)
}

/// The rows that sealing keeps, in order.
pub open spec fn seal_kept_rows(v: TimelineView) -> Seq<MobileTimelineItemView> {
    if seal_drops_reasoning(v) {
        without_id(v.items, v.live_reasoning.unwrap())
    } else {
        v.items
    }
}

/// Whether a row is the row a live id names.
pub open spec fn has_live_id(it: MobileTimelineItemView, live: Option<Seq<char>>) -> bool {
    live matches Some(x) && it.id == x
}

/// How a kept row `k` stands after sealing as `w`: the same id, kind, title
/// and body; the linked paths change only on the live reply; the status is
/// kept or becomes done, becomes done for an open work row, and is kept
/// (bar that) on every row that is not a live one.
pub open spec fn sealed_row(
    k: MobileTimelineItemView,
    w: MobileTimelineItemView,
    a: Option<Seq<char>>,
    r: Option<Seq<char>>,
) -> bool {
    &&& w.id == k.id && w.kind == k.kind && w.title == k.title && w.body == k.body
    &&& !has_live_id(k, a) ==> w.linked_file_paths == k.linked_file_paths
    &&& w.status == k.status || w.status == MobileTimelineItemStatus::Done
    &&& is_open_work_item(k) ==> w.status == MobileTimelineItemStatus::Done
    &&& !has_live_id(k, a) && !has_live_id(k, r) ==> w.status == (if is_open_work_item(k) {
        MobileTimelineItemStatus::Done
    } else {
        k.status
    })
}

proof fn lemma_same_ids_same_pos(s: Seq<MobileTimelineItemView>, t: Seq<MobileTimelineItemView>, id: Seq<char>)
    requires
        s.len() == t.len(),
        forall|i: int| 0 <= i < s.len() ==> (#[trigger] s[i]).id == t[i].id,
    ensures
        id_pos(s, id) == id_pos(t, id),
{
    if exists|i: int| is_first_with_id(s, id, i) {
        let i = choose|i: int| is_first_with_id(s, id, i);
        assert(is_first_with_id(t, id, i)) by {
            assert forall|k: int| 0 <= k < i implies (#[trigger] t[k]).id != id by {
                assert(s[k].id == t[k].id);
            }
        }
        lemma_id_pos(s, id, i);
        lemma_id_pos(t, id, i);
    } else if exists|i: int| is_first_with_id(t, id, i) {
        let i = choose|i: int| is_first_with_id(t, id, i);
        assert(is_first_with_id(s, id, i)) by {
            assert forall|k: int| 0 <= k < i implies (#[trigger] s[k]).id != id by {
                assert(s[k].id == t[k].id);
            }
        }
    }
}

proof fn lemma_filter_pointwise(
    s: Seq<MobileTimelineItemView>,
    t: Seq<MobileTimelineItemView>,
    rel: spec_fn(MobileTimelineItemView, MobileTimelineItemView) -> bool,
    id: Seq<char>,
)
    requires
        s.len() == t.len(),
        forall|i: int| 0 <= i < s.len() ==> rel(#[trigger] s[i], t[i]) && s[i].id == t[i].id,
    ensures
        without_id(s, id).len() == without_id(t, id).len(),
        forall|j: int| 0 <= j < without_id(s, id).len() ==> rel(#[trigger] without_id(s, id)[j], without_id(t, id)[j]),
    decreases s.len(),
{
    reveal_with_fuel(Seq::filter, 1);
    let pred = |it: MobileTimelineItemView| it.id != id;
    if s.len() > 0 {
        let s0 = s.drop_last();
        let t0 = t.drop_last();
        assert forall|i: int| 0 <= i < s0.len() implies rel(#[trigger] s0[i], t0[i]) && s0[i].id == t0[i].id by {
            assert(s0[i] == s[i] && t0[i] == t[i]);
        }
        lemma_filter_pointwise(s0, t0, rel, id);
        assert(rel(s[s.len() - 1], t[t.len() - 1]) && s[s.len() - 1].id == t[t.len() - 1].id);
        assert(without_id(s, id) == without_id(s0, id) + (if pred(s.last()) { seq![s.last()] } else { Seq::empty() }));
        assert(without_id(t, id) == without_id(t0, id) + (if pred(t.last()) { seq![t.last()] } else { Seq::empty() }));
        assert forall|j: int| 0 <= j < without_id(s, id).len() implies rel(#[trigger] without_id(s, id)[j], without_id(t, id)[j]) by {
            if j < without_id(s0, id).len() {
                assert(rel(without_id(s0, id)[j], without_id(t0, id)[j]));
            }
        }
    }
}

/// After `seal_open_work_items` no live reply or reasoning row stays open and
/// no work row is running or pending; the rows that stay are the old ones in
/// order, bar the rows of a blank live reasoning row, and each keeps its id,
/// kind, title and body, and its status unless it is a live row (which is
/// ended) or an open work row (which becomes done); only the live reply can
/// gain linked paths, and its row, when it stays, ends done.
pub proof fn lemma_seal_open_work(v: TimelineView)
    ensures
        sealed_timeline(v).live_assistant is None,
        sealed_timeline(v).live_reasoning is None,
        forall|i: int|
            0 <= i < sealed_timeline(v).items.len() ==> !is_open_work_item(#[trigger] sealed_timeline(v).items[i]),
        sealed_timeline(v).items.len() == seal_kept_rows(v).len(),
        forall|i: int|
            0 <= i < seal_kept_rows(v).len() ==> sealed_row(
                #[trigger] seal_kept_rows(v)[i],
                sealed_timeline(v).items[i],
                v.live_assistant,
                v.live_reasoning,
            ),
        (v.live_assistant matches Some(x) && id_pos(v.items, x) >= 0 && !(seal_drops_reasoning(v)
            && v.live_reasoning == v.live_assistant)) ==> exists|j: int|
            0 <= j < sealed_timeline(v).items.len() && (#[trigger] sealed_timeline(v).items[j]).id
                == v.live_assistant.unwrap() && sealed_timeline(v).items[j].status == MobileTimelineItemStatus::Done,
{
    let a = v.live_assistant;
    let r = v.live_reasoning;
    let s0 = v.items;
    // The live reply: marked done, then enriched.
    let v2 = match a {
        Some(x) => enrich_spec(
            TimelineView { items: set_status_by_id(v.items, x, MobileTimelineItemStatus::Done), live_assistant: None, ..v },
            x,
        ),
        None => v,
    };
    let s2 = v2.items;
    assert(s2.len() == s0.len() && forall|i: int|
        0 <= i < s0.len() ==> #[trigger] s2[i].id == s0[i].id && s2[i].kind == s0[i].kind && s2[i].title
            == s0[i].title && s2[i].body == s0[i].body && (!has_live_id(s0[i], a) ==> s2[i] == s0[i]) && (s2[i].status
            == s0[i].status || s2[i].status == MobileTimelineItemStatus::Done)) by {
        match a {
            Some(x) => {
                let v1 = TimelineView {
                    items: set_status_by_id(v.items, x, MobileTimelineItemStatus::Done),
                    live_assistant: None,
                    ..v
                };
                let p = id_pos(s0, x);
                if p >= 0 {
                    assert(is_first_with_id(s0, x, p)) by {
                        assert(exists|i: int| is_first_with_id(s0, x, i));
                    }
                }
                assert(v1.items.len() == s0.len());
                assert forall|i: int| 0 <= i < s0.len() implies #[trigger] v1.items[i].id == s0[i].id
                    && (i != p ==> v1.items[i] == s0[i]) by {}
                lemma_same_ids_same_pos(v1.items, s0, x);
                lemma_enrich_adds_turn_paths(v1, x, Seq::empty());
                assert forall|i: int| 0 <= i < s0.len() implies #[trigger] s2[i].id == s0[i].id && s2[i].kind
                    == s0[i].kind && s2[i].title == s0[i].title && s2[i].body == s0[i].body && (!has_live_id(s0[i], a)
                    ==> s2[i] == s0[i]) && (s2[i].status == s0[i].status || s2[i].status
                    == MobileTimelineItemStatus::Done) by {
                    if i == p {
                        assert(s0[i].id == x);
                    }
                }
            },
            None => {},
        }
    }
    assert(finish_assistant_spec(v) == finish_reasoning_spec(v2));
    assert(v2.live_reasoning == r && v2.live_assistant is None);
    let v3 = finish_reasoning_spec(v2);
    assert(finish_reasoning_spec(v3) == v3);
    let s3 = v3.items;
    let k = seal_kept_rows(v);
    let rel = |x: MobileTimelineItemView, y: MobileTimelineItemView|
        y.id == x.id && y.kind == x.kind && y.title == x.title && y.body == x.body && (!has_live_id(x, a)
            ==> y.linked_file_paths == x.linked_file_paths) && (y.status == x.status || y.status
            == MobileTimelineItemStatus::Done) && (!has_live_id(x, a) && !has_live_id(x, r) ==> y.status == x.status);
    assert(s3.len() == k.len() && forall|i: int| 0 <= i < k.len() ==> rel(#[trigger] k[i], s3[i])) by {
        match r {
            Some(y) => {
                lemma_same_ids_same_pos(s2, s0, y);
                let p = id_pos(s0, y);
                if p >= 0 && is_blank(s0[p].body) {
                    assert(s2[p].body == s0[p].body);
                    assert forall|i: int| 0 <= i < s0.len() implies rel(#[trigger] s0[i], s2[i]) && s0[i].id
                        == s2[i].id by {
                        assert(s2[i].id == s0[i].id);
                    }
                    lemma_filter_pointwise(s0, s2, rel, y);
                } else if p >= 0 {
                    assert(s2[p].body == s0[p].body);
                    assert forall|i: int| 0 <= i < k.len() implies rel(#[trigger] k[i], s3[i]) by {
                        assert(s2[i].id == s0[i].id);
                        if i == p {
                            assert(s0[i].id == y);
                        }
                    }
                } else {
                    assert forall|i: int| 0 <= i < k.len() implies rel(#[trigger] k[i], s3[i]) by {
                        assert(s2[i].id == s0[i].id);
                    }
                }
            },
            None => {
                assert forall|i: int| 0 <= i < k.len() implies rel(#[trigger] k[i], s3[i]) by {
                    assert(s2[i].id == s0[i].id);
                }
            },
        }
    }
    let w = sealed_timeline(v);
    assert(w.items == seal_work_rows(s3));
    if a matches Some(x) && id_pos(s0, x) >= 0 && !(seal_drops_reasoning(v) && r == a) {
        let x = a.unwrap();
        let p = id_pos(s0, x);
        assert(is_first_with_id(s0, x, p)) by {
            assert(exists|i: int| is_first_with_id(s0, x, i));
        }
        let v1 = TimelineView {
            items: set_status_by_id(v.items, x, MobileTimelineItemStatus::Done),
            live_assistant: None,
            ..v
        };
        assert(v1.items[p].status == MobileTimelineItemStatus::Done);
        lemma_same_ids_same_pos(v1.items, s0, x);
        lemma_enrich_adds_turn_paths(v1, x, Seq::empty());
        assert(s2[p].status == MobileTimelineItemStatus::Done && s2[p].id == x);
        let j = if seal_drops_reasoning(v) {
            let y = r.unwrap();
            lemma_same_ids_same_pos(s2, s0, y);
            s2.lemma_filter_contains(|it: MobileTimelineItemView| it.id != y, p);
            assert(s3 == without_id(s2, y));
            choose|j: int| 0 <= j < s3.len() && s3[j] == s2[p]
        } else {
            match r {
                Some(y) => {
                    lemma_same_ids_same_pos(s2, s0, y);
                },
                None => {},
            }
            p
        };
        assert(s3[j].id == x && s3[j].status == MobileTimelineItemStatus::Done);
        assert(w.items[j].id == x && w.items[j].status == MobileTimelineItemStatus::Done);
    }
    assert forall|i: int| 0 <= i < k.len() implies sealed_row(#[trigger] k[i], w.items[i], a, r) by {
        assert(rel(k[i], s3[i]));
    }
}

} // verus!
