//! Several chats on the phone: the index of chat threads, which one is
//! active, and how threads are started, switched, touched and deleted. The
//! on-screen feed is cleared without touching the stored history.
use crate::agent_timeline::{compact_spec, empty_timeline, soften_errors_spec, MobileTimelineState, TimelineView};
use crate::text::{decimal, owned, push_decimal, starts_with, str_eq};
use vstd::prelude::*;

verus! {

broadcast use vstd::string::group_string_axioms;

/// The thread that exists before any chat was started.
pub const LEGACY_THREAD: &'static str = "mobile-default-thread";

/// The title of the thread that exists before any chat was started.
pub const LEGACY_THREAD_TITLE: &'static str = "Main chat";

/// One chat thread.
#[derive(Clone, Debug)]
pub struct ChatThreadMeta {
    pub id: String,
    pub title: String,
    pub created_at_unix: u64,
    pub updated_at_unix: u64,
}

/// A chat thread as values.
pub struct ChatThreadView {
    pub id: Seq<char>,
    pub title: Seq<char>,
    pub created_at_unix: u64,
    pub updated_at_unix: u64,
}

impl View for ChatThreadMeta {
    type V = ChatThreadView;

    open spec fn view(&self) -> ChatThreadView {
        ChatThreadView {
            id: self.id@,
            title: self.title@,
            created_at_unix: self.created_at_unix,
            updated_at_unix: self.updated_at_unix,
        }
    }
}

/// The chat threads and the active one.
#[derive(Clone, Debug)]
pub struct ChatSessionIndex {
    pub active_thread_id: String,
    pub threads: Vec<ChatThreadMeta>,
}

/// The index as values.
pub struct ChatSessionView {
    pub active_thread_id: Seq<char>,
    pub threads: Seq<ChatThreadView>,
}

/// The threads as values.
pub open spec fn threads_view(v: Seq<ChatThreadMeta>) -> Seq<ChatThreadView> {
    v.map_values(|t: ChatThreadMeta| t@)
}

impl View for ChatSessionIndex {
    type V = ChatSessionView;

    open spec fn view(&self) -> ChatSessionView {
        ChatSessionView { active_thread_id: self.active_thread_id@, threads: threads_view(self.threads@) }
    }
}

/// Whether a thread has the id.
pub open spec fn has_thread(threads: Seq<ChatThreadView>, id: Seq<char>) -> bool {
    exists|i: int| 0 <= i < threads.len() && (#[trigger] threads[i]).id == id
}

/// The index of a phone with no chats yet: the legacy thread, active, made at `now`.
pub open spec fn legacy_index_view(now: u64) -> ChatSessionView {
    ChatSessionView {
        active_thread_id: LEGACY_THREAD@,
        threads: seq![
            ChatThreadView {
                id: LEGACY_THREAD@,
                title: LEGACY_THREAD_TITLE@,
                created_at_unix: now,
                updated_at_unix: now,
            },
        ],
    }
}

/// The index with only the legacy thread, made at `now` (the index used when
/// none was saved or the saved one cannot be read).
pub fn legacy_index(now: u64) -> (r: ChatSessionIndex)
    ensures
        r@ == legacy_index_view(now),
{
    let mut threads: Vec<ChatThreadMeta> = Vec::new();
    threads.push(
        ChatThreadMeta {
            id: owned(LEGACY_THREAD),
            title: owned(LEGACY_THREAD_TITLE),
            created_at_unix: now,
            updated_at_unix: now,
        },
    );
    let r = ChatSessionIndex { active_thread_id: owned(LEGACY_THREAD), threads };
    assert(r@.threads =~= legacy_index_view(now).threads);
    r
}

fn find_thread(threads: &Vec<ChatThreadMeta>, id: &str) -> (r: Option<usize>)
    ensures
        match r {
            Some(i) => i < threads@.len() && threads@[i as int].id@ == id@ && forall|j: int|
                0 <= j < i ==> (#[trigger] threads@[j]).id@ != id@,
            None => !has_thread(threads_view(threads@), id@),
        },
{
    let mut i: usize = 0;
    while i < threads.len()
        invariant
            i <= threads.len(),
            forall|j: int| 0 <= j < i ==> (#[trigger] threads@[j]).id@ != id@,
        decreases threads.len() - i,
    {
        if str_eq(threads[i].id.as_str(), id) {
            return Some(i);
        }
        i = i + 1;
    }
    assert forall|j: int| 0 <= j < threads@.len() implies (#[trigger] threads_view(threads@)[j]).id != id@ by {
        assert(threads_view(threads@)[j] == threads@[j]@);
    }
    None
}

/// The error for a thread id that the index does not hold.
pub open spec fn not_found_message(id: Seq<char>) -> Seq<char> {
    "chat thread not found: "@ + id
}

/// Makes `thread_id` the active thread and returns its saved timeline
/// (`loaded`, as read from the thread's store) compacted and with stale
/// errors softened; a failed load gives its error. An error, with the index
/// unchanged, if no thread has that id.
pub fn switch_chat_thread(
    index: &mut ChatSessionIndex,
    thread_id: &str,
    loaded: Result<MobileTimelineState, String>,
) -> (r: Result<MobileTimelineState, String>)
    ensures
        has_thread(old(index)@.threads, thread_id@) ==> final(index)@ == (ChatSessionView {
            active_thread_id: thread_id@,
            ..old(index)@
        }) && match loaded {
            Ok(t) => r matches Ok(x) && x@ == soften_errors_spec(compact_spec(t@)),
            Err(e) => r matches Err(x) && x@ == e@,
        },
        !has_thread(old(index)@.threads, thread_id@) ==> (r matches Err(e) && e@ == not_found_message(thread_id@)
            && final(index)@ == old(index)@),
{
    match find_thread(&index.threads, thread_id) {
        None => {
            let mut e = owned("chat thread not found: ");
            e.append(thread_id);
            Err(e)
        },
        Some(i) => {
            assert(threads_view(index.threads@)[i as int].id == thread_id@);
            index.active_thread_id = owned(thread_id);
            match loaded {
                Ok(t) => {
                    let mut t = t;
                    prepare_switched_timeline(&mut t);
                    Ok(t)
                },
                Err(e) => Err(e),
            }
        },
    }
}

/// A timeline loaded for a switched-to thread, made ready for display:
/// compacted, then stale errors softened.
pub fn prepare_switched_timeline(timeline: &mut MobileTimelineState)
    ensures
        final(timeline)@ == soften_errors_spec(compact_spec(old(timeline)@)),
{
    timeline.compact_for_display();
    timeline.soften_stale_errors();
}

/// An empty on-screen feed; the stored events of the thread stay.
pub fn clear_active_timeline_display() -> (r: MobileTimelineState)
    ensures
        r@ == empty_timeline(),
{
    MobileTimelineState::default()
}

/// The title of the `n`-th chat when none is given.
pub open spec fn default_chat_title(n: nat) -> Seq<char> {
    "Чат "@ + decimal(n)
}

/// Whether a character is a lower-case hexadecimal digit.
pub open spec fn is_lower_hex(c: char) -> bool {
    ('0' <= c <= '9') || ('a' <= c <= 'f')
}

/// The hyphenated lower-case text of a version 4 UUID.
pub open spec fn is_v4_uuid_text(s: Seq<char>) -> bool {
    &&& s.len() == 36
    &&& forall|i: int|
        0 <= i < 36 ==> if i == 8 || i == 13 || i == 18 || i == 23 {
            s[i] == '-'
        } else {
            is_lower_hex(#[trigger] s[i])
        }
    &&& s[14] == '4'
}

/// `uuid::Uuid::new_v4` written with `to_string`: a random UUID of version 4
/// in its hyphenated lower-case form. Which UUID comes back is chance; the
/// call panics only if the system gives no random bytes.
#[verifier::external_body]
fn new_uuid_text() -> (r: String)
    ensures
        is_v4_uuid_text(r@),
{
    uuid::Uuid::new_v4().to_string()
}

/// Starts a new chat at `now` and makes it active; the title is the given
/// one or `Чат <n>`, where `n` counts the new thread among all. Returns the
/// new id (`chat-` and a random UUID) and an empty feed; older threads stay.
pub fn start_new_chat(index: &mut ChatSessionIndex, title: Option<String>, now: u64) -> (r: (
    String,
    MobileTimelineState,
))
    ensures
        starts_with(r.0@, "chat-"@),
        is_v4_uuid_text(r.0@.skip(5)),
        r.1@ == empty_timeline(),
        final(index)@ == (ChatSessionView {
            active_thread_id: r.0@,
            threads: old(index)@.threads.push(
                ChatThreadView {
                    id: r.0@,
                    title: match title {
                        Some(t) => t@,
                        None => default_chat_title((old(index)@.threads.len() + 1) as nat),
                    },
                    created_at_unix: now,
                    updated_at_unix: now,
                },
            ),
        }),
{
    let uuid = new_uuid_text();
    let mut id = owned("chat-");
    id.append(uuid.as_str());
    proof {
        reveal_strlit("chat-");
    }
    assert(id@.skip(5) =~= uuid@);
    assert(id@.take(5) =~= "chat-"@);
    let label = match title {
        Some(t) => t,
        None => {
            let mut l = owned("Чат ");
            push_decimal(&mut l, index.threads.len() as u128 + 1);
            l
        },
    };
    let ghost before = index.threads@;
    index.threads.push(ChatThreadMeta { id: id.clone(), title: label, created_at_unix: now, updated_at_unix: now });
    assert(threads_view(index.threads@) =~= threads_view(before).push(index.threads@.last()@));
    index.active_thread_id = id.clone();
    (id, MobileTimelineState::default())
}

/// The error when the last thread would be deleted.
pub open spec fn only_thread_message() -> Seq<char> {
    "Cannot delete the only chat thread"@
}

/// The threads other than `id`.
pub open spec fn threads_without(threads: Seq<ChatThreadView>, id: Seq<char>) -> Seq<ChatThreadView> {
    threads.filter(|t: ChatThreadView| t.id != id)
}

/// The index after a thread is deleted: the active thread moves to the first
/// remaining one (or the legacy thread) when it was the deleted one.
pub open spec fn after_delete(v: ChatSessionView, id: Seq<char>) -> ChatSessionView {
    let rest = threads_without(v.threads, id);
    ChatSessionView {
        active_thread_id: if v.active_thread_id == id {
            if rest.len() > 0 {
                rest[0].id
            } else {
                LEGACY_THREAD@
            }
        } else {
            v.active_thread_id
        },
        threads: rest,
    }
}

/// No two threads share an id.
pub open spec fn unique_ids(threads: Seq<ChatThreadView>) -> bool {
    forall|i: int, j: int| 0 <= i < threads.len() && 0 <= j < threads.len() && i != j ==> threads[i].id != threads[j].id
}

proof fn lemma_filter_keeps_all(threads: Seq<ChatThreadView>, id: Seq<char>)
    requires
        forall|i: int| 0 <= i < threads.len() ==> (#[trigger] threads[i]).id != id,
    ensures
        threads_without(threads, id) == threads,
    decreases threads.len(),
{
    reveal_with_fuel(Seq::filter, 1);
    if threads.len() > 0 {
        lemma_filter_keeps_all(threads.drop_last(), id);
        assert(threads.drop_last().push(threads.last()) =~= threads);
    } else {
        assert(threads =~= Seq::<ChatThreadView>::empty());
    }
}

proof fn lemma_filter_drops_one(threads: Seq<ChatThreadView>, id: Seq<char>)
    requires
        unique_ids(threads),
        has_thread(threads, id),
    ensures
        threads_without(threads, id).len() == threads.len() - 1,
    decreases threads.len(),
{
    reveal_with_fuel(Seq::filter, 1);
    let init = threads.drop_last();
    assert(unique_ids(init)) by {
        assert forall|i: int, j: int| 0 <= i < init.len() && 0 <= j < init.len() && i != j implies init[i].id
            != init[j].id by {
            assert(init[i] == threads[i] && init[j] == threads[j]);
        }
    }
    if threads.last().id == id {
        assert forall|i: int| 0 <= i < init.len() implies (#[trigger] init[i]).id != id by {
            assert(init[i] == threads[i]);
            assert(threads[threads.len() - 1].id == id);
        }
        lemma_filter_keeps_all(init, id);
    } else {
        let k = choose|k: int| 0 <= k < threads.len() && (#[trigger] threads[k]).id == id;
        assert(k < threads.len() - 1);
        assert(init[k] == threads[k]);
        lemma_filter_drops_one(init, id);
    }
}

/// Deleting one of several threads with distinct ids leaves one thread
/// fewer, none with the deleted id, and an active thread that the index
/// holds whenever the active thread before was held.
pub proof fn lemma_delete_keeps_a_thread(v: ChatSessionView, id: Seq<char>)
    requires
        v.threads.len() > 1,
        has_thread(v.threads, id),
        unique_ids(v.threads),
    ensures
        after_delete(v, id).threads.len() == v.threads.len() - 1,
        after_delete(v, id).threads.len() >= 1,
        !has_thread(after_delete(v, id).threads, id),
        has_thread(v.threads, v.active_thread_id) ==> has_thread(
            after_delete(v, id).threads,
            after_delete(v, id).active_thread_id,
        ),
{
    let f = |t: ChatThreadView| t.id != id;
    let rest = threads_without(v.threads, id);
    lemma_filter_drops_one(v.threads, id);
    assert forall|i: int| 0 <= i < rest.len() implies (#[trigger] rest[i]).id != id by {
        v.threads.lemma_filter_pred(f, i);
    }
    if v.active_thread_id == id {
        assert(rest[0].id == after_delete(v, id).active_thread_id);
    } else if has_thread(v.threads, v.active_thread_id) {
        let k = choose|k: int| 0 <= k < v.threads.len() && (#[trigger] v.threads[k]).id == v.active_thread_id;
        v.threads.lemma_filter_contains(f, k);
        let m = choose|m: int| 0 <= m < rest.len() && rest[m] == v.threads[k];
        assert(rest[m].id == v.active_thread_id);
    }
}

fn remove_threads(threads: &mut Vec<ChatThreadMeta>, id: &str)
    ensures
        threads_view(final(threads)@) == threads_without(threads_view(old(threads)@), id@),
{
    let ghost f = |t: ChatThreadView| t.id != id@;
    let ghost iv = threads_view(threads@);
    let mut rest: Vec<ChatThreadMeta> = Vec::new();
    std::mem::swap(&mut rest, threads);
    let mut kept: Vec<ChatThreadMeta> = Vec::new();
    assert(iv.take(0).filter(f) =~= Seq::<ChatThreadView>::empty());
    assert(threads_view(kept@) =~= Seq::<ChatThreadView>::empty());
    while rest.len() > 0
        invariant
            0 <= iv.len() - rest@.len() <= iv.len(),
            threads_view(rest@) == iv.skip(iv.len() - rest@.len()),
            threads_view(kept@) == iv.take(iv.len() - rest@.len()).filter(f),
            f == (|t: ChatThreadView| t.id != id@),
        decreases rest.len(),
    {
        let ghost i = iv.len() - rest@.len();
        let ghost before_rest = rest@;
        let t = rest.remove(0);
        assert(threads_view(before_rest)[0] == iv.skip(i)[0]);
        assert(t@ == iv[i]);
        assert forall|k: int| 0 <= k < rest@.len() implies #[trigger] threads_view(rest@)[k] == iv.skip(i + 1)[k] by {
            assert(rest@[k] == before_rest[k + 1]);
            assert(threads_view(before_rest)[k + 1] == iv.skip(i)[k + 1]);
        }
        assert(threads_view(rest@) =~= iv.skip(i + 1));
        reveal_with_fuel(Seq::filter, 1);
        assert(iv.take(i + 1).drop_last() == iv.take(i));
        assert(iv.take(i + 1).last() == iv[i]);
        if !str_eq(t.id.as_str(), id) {
            let ghost before = kept@;
            kept.push(t);
            assert(threads_view(kept@) =~= threads_view(before).push(iv[i]));
        }
    }
    assert(iv.take(iv.len() as int) == iv);
    *threads = kept;
}

/// Deletes a thread and says which thread is active afterwards. The only
/// thread cannot be deleted, nor a thread that the index does not hold.
pub fn delete_chat_thread(index: &mut ChatSessionIndex, thread_id: &str) -> (r: Result<String, String>)
    ensures
        old(index)@.threads.len() <= 1 ==> (r matches Err(e) && e@ == only_thread_message() && final(index)@
            == old(index)@),
        old(index)@.threads.len() > 1 && !has_thread(old(index)@.threads, thread_id@) ==> (r matches Err(e) && e@
            == not_found_message(thread_id@) && final(index)@ == old(index)@),
        old(index)@.threads.len() > 1 && has_thread(old(index)@.threads, thread_id@) ==> (r matches Ok(a) && a@
            == final(index)@.active_thread_id && final(index)@ == after_delete(old(index)@, thread_id@)),
{
    if index.threads.len() <= 1 {
        return Err(owned("Cannot delete the only chat thread"));
    }
    match find_thread(&index.threads, thread_id) {
        None => {
            let mut e = owned("chat thread not found: ");
            e.append(thread_id);
            return Err(e);
        },
        Some(i) => {
            assert(threads_view(index.threads@)[i as int].id == thread_id@);
        },
    }
    remove_threads(&mut index.threads, thread_id);
    if str_eq(index.active_thread_id.as_str(), thread_id) {
        if index.threads.len() > 0 {
            assert(threads_view(index.threads@)[0] == index.threads@[0]@);
            index.active_thread_id = index.threads[0].id.clone();
        } else {
            index.active_thread_id = owned(LEGACY_THREAD);
        }
    }
    Ok(index.active_thread_id.clone())
}

/// The index of the first thread with the id, or the number of threads.
pub open spec fn first_thread(threads: Seq<ChatThreadView>, id: Seq<char>) -> int
    decreases threads.len(),
{
    if threads.len() == 0 {
        0
    } else if threads[0].id == id {
        0
    } else {
        1 + first_thread(threads.drop_first(), id)
    }
}

proof fn lemma_first_thread(threads: Seq<ChatThreadView>, id: Seq<char>, i: int)
    requires
        0 <= i <= threads.len(),
        forall|j: int| 0 <= j < i ==> (#[trigger] threads[j]).id != id,
        i < threads.len() ==> threads[i].id == id,
    ensures
        first_thread(threads, id) == i,
    decreases i,
{
    if threads.len() > 0 && i > 0 {
        assert(threads[0].id != id);
        assert forall|j: int| 0 <= j < i - 1 implies (#[trigger] threads.drop_first()[j]).id != id by {
            assert(threads.drop_first()[j] == threads[j + 1]);
        }
        if i < threads.len() {
            assert(threads.drop_first()[i - 1] == threads[i]);
        }
        lemma_first_thread(threads.drop_first(), id, i - 1);
    }
}

/// Marks the active thread as updated at `now`. Returns whether the index
/// holds the active thread, that is whether anything changed (and is to be saved).
pub fn touch_active_thread(index: &mut ChatSessionIndex, now: u64) -> (r: bool)
    ensures
        ({
            let v = old(index)@;
            let i = first_thread(v.threads, v.active_thread_id);
            if i < v.threads.len() {
                r && final(index)@ == (ChatSessionView {
                    threads: v.threads.update(i, ChatThreadView { updated_at_unix: now, ..v.threads[i] }),
                    ..v
                })
            } else {
                !r && final(index)@ == v
            }
        }),
{
    match find_thread(&index.threads, index.active_thread_id.as_str()) {
        Some(i) => {
            proof {
                assert forall|j: int| 0 <= j < i implies (#[trigger] threads_view(index.threads@)[j]).id
                    != index.active_thread_id@ by {
                    assert(threads_view(index.threads@)[j] == index.threads@[j]@);
                }
                lemma_first_thread(threads_view(index.threads@), index.active_thread_id@, i as int);
            }
            let ghost before = index.threads@;
            let mut t = index.threads.remove(i);
            t.updated_at_unix = now;
            index.threads.insert(i, t);
            assert(threads_view(index.threads@) =~= threads_view(before).update(
                i as int,
                ChatThreadView { updated_at_unix: now, ..threads_view(before)[i as int] },
            ));
            true
        },
        None => {
            proof {
                assert forall|j: int| 0 <= j < index.threads@.len() implies (#[trigger] threads_view(
                    index.threads@,
                )[j]).id != index.active_thread_id@ by {
                    assert(threads_view(index.threads@)[j] == index.threads@[j]@);
                }
                lemma_first_thread(
                    threads_view(index.threads@),
                    index.active_thread_id@,
                    index.threads@.len() as int,
                );
            }
            false
        },
    }
}

proof fn lemma_filter_from(s: Seq<ChatThreadView>, f: spec_fn(ChatThreadView) -> bool, x: ChatThreadView)
    requires
        s.filter(f).contains(x),
    ensures
        s.contains(x),
    decreases s.len(),
{
    reveal_with_fuel(Seq::filter, 1);
    if s.len() > 0 {
        let j = choose|j: int| 0 <= j < s.filter(f).len() && s.filter(f)[j] == x;
        if x == s.last() {
            assert(s[s.len() - 1] == x);
        } else {
            let k = s.drop_last().filter(f);
            assert(s.filter(f) == k + (if f(s.last()) { seq![s.last()] } else { Seq::empty() }));
            assert(j < k.len());
            assert(k[j] == x);
            lemma_filter_from(s.drop_last(), f, x);
            let i = choose|i: int| 0 <= i < s.drop_last().len() && s.drop_last()[i] == x;
            assert(s[i] == x);
        }
    }
}

/// Deleting a thread keeps every other thread and drops every copy of the
/// deleted one; deleting a thread that is not the active one leaves the
/// active thread as it was, and deleting the active one makes the first
/// remaining thread active, when one remains.
pub proof fn lemma_delete_keeps_other_active(v: ChatSessionView, id: Seq<char>, t: ChatThreadView)
    ensures
        after_delete(v, id).threads.contains(t) <==> (v.threads.contains(t) && t.id != id),
        v.active_thread_id != id ==> after_delete(v, id).active_thread_id == v.active_thread_id,
        v.active_thread_id == id && after_delete(v, id).threads.len() > 0 ==> after_delete(v, id).active_thread_id
            == after_delete(v, id).threads[0].id && after_delete(v, id).active_thread_id != id,
{
    let f = |x: ChatThreadView| x.id != id;
    let rest = v.threads.filter(f);
    v.threads.filter_lemma(f);
    if v.threads.contains(t) && t.id != id {
        let i = choose|i: int| 0 <= i < v.threads.len() && v.threads[i] == t;
        v.threads.lemma_filter_contains(f, i);
    }
    if rest.len() > 0 {
        v.threads.lemma_filter_pred(f, 0);
    }
    if rest.contains(t) {
        let j = choose|j: int| 0 <= j < rest.len() && rest[j] == t;
        v.threads.lemma_filter_pred(f, j);
        lemma_filter_from(v.threads, f, t);
    }
}

} // verus!
