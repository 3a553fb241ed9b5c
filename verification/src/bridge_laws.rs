//! What the native bridge promises across calls: a callback for the request
//! that waits is answered with its own event and ends the wait; any other
//! callback is answered with an error and leaves every wait as it was; each
//! accepted event moves the event counter on by one.
use crate::native_bridge::{
    after_event, discovery_callback_spec, event_error, picker_callback_spec, termux_callback_spec, NativeBridgeView,
    NativeMobileEventView,
};
use crate::native_document_picker::{picker_callback_event, AndroidDocumentPickerCallback};
use crate::native_pc_discovery::AndroidPcGatewayDiscoveryCallback;
use crate::native_termux::AndroidTermuxCallback;
use vstd::prelude::*;

verus! {

/// Every accepted event is kept as the last one, moves the counter on by one
/// (it stays at its largest value), and leaves the queue and the waits alone.
pub proof fn lemma_event_moves_counter(s: NativeBridgeView, e: NativeMobileEventView)
    ensures
        after_event(s, e).last_event == Some(e),
        after_event(s, e).last_error == event_error(e),
        s.last_event_id < u64::MAX ==> after_event(s, e).last_event_id == s.last_event_id + 1,
        s.last_event_id == u64::MAX ==> after_event(s, e).last_event_id == u64::MAX,
        after_event(s, e).pending_commands == s.pending_commands,
        after_event(s, e).active_document_picker_request_id == s.active_document_picker_request_id,
        after_event(s, e).active_pc_discovery_request_id == s.active_pc_discovery_request_id,
        after_event(s, e).active_termux_request_ids == s.active_termux_request_ids,
{
}

/// A picker callback for the waiting request gives the callback's own event
/// and ends the wait; the event is recorded.
pub proof fn lemma_picker_answer_ends_wait(s: NativeBridgeView, cb: AndroidDocumentPickerCallback)
    requires
        s.active_document_picker_request_id == Some(cb.request_id_spec()),
    ensures
        picker_callback_spec(s, cb).1 == picker_callback_event(cb),
        picker_callback_spec(s, cb).0.active_document_picker_request_id is None,
        picker_callback_spec(s, cb).0.last_event == Some(picker_callback_event(cb)),
        picker_callback_spec(s, cb).0.pending_commands == s.pending_commands,
{
}

/// A picker callback for any other request is answered with a picker
/// failure, recorded as the last error, and the waits stay as they were.
pub proof fn lemma_stale_picker_callback_refused(s: NativeBridgeView, cb: AndroidDocumentPickerCallback)
    requires
        s.active_document_picker_request_id != Some(cb.request_id_spec()),
    ensures
        picker_callback_spec(s, cb).1 is DocumentPickerFailed,
        picker_callback_spec(s, cb).0.last_error is Some,
        picker_callback_spec(s, cb).0.active_document_picker_request_id == s.active_document_picker_request_id,
        picker_callback_spec(s, cb).0.active_pc_discovery_request_id == s.active_pc_discovery_request_id,
        picker_callback_spec(s, cb).0.active_termux_request_ids == s.active_termux_request_ids,
{
}

/// A discovery callback for the waiting browse ends the wait exactly when it
/// completes or fails the browse; for any other browse it is answered with a
/// discovery failure and the waits stay as they were.
pub proof fn lemma_discovery_callbacks(s: NativeBridgeView, cb: AndroidPcGatewayDiscoveryCallback)
    ensures
        s.active_pc_discovery_request_id == Some(cb.request_id_spec()) ==> (
        discovery_callback_spec(s, cb).0.active_pc_discovery_request_id is None <==> (cb is Completed
            || cb is Failed)),
        s.active_pc_discovery_request_id != Some(cb.request_id_spec()) ==> (discovery_callback_spec(s, cb).1 is PcGatewayDiscoveryFailed
            && discovery_callback_spec(s, cb).0.last_error is Some && discovery_callback_spec(
            s,
            cb,
        ).0.active_pc_discovery_request_id == s.active_pc_discovery_request_id
            && discovery_callback_spec(s, cb).0.active_pc_discovery_since_unix
            == s.active_pc_discovery_since_unix),
{
}

/// A Termux callback for a waiting command (or one the store still holds)
/// ends that command's wait, and the wait clock stops once nothing waits; a
/// callback for anything else is answered with a Termux failure and the
/// waits stay as they were.
pub proof fn lemma_termux_callbacks(s: NativeBridgeView, cb: AndroidTermuxCallback, saved_pending: bool)
    ensures
        (s.active_termux_request_ids.contains(cb.request_id_spec()) || saved_pending) ==> (
        !termux_callback_spec(s, cb, saved_pending).0.active_termux_request_ids.contains(cb.request_id_spec())
            && (termux_callback_spec(s, cb, saved_pending).0.active_termux_request_ids.len() == 0
            ==> termux_callback_spec(s, cb, saved_pending).0.active_termux_since_unix is None)),
        !(s.active_termux_request_ids.contains(cb.request_id_spec()) || saved_pending) ==> (termux_callback_spec(
            s,
            cb,
            saved_pending,
        ).1 is TermuxCommandFailed && termux_callback_spec(s, cb, saved_pending).0.active_termux_request_ids
            == s.active_termux_request_ids && termux_callback_spec(s, cb, saved_pending).0.last_error is Some),
{
    let id = cb.request_id_spec();
    let f = |a: Seq<char>| a != id;
    if s.active_termux_request_ids.contains(id) || saved_pending {
        let ids = s.active_termux_request_ids.filter(f);
        if ids.contains(id) {
            let k = choose|k: int| 0 <= k < ids.len() && ids[k] == id;
            s.active_termux_request_ids.lemma_filter_pred(f, k);
        }
    }
}

proof fn lemma_filter_keeps_members<A>(s: Seq<A>, f: spec_fn(A) -> bool, x: A)
    ensures
        s.filter(f).contains(x) <==> (s.contains(x) && f(x)),
    decreases s.len(),
{
    reveal_with_fuel(Seq::filter, 1);
    s.filter_lemma(f);
    if s.contains(x) && f(x) {
        let i = choose|i: int| 0 <= i < s.len() && s[i] == x;
        s.lemma_filter_contains(f, i);
    }
    if s.len() > 0 && s.filter(f).contains(x) {
        let j = choose|j: int| 0 <= j < s.filter(f).len() && s.filter(f)[j] == x;
        s.lemma_filter_pred(f, j);
        let k = s.drop_last().filter(f);
        assert(s.filter(f) == k + (if f(s.last()) { seq![s.last()] } else { Seq::empty() }));
        if j < k.len() {
            assert(k[j] == x);
            lemma_filter_keeps_members(s.drop_last(), f, x);
            let i = choose|i: int| 0 <= i < s.drop_last().len() && s.drop_last()[i] == x;
            assert(s[i] == x);
        } else {
            assert(s[s.len() - 1] == x);
        }
    }
}

/// Whatever a Termux callback is, afterwards exactly the old waiting ids
/// other than its own still wait: no other command's wait is dropped, and
/// the wait clock keeps running while any command still waits.
pub proof fn lemma_termux_callback_keeps_other_waits(
    s: NativeBridgeView,
    cb: AndroidTermuxCallback,
    saved_pending: bool,
    x: Seq<char>,
)
    ensures
        termux_callback_spec(s, cb, saved_pending).0.active_termux_request_ids.contains(x) <==> (
        s.active_termux_request_ids.contains(x) && x != cb.request_id_spec()),
        termux_callback_spec(s, cb, saved_pending).0.active_termux_request_ids.len() > 0 ==> termux_callback_spec(
            s,
            cb,
            saved_pending,
        ).0.active_termux_since_unix == s.active_termux_since_unix,
{
    let id = cb.request_id_spec();
    let f = |a: Seq<char>| a != id;
    lemma_filter_keeps_members(s.active_termux_request_ids, f, x);
}

} // verus!
