//! The pairing screen as it is saved between launches: the request and a
//! status word.
use crate::pc_pairing_manager::MobilePcPairingRequest;
use crate::pc_pairing_state::{
    opt_request_view, EndpointHealthView, PcPairingUiState, PcPairingUiStatus, PcPairingUiStatusView, PcPairingUiView,
};
use crate::text::{chars_of, owned, slice_range, starts_with, starts_with_chars, str_eq, string_from_chars};
use vstd::prelude::*;

verus! {

broadcast use vstd::string::group_string_axioms;

/// The word saved for a status. An error is saved as `error`, without its message.
pub open spec fn status_code_spec(s: PcPairingUiStatusView) -> Seq<char> {
    match s {
        PcPairingUiStatusView::NotConfigured => "not_configured"@,
        PcPairingUiStatusView::ReadyToExport => "ready"@,
        PcPairingUiStatusView::Exported => "exported"@,
        PcPairingUiStatusView::WaitingForPc => "waiting"@,
        PcPairingUiStatusView::Online => "online"@,
        PcPairingUiStatusView::Offline => "offline"@,
        PcPairingUiStatusView::Error(_) => "error"@,
    }
}

/// The word saved for a status.
pub fn pairing_status_code(status: &PcPairingUiStatus) -> (r: &'static str)
    ensures
        r@ == status_code_spec(status@),
{
    match status {
        PcPairingUiStatus::NotConfigured => "not_configured",
        PcPairingUiStatus::ReadyToExport => "ready",
        PcPairingUiStatus::Exported => "exported",
        PcPairingUiStatus::WaitingForPc => "waiting",
        PcPairingUiStatus::Online => "online",
        PcPairingUiStatus::Offline => "offline",
        PcPairingUiStatus::Error(_) => "error",
    }
}

/// `s` with every leading copy of `p` removed (`str::trim_start_matches`).
pub open spec fn strip_all_prefixes(s: Seq<char>, p: Seq<char>) -> Seq<char>
    decreases s.len(),
{
    if p.len() > 0 && starts_with(s, p) {
        strip_all_prefixes(s.skip(p.len() as int), p)
    } else {
        s
    }
}

/// The status read back from a saved word: the known words, an `error:`
/// word as an error with the rest as its message, and anything else as not
/// configured.
pub open spec fn status_from_code_spec(code: Seq<char>) -> PcPairingUiStatusView {
    if code == "ready"@ {
        PcPairingUiStatusView::ReadyToExport
    } else if code == "exported"@ {
        PcPairingUiStatusView::Exported
    } else if code == "waiting"@ {
        PcPairingUiStatusView::WaitingForPc
    } else if code == "online"@ {
        PcPairingUiStatusView::Online
    } else if code == "offline"@ {
        PcPairingUiStatusView::Offline
    } else if starts_with(code, "error:"@) {
        PcPairingUiStatusView::Error(strip_all_prefixes(code, "error:"@))
    } else {
        PcPairingUiStatusView::NotConfigured
    }
}

fn strip_error_prefixes(code: &Vec<char>) -> (r: Vec<char>)
    ensures
        r@ == strip_all_prefixes(code@, "error:"@),
{
    let p = chars_of("error:");
    proof {
        reveal_strlit("error:");
    }
    let mut start: usize = 0;
    assert(code@.skip(0) =~= code@);
    while code.len() - start >= 6 && starts_with_chars(&slice_range(code, start, code.len()), &p)
        invariant
            p@ == "error:"@,
            "error:"@.len() == 6,
            start <= code.len(),
            strip_all_prefixes(code@, "error:"@) == strip_all_prefixes(code@.skip(start as int), "error:"@),
        decreases code.len() - start,
    {
        assert(code@.skip(start as int) =~= code@.subrange(start as int, code@.len() as int));
        assert(code@.skip(start as int).skip(6) =~= code@.skip(start + 6));
        start = start + 6;
    }
    let r = slice_range(code, start, code.len());
    proof {
        assert(r@ =~= code@.skip(start as int));
        if code.len() - start < 6 {
            assert(!starts_with(code@.skip(start as int), "error:"@));
        }
    }
    r
}

/// The status read back from a saved word.
pub fn pairing_status_from_code(code: &str) -> (r: PcPairingUiStatus)
    ensures
        r@ == status_from_code_spec(code@),
{
    if str_eq(code, "ready") {
        PcPairingUiStatus::ReadyToExport
    } else if str_eq(code, "exported") {
        PcPairingUiStatus::Exported
    } else if str_eq(code, "waiting") {
        PcPairingUiStatus::WaitingForPc
    } else if str_eq(code, "online") {
        PcPairingUiStatus::Online
    } else if str_eq(code, "offline") {
        PcPairingUiStatus::Offline
    } else {
        let chars = chars_of(code);
        let p = chars_of("error:");
        if starts_with_chars(&chars, &p) {
            let rest = strip_error_prefixes(&chars);
            PcPairingUiStatus::Error(string_from_chars(&rest))
        } else {
            PcPairingUiStatus::NotConfigured
        }
    }
}

/// The screen restored from a saved request and status word; export, routes
/// and error start empty.
pub fn restore_pairing(request: Option<MobilePcPairingRequest>, status_code: &str) -> (r: PcPairingUiState)
    ensures
        r@ == (PcPairingUiView {
            status: status_from_code_spec(status_code@),
            request: opt_request_view(request),
            export_zip_path: None,
            active_endpoint: None,
            endpoint_health: Seq::empty(),
            last_error: None,
        }),
{
    let r = PcPairingUiState {
        status: pairing_status_from_code(status_code),
        request,
        export_zip_path: None,
        active_endpoint: None,
        endpoint_health: Vec::new(),
        last_error: None,
    };
    assert(r@.endpoint_health =~= Seq::<EndpointHealthView>::empty());
    r
}

/// A saved status word reads back as the status it was saved from, for
/// every status but an error, which reads back as not configured.
pub proof fn lemma_status_code_round_trip(s: PcPairingUiStatusView)
    ensures
        !(s is Error) ==> status_from_code_spec(status_code_spec(s)) == s,
        s is Error ==> status_from_code_spec(status_code_spec(s)) == PcPairingUiStatusView::NotConfigured,
{
    reveal_strlit("ready");
    reveal_strlit("exported");
    reveal_strlit("waiting");
    reveal_strlit("online");
    reveal_strlit("offline");
    reveal_strlit("error");
    reveal_strlit("error:");
    reveal_strlit("not_configured");
    assert("not_configured"@.len() != "ready"@.len());
    assert("not_configured"@.len() != "exported"@.len());
    assert("not_configured"@.len() != "waiting"@.len());
    assert("not_configured"@.len() != "online"@.len());
    assert("not_configured"@.len() != "offline"@.len());
    assert("not_configured"@.len() != "error"@.len());
    assert("ready"@.len() != "exported"@.len());
    assert("ready"@.len() != "waiting"@.len());
    assert("ready"@.len() != "online"@.len());
    assert("ready"@.len() != "offline"@.len());
    assert("ready"@[0] != "error"@[0]);
    assert("exported"@.len() != "waiting"@.len());
    assert("exported"@.len() != "online"@.len());
    assert("exported"@.len() != "offline"@.len());
    assert("exported"@.len() != "error"@.len());
    assert("waiting"@.len() != "online"@.len());
    assert("waiting"@[0] != "offline"@[0]);
    assert("waiting"@.len() != "error"@.len());
    assert("online"@.len() != "offline"@.len());
    assert("online"@.len() != "error"@.len());
    assert("offline"@.len() != "error"@.len());
    assert(!starts_with("error"@, "error:"@));
    assert("not_configured"@.take(6)[0] != "error:"@[0]);
    assert(!starts_with("not_configured"@, "error:"@));
}

} // verus!
