//! A PC host discovery run started from a flag file: over mDNS through the
//! platform host, or over HTTP to base URLs listed by hand (one per line)
//! when mDNS finds nothing. The run is marked by a `unix,baseline` or
//! `unix,manual` marker and ends with one result line.
use crate::agent_timeline::opt_view;
use crate::native_bridge::{
    queued_one, NativeBridgeState, NativeBridgeView, NativeMobileCommand, NativeMobileEvent, NativeMobileEventView,
};
use crate::native_pc_discovery::{PC_GATEWAY_DISCOVERY_TIMEOUT_MS, PC_GATEWAY_SERVICE_TYPE};
use crate::text::{
    chars_of, decimal, lines, owned, parse_u64, parse_u64_spec, pieces_view, push_decimal, split_at_class, split_lines,
    split_on, split_pred, string_from_chars, trim, trim_chars, CharClass, SplitClass,
};
use vstd::prelude::*;

verus! {

broadcast use vstd::string::group_string_axioms;

/// The request id of the discovery that a probe starts.
pub const PROBE_REQUEST_ID: &'static str = "deepseek-pc-discovery-probe-v1";

/// How long a probe may run, in seconds.
pub const PROBE_TIMEOUT_SECS: u64 = 45;

/// The result line of a probe that ran out of time with no URL to try by hand.
pub const TIMEOUT_RESULT_LINE: &'static str =
    "FAIL timeout (start deepseek-pc-host on 0.0.0.0:8787, same Wi-Fi, or set .pc_discovery_manual_url)";

/// How a probe was started.
#[derive(Clone, Debug, PartialEq, Eq)]
pub enum ProbeKickoff {
    NotRequested,
    Mdns,
    Manual(Vec<String>),
}

/// What a poll of a running probe found.
#[derive(Clone, Debug, PartialEq, Eq)]
pub enum ProbeTickResult {
    Idle,
    Finished,
    ManualProbe(Vec<String>),
}

/// One gateway that a discovery report lists.
#[derive(Clone, Debug, PartialEq, Eq)]
pub struct PcGatewayDiscoveryCandidate {
    pub base_url: String,
    /// Whether the gateway answered a probe.
    pub online: bool,
}

/// The gateways that a discovery found.
#[derive(Clone, Debug, PartialEq, Eq)]
pub struct PcGatewayDiscoveryReport {
    pub candidates: Vec<PcGatewayDiscoveryCandidate>,
}

/// The candidates as (base URL, online) pairs.
pub open spec fn candidates_view(v: Seq<PcGatewayDiscoveryCandidate>) -> Seq<(Seq<char>, bool)> {
    v.map_values(|c: PcGatewayDiscoveryCandidate| (c.base_url@, c.online))
}

/// The index of the first online candidate, or the number of candidates.
pub open spec fn first_online(c: Seq<(Seq<char>, bool)>) -> int
    decreases c.len(),
{
    if c.len() == 0 {
        0
    } else if c[0].1 {
        0
    } else {
        1 + first_online(c.drop_first())
    }
}

proof fn lemma_first_online(c: Seq<(Seq<char>, bool)>, i: int)
    requires
        0 <= i <= c.len(),
        forall|j: int| 0 <= j < i ==> !(#[trigger] c[j]).1,
        i < c.len() ==> c[i].1,
    ensures
        first_online(c) == i,
    decreases i,
{
    if c.len() > 0 && i > 0 {
        assert forall|j: int| 0 <= j < i - 1 implies !(#[trigger] c.drop_first()[j]).1 by {
            assert(c.drop_first()[j] == c[j + 1]);
        }
        if i < c.len() {
            assert(c.drop_first()[i - 1] == c[i]);
        }
        lemma_first_online(c.drop_first(), i - 1);
    }
}

/// Whether some candidate is online.
pub open spec fn has_online(c: Seq<(Seq<char>, bool)>) -> bool {
    exists|i: int| 0 <= i < c.len() && (#[trigger] c[i]).1
}

/// The result line for a finished discovery.
pub open spec fn result_line_spec(c: Seq<(Seq<char>, bool)>, mode: Seq<char>) -> Seq<char> {
    if has_online(c) {
        "PASS endpoints=1 first="@ + c[first_online(c)].0 + " mode="@ + mode
    } else if c.len() > 0 {
        "FAIL discovery completed with 0 online endpoints (found "@ + decimal(c.len()) + ", first="@ + c[0].0
            + ") mode="@ + mode
    } else {
        "FAIL discovery completed with 0 candidates (same Wi-Fi? PC host on 0.0.0.0:8787?) mode="@ + mode
    }
}

fn find_online(report: &PcGatewayDiscoveryReport) -> (r: Option<usize>)
    ensures
        ({
            let c = candidates_view(report.candidates@);
            match r {
                Some(i) => has_online(c) && i == first_online(c) && i < report.candidates@.len(),
                None => !has_online(c),
            }
        }),
{
    let ghost c = candidates_view(report.candidates@);
    let mut i: usize = 0;
    while i < report.candidates.len()
        invariant
            i <= report.candidates.len(),
            c == candidates_view(report.candidates@),
            forall|j: int| 0 <= j < i ==> !(#[trigger] c[j]).1,
        decreases report.candidates.len() - i,
    {
        if report.candidates[i].online {
            assert(c[i as int].1);
            proof {
                lemma_first_online(c, i as int);
            }
            return Some(i);
        }
        i = i + 1;
    }
    None
}

/// Whether a report lists an online gateway.
pub fn report_has_online(report: &PcGatewayDiscoveryReport) -> (r: bool)
    ensures
        r == has_online(candidates_view(report.candidates@)),
{
    find_online(report).is_some()
}

/// The result line of a finished discovery in `mode` (`mdns` or `manual`):
/// a pass with the first online gateway, or a failure that says what was found.
pub fn discovery_result_line(report: &PcGatewayDiscoveryReport, mode: &str) -> (r: String)
    ensures
        r@ == result_line_spec(candidates_view(report.candidates@), mode@),
{
    let ghost c = candidates_view(report.candidates@);
    assert(c.len() == report.candidates@.len());
    match find_online(report) {
        Some(i) => {
            assert(c[i as int].0 == report.candidates@[i as int].base_url@);
            let mut s = owned("PASS endpoints=1 first=");
            s.append(report.candidates[i].base_url.as_str());
            s.append(" mode=");
            s.append(mode);
            s
        },
        None => {
            if report.candidates.len() > 0 {
                assert(c[0].0 == report.candidates@[0].base_url@);
                let mut s = owned("FAIL discovery completed with 0 online endpoints (found ");
                push_decimal(&mut s, report.candidates.len() as u128);
                s.append(", first=");
                s.append(report.candidates[0].base_url.as_str());
                s.append(") mode=");
                s.append(mode);
                s
            } else {
                let mut s = owned("FAIL discovery completed with 0 candidates (same Wi-Fi? PC host on 0.0.0.0:8787?) mode=");
                s.append(mode);
                s
            }
        },
    }
}

/// The result line of a discovery that the platform host reported as failed.
pub fn failure_result_line(message: &str) -> (r: String)
    ensures
        r@ == "FAIL "@ + message@ + " mode=mdns"@,
{
    let mut s = owned("FAIL ");
    s.append(message);
    s.append(" mode=mdns");
    s
}

/// The base URLs listed by hand: the trimmed lines that are neither empty
/// nor comments starting with `#`.
pub open spec fn manual_urls_spec(raw: Seq<char>) -> Seq<Seq<char>> {
    lines(raw).map_values(|l: Seq<char>| trim(l)).filter(|l: Seq<char>| l.len() > 0 && l[0] != '#')
}

/// The base URLs listed by hand in `raw`.
pub fn manual_urls_from_text(raw: &str) -> (r: Vec<String>)
    ensures
        r@.map_values(|s: String| s@) == manual_urls_spec(raw@),
{
    let chars = chars_of(raw);
    let ls = split_lines(&chars);
    let ghost lv = pieces_view(ls@);
    let ghost tv = lv.map_values(|l: Seq<char>| trim(l));
    let ghost f = |l: Seq<char>| l.len() > 0 && l[0] != '#';
    let mut out: Vec<String> = Vec::new();
    let mut i: usize = 0;
    assert(tv.take(0).filter(f) =~= Seq::<Seq<char>>::empty());
    assert(out@.map_values(|s: String| s@) =~= Seq::<Seq<char>>::empty());
    while i < ls.len()
        invariant
            i <= ls.len(),
            lv == pieces_view(ls@),
            tv == lv.map_values(|l: Seq<char>| trim(l)),
            f == (|l: Seq<char>| l.len() > 0 && l[0] != '#'),
            out@.map_values(|s: String| s@) == tv.take(i as int).filter(f),
        decreases ls.len() - i,
    {
        let t = trim_chars(&ls[i], CharClass::Whitespace);
        assert(crate::text::class_pred(CharClass::Whitespace) == (|c: char| crate::text::unicode_whitespace(c)));
        assert(t@ == tv[i as int]);
        reveal_with_fuel(Seq::filter, 1);
        assert(tv.take(i + 1).drop_last() == tv.take(i as int));
        assert(tv.take(i + 1).last() == tv[i as int]);
        if t.len() > 0 && t[0] != '#' {
            let ghost before = out@;
            out.push(string_from_chars(&t));
            assert(out@.map_values(|s: String| s@) =~= before.map_values(|s: String| s@).push(t@));
        }
        i = i + 1;
    }
    assert(tv.take(ls.len() as int) == tv);
    assert(lv == lines(raw@));
    out
}

/// What a running marker says: when the run started, the event counter
/// before it, and whether it is a run by hand.
pub open spec fn running_marker_spec(raw: Seq<char>) -> Option<(u64, u64, bool)> {
    let parts = split_on(trim(raw), split_pred(SplitClass::Comma));
    match parse_u64_spec(parts[0]) {
        None => None,
        Some(unix) => if parts.len() < 2 {
            None
        } else if parts[1] == "manual"@ {
            Some((unix, 0, true))
        } else {
            match parse_u64_spec(parts[1]) {
                Some(id) => Some((unix, id, false)),
                None => None,
            }
        },
    }
}

/// Reads a running marker.
pub fn parse_running_marker(raw: &str) -> (r: Option<(u64, u64, bool)>)
    ensures
        r == running_marker_spec(raw@),
{
    let chars = chars_of(raw);
    let t = trim_chars(&chars, CharClass::Whitespace);
    assert(crate::text::class_pred(CharClass::Whitespace) == (|c: char| crate::text::unicode_whitespace(c)));
    let parts = split_at_class(&t, SplitClass::Comma);
    proof {
        crate::text::lemma_split_on_nonempty(t@, split_pred(SplitClass::Comma));
    }
    assert(pieces_view(parts@)[0] == parts@[0]@);
    let unix = match parse_u64(&parts[0]) {
        Some(u) => u,
        None => return None,
    };
    if parts.len() < 2 {
        return None;
    }
    assert(pieces_view(parts@)[1] == parts@[1]@);
    let manual = chars_of("manual");
    if crate::text::chars_eq(&parts[1], &manual) {
        return Some((unix, 0, true));
    }
    match parse_u64(&parts[1]) {
        Some(id) => Some((unix, id, false)),
        None => None,
    }
}

/// The marker of a run started at `now`: by hand, or over mDNS after event `baseline`.
pub open spec fn marker_text_spec(now: u64, baseline: Option<u64>) -> Seq<char> {
    decimal(now as nat) + ","@ + match baseline {
        Some(b) => decimal(b as nat),
        None => "manual"@,
    }
}

/// The marker of a run started at `now`.
pub fn running_marker_text(now: u64, baseline: Option<u64>) -> (r: String)
    ensures
        r@ == marker_text_spec(now, baseline),
{
    let mut s = String::new();
    push_decimal(&mut s, now as u128);
    s.append(",");
    match baseline {
        Some(b) => push_decimal(&mut s, b as u128),
        None => s.append("manual"),
    }
    s
}

/// Whether a run started at `started` has run out of time at `now`.
pub open spec fn timed_out_spec(started: u64, now: u64) -> bool {
    (if now >= started { now - started } else { 0 }) > PROBE_TIMEOUT_SECS
}

/// Whether a run started at `started` has run out of time at `now`.
pub fn probe_timed_out(started: u64, now: u64) -> (r: bool)
    ensures
        r == timed_out_spec(started, now),
{
    let waited = if now >= started { now - started } else { 0 };
    waited > PROBE_TIMEOUT_SECS
}

/// The bridge with any discovery wait dropped.
pub open spec fn without_discovery_wait(s: NativeBridgeView) -> NativeBridgeView {
    if s.active_pc_discovery_request_id is Some {
        NativeBridgeView { active_pc_discovery_request_id: None, active_pc_discovery_since_unix: None, ..s }
    } else {
        s
    }
}

/// Drops a discovery wait that a new or stale run must not wait on.
pub fn reset_stale_pc_discovery_wait(bridge: &mut NativeBridgeState)
    ensures
        final(bridge)@ == without_discovery_wait(old(bridge)@),
{
    if bridge.active_pc_discovery_request_id.is_some() {
        bridge.active_pc_discovery_request_id = None;
        bridge.active_pc_discovery_since_unix = None;
    }
}

/// A discovery command of a probe.
pub open spec fn is_probe_discovery(c: NativeMobileCommand) -> bool {
    c matches NativeMobileCommand::StartPcGatewayDiscovery(d) && d.request_id@ == PROBE_REQUEST_ID@
}

/// Starts a requested probe at `now`: nothing when none was requested;
/// otherwise any old discovery wait is dropped and the run goes by hand when
/// URLs are listed, else over mDNS with a discovery queued on the bridge.
/// The second result is the running marker to write.
pub fn kickoff_if_requested(bridge: &mut NativeBridgeState, requested: bool, manual_urls: Vec<String>, now: u64) -> (r: (
    ProbeKickoff,
    Option<String>,
))
    ensures
        !requested ==> r.0 == ProbeKickoff::NotRequested && r.1 is None && final(bridge)@ == old(bridge)@,
        requested && manual_urls@.len() > 0 ==> r.0 == ProbeKickoff::Manual(manual_urls) && opt_view(r.1) == Some(
            marker_text_spec(now, None),
        ) && final(bridge)@ == without_discovery_wait(old(bridge)@),
        requested && manual_urls@.len() == 0 ==> r.0 == ProbeKickoff::Mdns && opt_view(r.1) == Some(
            marker_text_spec(now, Some(old(bridge)@.last_event_id)),
        ) && queued_one(without_discovery_wait(old(bridge)@), final(bridge)@) && is_probe_discovery(
            final(bridge)@.pending_commands.last(),
        ),
{
    if !requested {
        return (ProbeKickoff::NotRequested, None);
    }
    reset_stale_pc_discovery_wait(bridge);
    if manual_urls.len() > 0 {
        return (ProbeKickoff::Manual(manual_urls), Some(running_marker_text(now, None)));
    }
    let baseline = bridge.last_event_id;
    let marker = running_marker_text(now, Some(baseline));
    bridge.enqueue_pc_gateway_discovery(PROBE_REQUEST_ID);
    (ProbeKickoff::Mdns, Some(marker))
}

/// What a poll of an mDNS run decides once the bridge has news.
#[derive(Clone, Debug, PartialEq, Eq)]
pub enum ProbeStep {
    /// Nothing to do yet.
    Idle,
    /// Go on over HTTP with the listed URLs (and mark the run as by hand).
    Manual(Vec<String>),
    /// The run is over: write the line, drop the running marker, and drop
    /// the URL list too when asked.
    Finished { result_line: String, clear_manual_urls: bool },
}

/// The decision of a poll: nothing before a new event; after a finished
/// browse, the URLs by hand when no gateway is online and some are listed,
/// else the result; after a failed browse, the URLs by hand or the failure;
/// after an update, the result once a gateway is online, else the URLs by
/// hand when listed. `report` is what the discovery service made of the
/// event's records.
pub open spec fn finalize_spec(
    s: NativeBridgeView,
    baseline: u64,
    report: Seq<(Seq<char>, bool)>,
    manual_urls: Seq<String>,
) -> Option<(bool, Option<(Seq<char>, bool)>)> {
    // None: idle; Some((true, _)): by hand; Some((false, Some((line, clear)))): finished.
    if s.last_event_id <= baseline {
        None
    } else {
        match s.last_event {
            Some(NativeMobileEventView::PcGatewayDiscoveryCompleted(_)) => if !has_online(report)
                && manual_urls.len() > 0 {
                Some((true, None))
            } else {
                Some((false, Some((result_line_spec(report, "mdns"@), true))))
            },
            Some(NativeMobileEventView::PcGatewayDiscoveryFailed(m)) => if manual_urls.len() > 0 {
                Some((true, None))
            } else {
                Some((false, Some(("FAIL "@ + m + " mode=mdns"@, false))))
            },
            Some(NativeMobileEventView::PcGatewayDiscoveryUpdated(_)) => if has_online(report) {
                Some((false, Some((result_line_spec(report, "mdns"@), true))))
            } else if manual_urls.len() > 0 {
                Some((true, None))
            } else {
                None
            },
            _ => None,
        }
    }
}

/// The step as the encoding of `finalize_spec`.
pub open spec fn step_code(step: ProbeStep) -> Option<(bool, Option<(Seq<char>, bool)>)> {
    match step {
        ProbeStep::Idle => None,
        ProbeStep::Manual(_) => Some((true, None)),
        ProbeStep::Finished { result_line, clear_manual_urls } => Some((false, Some((result_line@, clear_manual_urls)))),
    }
}

/// Decides a poll of an mDNS run that started after event `baseline`.
pub fn finalize_from_bridge(
    bridge: &NativeBridgeState,
    baseline: u64,
    report: &PcGatewayDiscoveryReport,
    manual_urls: Vec<String>,
) -> (r: ProbeStep)
    ensures
        step_code(r) == finalize_spec(bridge@, baseline, candidates_view(report.candidates@), manual_urls@),
        r matches ProbeStep::Manual(u) ==> u == manual_urls,
{
    if bridge.last_event_id <= baseline {
        return ProbeStep::Idle;
    }
    let online = report_has_online(report);
    match &bridge.last_event {
        Some(NativeMobileEvent::PcGatewayDiscoveryCompleted(_)) => {
            if !online && manual_urls.len() > 0 {
                ProbeStep::Manual(manual_urls)
            } else {
                ProbeStep::Finished { result_line: discovery_result_line(report, "mdns"), clear_manual_urls: true }
            }
        },
        Some(NativeMobileEvent::PcGatewayDiscoveryFailed(m)) => {
            if manual_urls.len() > 0 {
                ProbeStep::Manual(manual_urls)
            } else {
                ProbeStep::Finished { result_line: failure_result_line(m.as_str()), clear_manual_urls: false }
            }
        },
        Some(NativeMobileEvent::PcGatewayDiscoveryUpdated(_)) => {
            if online {
                ProbeStep::Finished { result_line: discovery_result_line(report, "mdns"), clear_manual_urls: true }
            } else if manual_urls.len() > 0 {
                ProbeStep::Manual(manual_urls)
            } else {
                ProbeStep::Idle
            }
        },
        _ => ProbeStep::Idle,
    }
}

/// Drops a running marker that has run out of time at `now`, together with
/// the bridge's discovery wait. Returns whether the marker is to be removed.
pub fn recover_stale_running_marker(marker: Option<(u64, u64, bool)>, now: u64, bridge: &mut NativeBridgeState) -> (r:
    bool)
    ensures
        match marker {
            Some((started, _, _)) => r == timed_out_spec(started, now),
            None => !r,
        },
        r ==> final(bridge)@ == without_discovery_wait(old(bridge)@),
        !r ==> final(bridge)@ == old(bridge)@,
{
    match marker {
        None => false,
        Some((started, _, _)) => {
            if !probe_timed_out(started, now) {
                return false;
            }
            reset_stale_pc_discovery_wait(bridge);
            true
        },
    }
}

/// Decides one poll of a running probe, given its marker (started, baseline,
/// by hand): nothing without a marker or for a run by hand; for an mDNS run
/// that ran out of time, the discovery wait is dropped and the run goes on by
/// hand when URLs are listed, else ends with the timeout line; otherwise the
/// bridge's news decide, as `finalize_from_bridge` does.
pub fn poll_running_probe(
    bridge: &mut NativeBridgeState,
    marker: Option<(u64, u64, bool)>,
    now: u64,
    report: &PcGatewayDiscoveryReport,
    manual_urls: Vec<String>,
) -> (r: ProbeStep)
    ensures
        match marker {
            None => r == ProbeStep::Idle && final(bridge)@ == old(bridge)@,
            Some((_, _, true)) => r == ProbeStep::Idle && final(bridge)@ == old(bridge)@,
            Some((started, baseline, false)) => if timed_out_spec(started, now) {
                &&& final(bridge)@ == without_discovery_wait(old(bridge)@)
                &&& manual_urls@.len() > 0 ==> r == ProbeStep::Manual(manual_urls)
                &&& manual_urls@.len() == 0 ==> step_code(r) == Some(
                    (false, Some((TIMEOUT_RESULT_LINE@, false))),
                )
            } else {
                &&& final(bridge)@ == old(bridge)@
                &&& step_code(r) == finalize_spec(
                    old(bridge)@,
                    baseline,
                    candidates_view(report.candidates@),
                    manual_urls@,
                )
                &&& r matches ProbeStep::Manual(u) ==> u == manual_urls
            },
        },
{
    match marker {
        None => ProbeStep::Idle,
        Some((started, baseline, by_hand)) => {
            if by_hand {
                return ProbeStep::Idle;
            }
            if probe_timed_out(started, now) {
                reset_stale_pc_discovery_wait(bridge);
                if manual_urls.len() > 0 {
                    ProbeStep::Manual(manual_urls)
                } else {
                    ProbeStep::Finished { result_line: owned(TIMEOUT_RESULT_LINE), clear_manual_urls: false }
                }
            } else {
                finalize_from_bridge(bridge, baseline, report, manual_urls)
            }
        },
    }
}

} // verus!
