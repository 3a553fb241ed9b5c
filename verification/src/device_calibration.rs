//! Decisions of the one-shot Android calibration (seed the Termux project and
//! check the shell); the flag files themselves are kept by the host.
use crate::text::{
    chars_of, class_pred, contains, drop_start, lines, parse_u64, parse_u64_spec, pieces_view,
    slice_range, split_lines, str_contains, str_eq, trim_bounds, unicode_whitespace, CharClass,
};
use crate::native_bridge::{
    queued_one, NativeBridgeState, NativeBridgeView, NativeMobileCommand, NativeMobileEvent, NativeMobileEventView,
};
use crate::native_termux::TermuxExecRequest;
use crate::json::{get, get_i64, get_str, i64_field, json_get, json_text_value, parse_json, str_field, JsonValue};
use vstd::prelude::*;

verus! {

broadcast use vstd::string::group_string_axioms;

/// The request id of the calibration command.
pub const CALIBRATION_REQUEST_ID: &'static str = "deepseek-device-calibration-v1";

/// The request id of the background Termux health probe.
pub const HEALTH_TERMUX_PROBE_ID: &'static str = "deepseek-health-termux-probe-v1";

/// Seconds after the last queued calibration before it is tried again.
pub const CALIBRATION_RETRY_AFTER_SECS: u64 = 90;

/// Whether a Termux request id is the calibration command.
pub fn is_calibration_request(request_id: &str) -> (r: bool)
    ensures
        r == (request_id@ == CALIBRATION_REQUEST_ID@),
{
    str_eq(request_id, CALIBRATION_REQUEST_ID)
}

/// Whether a Termux request id is the health probe.
pub fn is_health_probe_request(request_id: &str) -> (r: bool)
    ensures
        r == (request_id@ == HEALTH_TERMUX_PROBE_ID@),
{
    str_eq(request_id, HEALTH_TERMUX_PROBE_ID)
}

/// The output of a calibration run shows that the project directory was
/// seeded: it names `deepseek-project` and shows the marker, a listing or the README.
pub open spec fn project_seeded(stdout: Seq<char>) -> bool {
    contains(stdout, "deepseek-project"@) && (contains(stdout, "DEEPSEEK_CALIBRATION_OK"@)
        || contains(stdout, "total "@) || contains(stdout, "README"@))
}

/// Standard output, standard error and the error text, one per line.
pub open spec fn combined_output(stdout: Seq<char>, stderr: Seq<char>, error: Option<Seq<char>>) -> Seq<char> {
    stdout + "\n"@ + stderr + "\n"@ + match error {
        Some(e) => e,
        None => Seq::empty(),
    }
}

/// A calibration run succeeded: exit code 0, the success marker anywhere in
/// the output, or a seeded project without the `allow-external-apps` complaint.
pub open spec fn calibration_succeeded(
    stdout: Seq<char>,
    stderr: Seq<char>,
    error: Option<Seq<char>>,
    exit_code: Option<i32>,
) -> bool {
    let combined = combined_output(stdout, stderr, error);
    exit_code == Some(0i32) || contains(combined, "DEEPSEEK_CALIBRATION_OK"@) || (project_seeded(
        stdout,
    ) && !contains(combined, "allow-external-apps"@))
}

/// Whether the result of a calibration run means the device is calibrated.
pub fn note_calibration_result(
    stdout: &str,
    stderr: &str,
    error: Option<&str>,
    exit_code: Option<i32>,
) -> (r: bool)
    ensures
        r == calibration_succeeded(
            stdout@,
            stderr@,
            match error {
                Some(e) => Some(e@),
                None => None,
            },
            exit_code,
        ),
{
    let mut combined = crate::text::owned(stdout);
    combined.append("\n");
    combined.append(stderr);
    combined.append("\n");
    match error {
        Some(e) => combined.append(e),
        None => {},
    }
    let ghost ev = match error {
        Some(e) => Some(e@),
        None => None,
    };
    proof {
        reveal_strlit("");
    }
    assert(combined@ =~= combined_output(stdout@, stderr@, ev));
    let seeded = str_contains(stdout, "deepseek-project") && (str_contains(
        stdout,
        "DEEPSEEK_CALIBRATION_OK",
    ) || str_contains(stdout, "total ") || str_contains(stdout, "README"));
    let exit_ok = match exit_code {
        Some(code) => code == 0,
        None => false,
    };
    exit_ok || str_contains(combined.as_str(), "DEEPSEEK_CALIBRATION_OK") || (seeded && !str_contains(
        combined.as_str(),
        "allow-external-apps",
    ))
}

/// A change to the calibration flag files that the host makes after a run.
#[derive(Clone, Copy, Debug, PartialEq, Eq, Structural)]
pub enum CalibrationFlagAction {
    /// Write the calibrated marker.
    MarkCalibrated,
    /// Remove the request for a calibration.
    ClearCalibrationRequest,
    /// Remove the pending onboarding provisioning flag.
    ClearOnboardingProvision,
}

/// The flag changes owed after a run: on success the device is marked
/// calibrated and both pending requests are cleared, in that order; a failed
/// run changes nothing.
pub open spec fn calibration_flag_actions_spec(succeeded: bool) -> Seq<CalibrationFlagAction> {
    if succeeded {
        seq![
            CalibrationFlagAction::MarkCalibrated,
            CalibrationFlagAction::ClearCalibrationRequest,
            CalibrationFlagAction::ClearOnboardingProvision,
        ]
    } else {
        Seq::empty()
    }
}

/// The flag changes that follow a calibration verdict.
pub fn calibration_flag_actions(succeeded: bool) -> (r: Vec<CalibrationFlagAction>)
    ensures
        r@ == calibration_flag_actions_spec(succeeded),
{
    let mut r: Vec<CalibrationFlagAction> = Vec::new();
    if succeeded {
        r.push(CalibrationFlagAction::MarkCalibrated);
        r.push(CalibrationFlagAction::ClearCalibrationRequest);
        r.push(CalibrationFlagAction::ClearOnboardingProvision);
    }
    assert(r@ =~= calibration_flag_actions_spec(succeeded));
    r
}

/// The verdict on a calibration run together with the flag changes it asks for.
pub fn calibration_result_actions(
    stdout: &str,
    stderr: &str,
    error: Option<&str>,
    exit_code: Option<i32>,
) -> (r: (bool, Vec<CalibrationFlagAction>))
    ensures
        r.0 == calibration_succeeded(
            stdout@,
            stderr@,
            match error {
                Some(e) => Some(e@),
                None => None,
            },
            exit_code,
        ),
        r.1@ == calibration_flag_actions_spec(r.0),
{
    let ok = note_calibration_result(stdout, stderr, error, exit_code);
    (ok, calibration_flag_actions(ok))
}

/// The number of leading characters of `s` that are not white space.
pub open spec fn word_len(s: Seq<char>) -> int
    decreases s.len(),
{
    if s.len() == 0 || unicode_whitespace(s[0]) {
        0
    } else {
        1 + word_len(s.drop_first())
    }
}

/// The first white-space separated word of `s` (empty when there is none).
pub open spec fn first_word(s: Seq<char>) -> Seq<char> {
    let t = drop_start(s, |c: char| unicode_whitespace(c));
    t.take(word_len(t))
}

fn first_word_chars(s: &[char]) -> (r: Vec<char>)
    ensures
        r@ == first_word(s@),
{
    let ghost p = |c: char| unicode_whitespace(c);
    let mut i: usize = 0;
    assert(s@.skip(0) == s@);
    while i < s.len() && crate::text::is_whitespace(s[i])
        invariant
            i <= s.len(),
            p == (|c: char| unicode_whitespace(c)),
            drop_start(s@, p) == drop_start(s@.skip(i as int), p),
        decreases s.len() - i,
    {
        assert(s@.skip(i as int)[0] == s@[i as int]);
        assert(s@.skip(i as int).drop_first() == s@.skip(i + 1));
        i = i + 1;
    }
    if i < s.len() {
        assert(s@.skip(i as int)[0] == s@[i as int]);
    }
    let ghost t = s@.skip(i as int);
    assert(drop_start(s@, p) == t);
    let mut j: usize = i;
    assert(t.skip(0) == t);
    while j < s.len() && !crate::text::is_whitespace(s[j])
        invariant
            i <= j <= s.len(),
            t == s@.skip(i as int),
            word_len(t) == (j - i) + word_len(s@.skip(j as int)),
        decreases s.len() - j,
    {
        assert(s@.skip(j as int)[0] == s@[j as int]);
        assert(s@.skip(j as int).drop_first() == s@.skip(j + 1));
        j = j + 1;
    }
    if j < s.len() {
        assert(s@.skip(j as int)[0] == s@[j as int]);
    }
    let r = slice_range(s, i, j);
    assert(r@ =~= t.take(word_len(t)));
    r
}

/// `i` is the last line that contains `stage=queued`.
pub open spec fn is_last_queued_line(ls: Seq<Seq<char>>, i: int) -> bool {
    0 <= i < ls.len() && contains(ls[i], "stage=queued"@) && forall|k: int|
        i < k < ls.len() ==> !contains(#[trigger] ls[k], "stage=queued"@)
}

/// The Unix time at the start of the last `stage=queued` line of a calibration trace.
pub open spec fn last_queued_unix_spec(trace: Seq<char>) -> Option<u64> {
    let ls = lines(trace);
    if exists|i: int| is_last_queued_line(ls, i) {
        parse_u64_spec(first_word(ls[choose|i: int| is_last_queued_line(ls, i)]))
    } else {
        None
    }
}

/// The Unix time of the last queued calibration in a trace text.
pub fn last_queued_unix(trace: &str) -> (r: Option<u64>)
    ensures
        r == last_queued_unix_spec(trace@),
{
    let chars = chars_of(trace);
    let ls = split_lines(&chars);
    let ghost lv = pieces_view(ls@);
    let marker = chars_of("stage=queued");
    let mut i = ls.len();
    while i > 0
        invariant
            i <= ls.len(),
            lv == pieces_view(ls@),
            lv == lines(trace@),
            marker@ == "stage=queued"@,
            forall|k: int| i <= k < lv.len() ==> !contains(#[trigger] lv[k], "stage=queued"@),
        decreases i,
    {
        i = i - 1;
        if crate::text::contains_chars(ls[i].as_slice(), &marker) {
            assert(is_last_queued_line(lv, i as int));
            let ghost c = choose|k: int| is_last_queued_line(lv, k);
            assert(c == i) by {
                if c < i {
                    assert(!contains(lv[i as int], "stage=queued"@));
                } else if c > i {
                    assert(!contains(lv[c], "stage=queued"@));
                }
            }
            let w = first_word_chars(ls[i].as_slice());
            return parse_u64(&w);
        }
    }
    assert(!exists|k: int| is_last_queued_line(lv, k));
    None
}

/// Whether a calibration should be queued again: the device is not
/// calibrated and the last queued one is at least 90 seconds old.
pub fn should_retry_calibration(calibrated: bool, seconds_since_last_queue: Option<u64>) -> (r: bool)
    ensures
        r == (!calibrated && match seconds_since_last_queue {
            Some(age) => age >= CALIBRATION_RETRY_AFTER_SECS,
            None => false,
        }),
{
    if calibrated {
        return false;
    }
    match seconds_since_last_queue {
        Some(age) => age >= CALIBRATION_RETRY_AFTER_SECS,
        None => false,
    }
}

/// Whether the calibration trace shows that Termux refused external apps.
pub fn needs_allow_external_apps(trace: &str) -> (r: bool)
    ensures
        r == contains(trace@, "allow-external-apps"@),
{
    str_contains(trace, "allow-external-apps")
}

/// The Termux home directory, where the calibration and the probe run.
pub const TERMUX_HOME: &'static str = "/data/data/com.termux/files/home";

/// The shell command of the health probe.
pub const HEALTH_PROBE_COMMAND: &'static str = "pwd && echo DEEPSEEK_TERMUX_PROBE_OK";

/// The script that seeds the Termux project directory and checks the shell.
pub const CALIBRATION_SCRIPT: &'static str = "set -e
mkdir -p \"$HOME/deepseek-project\"
cd \"$HOME/deepseek-project\"
if [ ! -f README.md ]; then
  cat > README.md <<'EOF'
# deepseek-project

Рабочая область агента DeepSeek Mobile (Termux).
Сюда можно клонировать репозиторий или распаковать ZIP из приложения.
EOF
fi
mkdir -p .deepseek
pwd
ls -la
echo DEEPSEEK_CALIBRATION_OK
";

/// `c` runs `command` in the Termux home under `request_id`, with a timeout of `timeout` seconds.
pub open spec fn is_termux_run(c: NativeMobileCommand, request_id: Seq<char>, command: Seq<char>, timeout: u64) -> bool {
    c matches NativeMobileCommand::RunTermuxCommand(r) && r.request_id@ == request_id && r.command@ == command
        && r.working_dir@ == TERMUX_HOME@ && r.timeout_secs == Some(timeout)
}

fn termux_request(request_id: &str, command: &str, timeout: u64) -> (r: TermuxExecRequest)
    ensures
        is_termux_run(NativeMobileCommand::RunTermuxCommand(r), request_id@, command@, timeout),
{
    TermuxExecRequest {
        request_id: crate::text::owned(request_id),
        command: crate::text::owned(command),
        working_dir: crate::text::owned(TERMUX_HOME),
        timeout_secs: Some(timeout),
    }
}

/// Queues the background health probe when Termux is set up and the bridge
/// is idle: nothing queued and no Termux command waiting. Returns whether it queued.
pub fn schedule_termux_health_probe(bridge: &mut NativeBridgeState, termux_ready: bool) -> (r: bool)
    ensures
        r == (termux_ready && old(bridge)@.pending_commands.len() == 0 && old(bridge)@.active_termux_request_ids.len()
            == 0),
        !r ==> final(bridge)@ == old(bridge)@,
        r ==> queued_one(old(bridge)@, final(bridge)@) && is_termux_run(
            final(bridge)@.pending_commands.last(),
            HEALTH_TERMUX_PROBE_ID@,
            HEALTH_PROBE_COMMAND@,
            60,
        ),
{
    if !termux_ready || bridge.has_pending_commands() {
        return false;
    }
    if bridge.is_waiting_for_termux_callback() {
        return false;
    }
    bridge.enqueue_termux_command(termux_request(HEALTH_TERMUX_PROBE_ID, HEALTH_PROBE_COMMAND, 60));
    assert(final(bridge)@.pending_commands.drop_last() =~= old(bridge)@.pending_commands);
    true
}

/// Whether the only Termux command waiting is an old calibration.
pub open spec fn only_stale_calibration(ids: Seq<Seq<char>>) -> bool {
    ids.len() == 1 && ids[0] == CALIBRATION_REQUEST_ID@
}

/// Queues the calibration script when the device is not calibrated yet, a
/// calibration was asked for, Termux is set up and nothing is queued. A
/// waiting Termux command stops it, unless that command is an old
/// calibration, whose wait is then dropped. Returns whether it queued.
pub fn schedule_android_calibration(
    bridge: &mut NativeBridgeState,
    calibrated: bool,
    requested: bool,
    termux_ready: bool,
) -> (r: bool)
    ensures
        ({
            let s = old(bridge)@;
            let ids = s.active_termux_request_ids;
            r == (!calibrated && requested && termux_ready && s.pending_commands.len() == 0 && (ids.len() == 0
                || only_stale_calibration(ids)))
        }),
        !r ==> final(bridge)@ == old(bridge)@,
        r ==> queued_one(
            NativeBridgeView { active_termux_request_ids: Seq::empty(), ..old(bridge)@ },
            final(bridge)@,
        ) && is_termux_run(final(bridge)@.pending_commands.last(), CALIBRATION_REQUEST_ID@, CALIBRATION_SCRIPT@, 90),
{
    if calibrated || !requested || !termux_ready {
        return false;
    }
    if bridge.has_pending_commands() {
        return false;
    }
    if bridge.is_waiting_for_termux_callback() {
        let only_stale = bridge.active_termux_request_ids.len() == 1 && str_eq(
            bridge.active_termux_request_ids[0].as_str(),
            CALIBRATION_REQUEST_ID,
        );
        if only_stale {
            bridge.active_termux_request_ids = Vec::new();
        } else {
            return false;
        }
    }
    assert(bridge@.active_termux_request_ids =~= Seq::<Seq<char>>::empty());
    bridge.enqueue_termux_command(termux_request(CALIBRATION_REQUEST_ID, CALIBRATION_SCRIPT, 90));
    assert(final(bridge)@.pending_commands.drop_last() =~= old(bridge)@.pending_commands);
    true
}

/// An `i64` cut to its low 32 bits, as a cast to `i32` does.
pub open spec fn wrap_i32(n: i64) -> i32 {
    let m = (n as int) % 0x1_0000_0000;
    (if m >= 0x8000_0000 { m - 0x1_0000_0000 } else { m }) as i32
}

fn to_i32_wrapping(n: i64) -> (r: i32)
    ensures
        r == wrap_i32(n),
{
    let m: i64 = n % 0x1_0000_0000i64;
    let m: i64 = if m < 0 { m + 0x1_0000_0000i64 } else { m };
    assert(m as int == (n as int) % 0x1_0000_0000);
    if m >= 0x8000_0000i64 {
        (m - 0x1_0000_0000i64) as i32
    } else {
        m as i32
    }
}

/// What a `termux_completed` payload reports of the calibration command:
/// its output, error output, error text and exit code (missing texts read
/// as empty); nothing for any other payload.
pub open spec fn calibration_report(v: JsonValue) -> Option<(Seq<char>, Seq<char>, Option<Seq<char>>, Option<i32>)> {
    if str_field(v, "kind"@) == Some("termux_completed"@) {
        match json_get(v, "result"@) {
            Some(r) => if str_field(r, "request_id"@) == Some(CALIBRATION_REQUEST_ID@) {
                Some(
                    (
                        match str_field(r, "stdout"@) {
                            Some(s) => s,
                            None => Seq::empty(),
                        },
                        match str_field(r, "stderr"@) {
                            Some(s) => s,
                            None => Seq::empty(),
                        },
                        str_field(r, "error"@),
                        match i64_field(r, "exit_code"@) {
                            Some(c) => Some(wrap_i32(c)),
                            None => None,
                        },
                    ),
                )
            } else {
                None
            },
            None => None,
        }
    } else {
        None
    }
}

/// Whether a parsed host payload reports a successful calibration run.
pub fn try_note_calibration_from_host_value(v: &JsonValue) -> (r: bool)
    ensures
        r == match calibration_report(*v) {
            Some((out, err, e, code)) => calibration_succeeded(out, err, e, code),
            None => false,
        },
{
    match get_str(v, "kind") {
        Some(k) => if !str_eq(k, "termux_completed") {
            return false;
        },
        None => return false,
    }
    let result = match get(v, "result") {
        Some(r) => r,
        None => return false,
    };
    match get_str(result, "request_id") {
        Some(id) => if !str_eq(id, CALIBRATION_REQUEST_ID) {
            return false;
        },
        None => return false,
    }
    let stdout = match get_str(result, "stdout") {
        Some(s) => s,
        None => "",
    };
    let stderr = match get_str(result, "stderr") {
        Some(s) => s,
        None => "",
    };
    let exit_code = match get_i64(result, "exit_code") {
        Some(c) => Some(to_i32_wrapping(c)),
        None => None,
    };
    proof {
        reveal_strlit("");
    }
    assert(""@ =~= Seq::<char>::empty());
    let error = get_str(result, "error");
    let r = note_calibration_result(stdout, stderr, error, exit_code);
    assert(match error {
        Some(e) => Some(e@),
        None => None::<Seq<char>>,
    } == str_field(*result, "error"@));
    r
}

/// What a bridge event says of the calibration command: for its completion,
/// whether the run succeeded; for its failure, the failure message judged as
/// a run with exit code 1; nothing for other events.
pub open spec fn calibration_of_event(e: NativeMobileEventView) -> Option<bool> {
    match e {
        NativeMobileEventView::TermuxCommandCompleted(r) => if r.request_id == CALIBRATION_REQUEST_ID@ {
            Some(calibration_succeeded(r.stdout, r.stderr, r.error, r.exit_code))
        } else {
            None
        },
        NativeMobileEventView::TermuxCommandFailed { request_id, message } => if request_id
            == CALIBRATION_REQUEST_ID@ {
            Some(calibration_succeeded(Seq::empty(), Seq::empty(), Some(message), Some(1i32)))
        } else {
            None
        },
        _ => None,
    }
}

/// Judges a bridge event that answers the calibration command.
pub fn note_calibration_from_event(event: &NativeMobileEvent) -> (r: Option<bool>)
    ensures
        r == calibration_of_event(event@),
{
    proof {
        reveal_strlit("");
    }
    assert(""@ =~= Seq::<char>::empty());
    match event {
        NativeMobileEvent::TermuxCommandCompleted(result) => {
            if is_calibration_request(result.request_id.as_str()) {
                let error = match &result.error {
                    Some(e) => Some(e.as_str()),
                    None => None,
                };
                Some(note_calibration_result(result.stdout.as_str(), result.stderr.as_str(), error, result.exit_code))
            } else {
                None
            }
        },
        NativeMobileEvent::TermuxCommandFailed { request_id, message } => {
            if is_calibration_request(request_id.as_str()) {
                Some(note_calibration_result("", "", Some(message.as_str()), Some(1)))
            } else {
                None
            }
        },
        _ => None,
    }
}

/// Whether a host payload, given as JSON text, reports a successful
/// calibration run; text that is not JSON reports none. It is read before
/// the bridge correlates the callback, so that a late copy of a good result
/// still counts.
pub fn try_note_calibration_from_host_json(payload: &str) -> (r: bool)
    ensures
        r == match json_text_value(payload@) {
            Some(v) => match calibration_report(v) {
                Some((out, err, e, code)) => calibration_succeeded(out, err, e, code),
                None => false,
            },
            None => false,
        },
{
    match parse_json(payload) {
        Some(v) => try_note_calibration_from_host_value(&v),
        None => false,
    }
}

} // verus!
