//! The steps of the first-run wizard: the API key, then the Termux project,
//! then the start.
use crate::native_event_router::{byte_len, utf8_len};
use crate::text::{owned, starts_with, str_starts_with, trim, trim_str};
use vstd::prelude::*;

verus! {

broadcast use vstd::string::group_string_axioms;

/// A step of the first-run wizard.
#[derive(Clone, Copy, Debug, PartialEq, Eq, Structural)]
pub enum OnboardingStep {
    Api,
    Workspaces,
    Done,
}

/// The caption of a step.
pub open spec fn step_caption_spec(step: OnboardingStep) -> Seq<char> {
    match step {
        OnboardingStep::Api => "Step 1/3 — Connect the coding agent API."@,
        OnboardingStep::Workspaces => "Step 2/3 — Termux = full agent on phone (recommended). PC Host is optional later."@,
        OnboardingStep::Done => "Step 3/3 — Ready to open the cockpit."@,
    }
}

/// The caption of a step.
pub fn step_caption(step: OnboardingStep) -> (r: &'static str)
    ensures
        r@ == step_caption_spec(step),
{
    match step {
        OnboardingStep::Api => "Step 1/3 — Connect the coding agent API.",
        OnboardingStep::Workspaces => "Step 2/3 — Termux = full agent on phone (recommended). PC Host is optional later.",
        OnboardingStep::Done => "Step 3/3 — Ready to open the cockpit.",
    }
}

/// The key step's button is enabled once the trimmed key has eight bytes.
pub fn api_key_can_continue(key: &str) -> (r: bool)
    ensures
        r == (utf8_len(trim(key@)) >= 8),
{
    let t = trim_str(key);
    byte_len(t.as_str()) >= 8
}

/// The error shown for a key without the `sk-` prefix.
pub const KEY_PREFIX_ERROR: &'static str = "Key must start with sk-.";

/// Continuing from the key step: on to the workspaces with a key that starts
/// with `sk-` once trimmed, else the prefix error.
pub fn submit_api_key(key: &str) -> (r: Result<OnboardingStep, String>)
    ensures
        starts_with(trim(key@), "sk-"@) ==> r == Ok::<OnboardingStep, String>(OnboardingStep::Workspaces),
        !starts_with(trim(key@), "sk-"@) ==> (r matches Err(m) && m@ == KEY_PREFIX_ERROR@),
{
    let t = trim_str(key);
    if str_starts_with(t.as_str(), "sk-") {
        Ok(OnboardingStep::Workspaces)
    } else {
        Err(owned(KEY_PREFIX_ERROR))
    }
}

/// Continuing from the workspaces step: always to the end; skipping Termux
/// clears the project path, otherwise it is kept.
pub fn leave_workspaces(skip_termux: bool, termux_path: &str) -> (r: (OnboardingStep, String))
    ensures
        r.0 == OnboardingStep::Done,
        r.1@ == (if skip_termux {
            Seq::<char>::empty()
        } else {
            termux_path@
        }),
{
    if skip_termux {
        (OnboardingStep::Done, String::new())
    } else {
        (OnboardingStep::Done, owned(termux_path))
    }
}

/// The Termux project path to save when the wizard ends: the trimmed path,
/// or none when it is blank.
pub fn termux_path_to_save(termux_path: &str) -> (r: Option<String>)
    ensures
        trim(termux_path@).len() == 0 ==> r is None,
        trim(termux_path@).len() > 0 ==> (r matches Some(p) && p@ == trim(termux_path@)),
{
    let t = trim_str(termux_path);
    if t.unicode_len() == 0 {
        None
    } else {
        Some(t)
    }
}

} // verus!
