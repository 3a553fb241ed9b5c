//! Keeping the chat scrolled to the newest message in the web view.
use crate::text::owned;
use vstd::prelude::*;

verus! {

broadcast use vstd::string::group_string_axioms;

/// The element id of the chat's scroll panel.
pub const CHAT_SCROLL_PANEL_ID: &'static str = "deepseek-chat-scroll";

/// How close to the bottom, in pixels, counts as at the bottom.
pub const STICKY_THRESHOLD_PX: u32 = 160;

/// The script before the `force` flag.
pub const SCROLL_SCRIPT_HEAD: &'static str = "\n        (function() {\n            const el = document.getElementById(\"deepseek-chat-scroll\");\n            if (!el) return;\n            const force = ";

/// The script after the `force` flag.
pub const SCROLL_SCRIPT_TAIL: &'static str = ";\n            const threshold = 160;\n            const nearBottom = el.scrollHeight - el.scrollTop - el.clientHeight <= threshold;\n            if (!force && !nearBottom) return;\n            const scroll = () => { el.scrollTop = el.scrollHeight; };\n            scroll();\n            requestAnimationFrame(scroll);\n        })();\n        ";

/// The script that scrolls the chat to the bottom when it is near the
/// bottom already, or always when `force` is set.
pub fn sticky_scroll_script(force: bool) -> (r: String)
    ensures
        r@ == SCROLL_SCRIPT_HEAD@ + (if force { "true"@ } else { "false"@ }) + SCROLL_SCRIPT_TAIL@,
{
    let mut s = owned(SCROLL_SCRIPT_HEAD);
    s.append(if force { "true" } else { "false" });
    s.append(SCROLL_SCRIPT_TAIL);
    s
}

/// The script that always scrolls the chat to the newest message.
pub fn scroll_chat_to_bottom_force_script() -> (r: String)
    ensures
        r@ == SCROLL_SCRIPT_HEAD@ + "true"@ + SCROLL_SCRIPT_TAIL@,
{
    sticky_scroll_script(true)
}

} // verus!
