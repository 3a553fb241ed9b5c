//! Keeping the screen's copy of the bridge in step with the shared one.
use crate::native_bridge::{NativeBridgeState, NativeBridgeView};
use vstd::prelude::*;

verus! {

/// Whether the shared bridge moved on from the screen's copy: a new event,
/// or commands that started or stopped waiting.
pub open spec fn bridge_moved(latest: NativeBridgeView, current: NativeBridgeView) -> bool {
    latest.last_event_id != current.last_event_id || (latest.pending_commands.len() > 0)
        != (current.pending_commands.len() > 0)
}

/// Replaces the screen's copy with the shared bridge when that moved on;
/// returns whether it did.
pub fn sync_bridge_from_runtime(bridge: &mut NativeBridgeState, latest: NativeBridgeState) -> (r: bool)
    ensures
        r == bridge_moved(latest@, old(bridge)@),
        r ==> final(bridge)@ == latest@,
        !r ==> final(bridge)@ == old(bridge)@,
{
    let changed = latest.last_event_id != bridge.last_event_id || latest.has_pending_commands()
        != bridge.has_pending_commands();
    if changed {
        *bridge = latest;
    }
    changed
}

} // verus!
