//! What an agent turn, and the continuation after approvals, hand back to
//! the chat.
use crate::agent_event_adapter::AgentEvent;
use crate::approval_diff_preview::ApprovalCardArguments;
use vstd::prelude::*;

verus! {

/// The outcome of one agent turn.
#[derive(Debug, PartialEq, Eq)]
pub struct MobileTurnUiResult {
    pub events: Vec<AgentEvent>,
    pub final_text: Option<String>,
    pub approval_cards: Vec<ApprovalCardArguments>,
    pub approval_card_count: usize,
    pub runtime_store_root: String,
    pub workspace_root: String,
    pub thread_id: String,
}

impl MobileTurnUiResult {
    /// Whether approvals wait after the turn.
    pub fn has_pending_approvals(&self) -> (r: bool)
        ensures
            r == (self.approval_card_count > 0),
    {
        self.approval_card_count > 0
    }
}

/// The outcome of continuing a turn after approvals.
#[derive(Debug, PartialEq, Eq)]
pub struct MobileApprovalContinuationUiResult {
    pub events: Vec<AgentEvent>,
    pub final_text: Option<String>,
    pub executed_count: usize,
    pub session_grant_count: usize,
    pub remaining_approval_cards: Vec<ApprovalCardArguments>,
}

impl MobileApprovalContinuationUiResult {
    /// Whether approvals still wait.
    pub fn has_remaining_approvals(&self) -> (r: bool)
        ensures
            r == (self.remaining_approval_cards@.len() > 0),
    {
        self.remaining_approval_cards.len() > 0
    }
}

} // verus!
