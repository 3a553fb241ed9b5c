//! The mode chips above the composer: each tap moves a setting to the next
//! value, round and round.
use vstd::prelude::*;

verus! {

/// How much the agent may do on its own.
#[derive(Clone, Copy, Debug, PartialEq, Eq, Structural)]
pub enum ExecutionMode {
    Plan,
    Agent,
    Yolo,
}

/// Which model answers.
#[derive(Clone, Copy, Debug, PartialEq, Eq, Structural)]
pub enum ModelMode {
    Auto,
    Flash,
    Pro,
}

/// How much the model reasons before it answers.
#[derive(Clone, Copy, Debug, PartialEq, Eq, Structural)]
pub enum ThinkingLevel {
    Off,
    Low,
    Medium,
    High,
    Max,
}

/// The execution mode after a tap.
pub open spec fn next_execution_mode_spec(m: ExecutionMode) -> ExecutionMode {
    match m {
        ExecutionMode::Plan => ExecutionMode::Agent,
        ExecutionMode::Agent => ExecutionMode::Yolo,
        ExecutionMode::Yolo => ExecutionMode::Plan,
    }
}

/// The model mode after a tap.
pub open spec fn next_model_mode_spec(m: ModelMode) -> ModelMode {
    match m {
        ModelMode::Auto => ModelMode::Flash,
        ModelMode::Flash => ModelMode::Pro,
        ModelMode::Pro => ModelMode::Auto,
    }
}

/// The thinking level after a tap.
pub open spec fn next_thinking_level_spec(l: ThinkingLevel) -> ThinkingLevel {
    match l {
        ThinkingLevel::Off => ThinkingLevel::Low,
        ThinkingLevel::Low => ThinkingLevel::Medium,
        ThinkingLevel::Medium => ThinkingLevel::High,
        ThinkingLevel::High => ThinkingLevel::Max,
        ThinkingLevel::Max => ThinkingLevel::Off,
    }
}

/// The execution mode after a tap.
pub fn next_execution_mode(mode: &ExecutionMode) -> (r: ExecutionMode)
    ensures
        r == next_execution_mode_spec(*mode),
{
    match mode {
        ExecutionMode::Plan => ExecutionMode::Agent,
        ExecutionMode::Agent => ExecutionMode::Yolo,
        ExecutionMode::Yolo => ExecutionMode::Plan,
    }
}

/// The model mode after a tap.
pub fn next_model_mode(mode: &ModelMode) -> (r: ModelMode)
    ensures
        r == next_model_mode_spec(*mode),
{
    match mode {
        ModelMode::Auto => ModelMode::Flash,
        ModelMode::Flash => ModelMode::Pro,
        ModelMode::Pro => ModelMode::Auto,
    }
}

/// The thinking level after a tap.
pub fn next_thinking_level(level: &ThinkingLevel) -> (r: ThinkingLevel)
    ensures
        r == next_thinking_level_spec(*level),
{
    match level {
        ThinkingLevel::Off => ThinkingLevel::Low,
        ThinkingLevel::Low => ThinkingLevel::Medium,
        ThinkingLevel::Medium => ThinkingLevel::High,
        ThinkingLevel::High => ThinkingLevel::Max,
        ThinkingLevel::Max => ThinkingLevel::Off,
    }
}

/// Tapping a chip as often as it has values brings it back where it
/// started, and every value is reached on the way.
pub proof fn lemma_chips_cycle(e: ExecutionMode, m: ModelMode, t: ThinkingLevel)
    ensures
        next_execution_mode_spec(next_execution_mode_spec(next_execution_mode_spec(e))) == e,
        next_model_mode_spec(next_model_mode_spec(next_model_mode_spec(m))) == m,
        next_thinking_level_spec(
            next_thinking_level_spec(next_thinking_level_spec(next_thinking_level_spec(next_thinking_level_spec(t)))),
        ) == t,
        next_execution_mode_spec(e) != e,
        next_model_mode_spec(m) != m,
        next_thinking_level_spec(t) != t,
{
}

} // verus!
