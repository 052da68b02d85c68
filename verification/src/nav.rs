use vstd::prelude::*;
use vstd::string::StringExecFns;

use crate::error::BotError;
use crate::error::history_failure_msg;

verus! {

/// History delta that `back` dispatches: exactly one step backward.
pub const BACK_DELTA: i64 = -1;

/// History delta that a future `forward` would dispatch: one step forward.
pub const FORWARD_DELTA: i64 = 1;

/// Readiness criterion of a navigate command: when the protocol client emits
/// the command's response. `NoWait` is the protocol's "none" readiness state.
#[derive(Clone, Copy, Debug)]
pub enum Readiness {
    NoWait,
    Interactive,
    Complete,
}

/// Parameters of one navigate command, built fresh per call and handed to the
/// protocol client for dispatch.
#[derive(Debug)]
pub struct NavigateCommand {
    pub context: String,
    pub url: String,
    pub wait: Readiness,
}

/// Parameters of one history-traversal command: a signed step count applied to
/// the context's navigation history (negative = backward, positive = forward).
#[derive(Debug)]
pub struct TraverseHistoryCommand {
    pub context: String,
    pub delta: i64,
}

/// Build the navigate command for `url` in `browsing_context`, with the
/// readiness criterion fixed to waiting for a complete load.
pub fn goto(browsing_context: String, url: &str) -> (cmd: NavigateCommand)
    ensures
        cmd.context@ == browsing_context@,
        cmd.url@ == url@,
        cmd.wait == Readiness::Complete,
{
    NavigateCommand { context: browsing_context, url: String::from_str(url), wait: Readiness::Complete }
}

/// Build the history-traversal command for `delta` steps in `browsing_context`.
pub fn traverse_history(browsing_context: String, delta: i64) -> (cmd: TraverseHistoryCommand)
    ensures
        cmd.context@ == browsing_context@,
        cmd.delta == delta,
{
    TraverseHistoryCommand { context: browsing_context, delta }
}

/// Build the history-traversal command that navigates one step backward:
/// its delta is exactly -1.
pub fn back(browsing_context: String) -> (cmd: TraverseHistoryCommand)
    ensures
        cmd.context@ == browsing_context@,
        cmd.delta == -1,
{
    traverse_history(browsing_context, BACK_DELTA)
}

/// Map the protocol client's answer to a dispatched navigate command into the
/// domain taxonomy: a failure becomes a `NavigationError` carrying the cause's
/// own text.
pub fn navigate_outcome(outcome: Result<(), String>) -> (r: Result<(), BotError>)
    ensures
        outcome matches Ok(_) ==> r matches Ok(_),
        outcome matches Err(cause) ==> (r matches Err(e) && e matches BotError::NavigationError(m)
            && m@ == cause@),
{
    match outcome {
        Ok(_) => Ok(()),
        Err(cause) => Err(BotError::NavigationError(cause)),
    }
}

/// Map the protocol client's answer to a dispatched history-traversal command
/// into the domain taxonomy: a failure becomes a `NavigationError` whose
/// message states the phase and appends the cause's text.
pub fn traverse_history_outcome(outcome: Result<(), String>) -> (r: Result<(), BotError>)
    ensures
        outcome matches Ok(_) ==> r matches Ok(_),
        outcome matches Err(cause) ==> (r matches Err(e) && e matches BotError::NavigationError(m)
            && m@ == history_failure_msg(cause@)),
{
    match outcome {
        Ok(_) => Ok(()),
        Err(cause) => Err(BotError::NavigationError(
            String::from_str("Navigating the history failed: ").concat(cause.as_str()),
        )),
    }
}

} // verus!
