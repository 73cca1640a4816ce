//! The externally written editor-state file: its record and the decision
//! of when to re-read it.

use vstd::prelude::*;

verus! {

/// The state most recently reported by the editor integration.
pub struct ClaudeState {
    pub state: String,
    pub event: String,
    pub session_id: String,
    pub tool_name: Option<String>,
    pub timestamp: String,
}

/// Whether a freshly observed modification time calls for re-reading the
/// state file: it does exactly when it differs from the last one seen
/// (or none was seen yet).
pub fn state_file_changed(last_seen: Option<u64>, modified: u64) -> (r: bool)
    ensures
        r == (last_seen != Option::Some(modified)),
{
    match last_seen {
        Option::Some(m) => m != modified,
        Option::None => true,
    }
}

} // verus!
