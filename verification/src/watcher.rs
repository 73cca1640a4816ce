//! The folder watcher's decisions: which filesystem events matter, and
//! when the debounce window has passed so that one change notification is
//! emitted for a burst of events.

use vstd::prelude::*;

verus! {

/// The kinds of filesystem event the watcher distinguishes.
#[derive(Clone, Copy, Debug, PartialEq, Eq, Structural)]
pub enum FsEventKind {
    Create,
    Remove,
    Modify,
    /// Anything else — access notifications and the like.
    Other,
}

/// Whether an event restarts the debounce window: creations, removals
/// and modifications do, anything else is ignored.
pub fn event_is_relevant(kind: &FsEventKind) -> (r: bool)
    ensures
        r == !(kind is Other),
{
    match kind {
        FsEventKind::Create => true,
        FsEventKind::Remove => true,
        FsEventKind::Modify => true,
        FsEventKind::Other => false,
    }
}

/// Whether the debounce window has passed: a relevant event was seen, and
/// at least `window_ms` milliseconds have elapsed since.
pub fn debounce_ready(last_event_ms: Option<u64>, now_ms: u64, window_ms: u64) -> (r: bool)
    ensures
        r == match last_event_ms {
            Option::Some(t) => t <= now_ms && now_ms - t >= window_ms,
            Option::None => false,
        },
{
    match last_event_ms {
        Option::Some(t) => t <= now_ms && now_ms - t >= window_ms,
        Option::None => false,
    }
}

} // verus!
