//! Task records and the scheduler's decisions: which timestamp a status
//! change touches, and how pending tasks are paired with idle agents.

use vstd::prelude::*;
use crate::text::str_eq;

verus! {

/// The result a finished task reports.
pub struct TaskResult {
    pub success: bool,
    pub output: Option<String>,
    pub error: Option<String>,
    pub tokens_used: Option<i64>,
}

/// Which timestamp a task status change records.
#[derive(Clone, Copy, Debug, PartialEq, Eq, Structural)]
pub enum StatusStamp {
    /// The task just started running: stamp its start time.
    Started,
    /// The task reached a terminal status: stamp its completion time.
    Completed,
    /// Any other status change stamps nothing.
    Untouched,
}

/// Which timestamp the given status change records: "running" stamps the
/// start, the three terminal statuses stamp the completion, everything
/// else stamps nothing.
pub fn status_stamp(status: &str) -> (r: StatusStamp)
    ensures
        r == (if status@ == "running"@ {
            StatusStamp::Started
        } else if status@ == "completed"@ || status@ == "failed"@ || status@ == "cancelled"@ {
            StatusStamp::Completed
        } else {
            StatusStamp::Untouched
        }),
{
    if str_eq(status, "running") {
        StatusStamp::Started
    } else if str_eq(status, "completed") || str_eq(status, "failed") || str_eq(
        status,
        "cancelled",
    ) {
        StatusStamp::Completed
    } else {
        StatusStamp::Untouched
    }
}

/// One task handed to one agent.
pub struct Assignment {
    pub task_id: String,
    pub agent_id: String,
}

/// Pair pending tasks with idle agents, first with first, until either
/// list runs out.
pub fn plan_assignments(pending: &Vec<String>, idle: &Vec<String>) -> (r: Vec<Assignment>)
    ensures
        r@.len() == (if pending@.len() <= idle@.len() {
            pending@.len()
        } else {
            idle@.len()
        }),
        forall|i: int|
            0 <= i < r@.len() ==> (#[trigger] r@[i]).task_id@ == pending@[i]@ && r@[i].agent_id@
                == idle@[i]@,
{
    let n: usize = if pending.len() <= idle.len() {
        pending.len()
    } else {
        idle.len()
    };
    let mut r: Vec<Assignment> = Vec::new();
    let mut k: usize = 0;
    while k < n
        invariant
            k <= n,
            n <= pending@.len(),
            n <= idle@.len(),
            r@.len() == k,
            forall|i: int|
                0 <= i < k ==> (#[trigger] r@[i]).task_id@ == pending@[i]@ && r@[i].agent_id@
                    == idle@[i]@,
        decreases n - k,
    {
        r.push(Assignment { task_id: pending[k].clone(), agent_id: idle[k].clone() });
        k = k + 1;
    }
    r
}

} // verus!
