//! Decisions and records for synchronizing the agents repository.
//!
//! Opening the repository, fetching and checking out happen outside; the
//! merge decision and the result records are built here.

use vstd::prelude::*;
use vstd::string::*;

verus! {

/// The outcome of one pull of the agents repository.
pub struct GitSyncResult {
    pub success: bool,
    pub message: String,
    pub previous_commit: Option<String>,
    pub current_commit: Option<String>,
    pub files_changed: u32,
}

/// A summary of the repository's state.
pub struct RepoStatus {
    pub branch: String,
    pub commit: String,
    pub has_changes: bool,
    pub ahead: u32,
    pub behind: u32,
}

/// What a merge analysis calls for.
#[derive(Clone, Copy, Debug, PartialEq, Eq, Structural)]
pub enum MergeDecision {
    /// Nothing to do: the local branch already holds the fetched commit.
    UpToDate,
    /// The local branch can be fast-forwarded to the fetched commit.
    FastForward,
    /// Neither holds: a manual merge is required and the pull fails.
    ManualMergeRequired,
}

/// Decide what a pull does with the fetched commit: an up-to-date
/// analysis wins over a possible fast-forward, and anything else requires
/// a manual merge.
pub fn classify_merge(up_to_date: bool, fast_forward: bool) -> (r: MergeDecision)
    ensures
        r == (if up_to_date {
            MergeDecision::UpToDate
        } else if fast_forward {
            MergeDecision::FastForward
        } else {
            MergeDecision::ManualMergeRequired
        }),
{
    if up_to_date {
        MergeDecision::UpToDate
    } else if fast_forward {
        MergeDecision::FastForward
    } else {
        MergeDecision::ManualMergeRequired
    }
}

/// An owned copy of an optional commit string.
fn clone_commit(c: &Option<String>) -> (r: Option<String>)
    ensures
        match c {
            Option::Some(s) => r matches Option::Some(t) && t@ == s@,
            Option::None => r is None,
        },
{
    match c {
        Option::Some(s) => Option::Some(s.clone()),
        Option::None => Option::None,
    }
}

/// The successful result of a pull that found the branch already up to
/// date: the commit did not move and no files changed.
pub fn up_to_date_result(previous: Option<String>) -> (r: GitSyncResult)
    ensures
        r.success == true,
        r.message@ == "Already up to date"@,
        r.previous_commit == previous,
        match previous {
            Option::Some(p) => r.current_commit matches Option::Some(c) && c@ == p@,
            Option::None => r.current_commit is None,
        },
        r.files_changed == 0,
{
    let current = clone_commit(&previous);
    GitSyncResult {
        success: true,
        message: String::from_str("Already up to date"),
        previous_commit: previous,
        current_commit: current,
        files_changed: 0,
    }
}

/// The successful result of a fast-forward pull.
pub fn fast_forward_result(previous: Option<String>, current: Option<String>) -> (r:
    GitSyncResult)
    ensures
        r.success == true,
        r.message@ == "Successfully pulled latest changes"@,
        r.previous_commit == previous,
        r.current_commit == current,
        r.files_changed == 0,
{
    GitSyncResult {
        success: true,
        message: String::from_str("Successfully pulled latest changes"),
        previous_commit: previous,
        current_commit: current,
        files_changed: 0,
    }
}

/// The short display form of a commit identifier: its first seven
/// characters, or all of it when shorter.
pub fn short_commit_display(commit: &str) -> (r: String)
    ensures
        r@ == commit@.take(
            if commit@.len() >= 7 {
                7
            } else {
                commit@.len() as int
            },
        ),
{
    let n = commit.unicode_len();
    let k: usize = if n >= 7 {
        7
    } else {
        n
    };
    let prefix = commit.substring_char(0, k);
    String::from_str(prefix)
}

/// A repository summary; ahead and behind counts are not computed and
/// read as zero.
pub fn repo_status_of(branch: String, commit: String, has_changes: bool) -> (r: RepoStatus)
    ensures
        r.branch@ == branch@,
        r.commit@ == commit@,
        r.has_changes == has_changes,
        r.ahead == 0,
        r.behind == 0,
{
    RepoStatus { branch, commit, has_changes, ahead: 0, behind: 0 }
}

} // verus!
