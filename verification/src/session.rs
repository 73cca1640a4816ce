//! A single terminal session: identity, derived title, creation time, and
//! its immutable read projection.

use vstd::prelude::*;
use vstd::string::*;

verus! {

/// How many leading characters of the identifier appear in the title.
pub open spec fn title_prefix_len(id: Seq<char>) -> int {
    if id.len() >= 8 {
        8
    } else {
        id.len() as int
    }
}

/// The title derived from a session identifier: a fixed prefix followed by
/// the first characters of the identifier.
pub open spec fn spec_title(id: Seq<char>) -> Seq<char> {
    "Session "@ + id.take(title_prefix_len(id))
}

/// An immutable read projection of one live session, computed fresh from
/// live state on every query.
pub struct SessionInfo {
    pub id: String,
    pub title: String,
    pub created_at: u64,
    pub is_active: bool,
}

impl Clone for SessionInfo {
    fn clone(&self) -> (r: Self)
        ensures
            r == *self,
    {
        SessionInfo {
            id: self.id.clone(),
            title: self.title.clone(),
            created_at: self.created_at,
            is_active: self.is_active,
        }
    }
}

/// The registry's record of one session: its identity, its human title and
/// its creation time. The operating-system side of the session (the
/// pseudo-terminal pair, its child process and the reader thread) is owned
/// by the caller that spawned it and is keyed by this record's identifier.
pub struct Session {
    pub id: String,
    pub title: String,
    pub created_at: u64,
}

impl Clone for Session {
    fn clone(&self) -> (r: Self)
        ensures
            r == *self,
    {
        Session { id: self.id.clone(), title: self.title.clone(), created_at: self.created_at }
    }
}

impl Session {
    /// Build the record for a freshly spawned session, deriving the human
    /// title from a prefix of the identifier.
    pub fn new(id: String, created_at: u64) -> (s: Session)
        ensures
            s.id@ == id@,
            s.created_at == created_at,
            s.title@ == spec_title(id@),
    {
        let n = id.as_str().unicode_len();
        let k: usize = if n >= 8 {
            8
        } else {
            n
        };
        let prefix = id.as_str().substring_char(0, k);
        let title = String::from_str("Session ").concat(prefix);
        Session { id, title, created_at }
    }

    /// Project this record to its immutable snapshot.
    pub fn info(&self, is_active: bool) -> (r: SessionInfo)
        ensures
            r.id@ == self.id@,
            r.title@ == self.title@,
            r.created_at == self.created_at,
            r.is_active == is_active,
    {
        SessionInfo {
            id: self.id.clone(),
            title: self.title.clone(),
            created_at: self.created_at,
            is_active,
        }
    }
}

} // verus!
