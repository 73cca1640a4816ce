//! The session registry: the single source of truth for which terminal
//! sessions exist and which one is active.
//!
//! The registry is a sequential state machine; callers that share it across
//! threads wrap it in a lock of their choosing. Identifiers are unique for
//! the registry's lifetime and never reused: every identifier ever handed
//! out is retained and a freshly drawn candidate that collides with one of
//! them is rejected rather than reused.

use vstd::prelude::*;
use vstd::string::*;
use crate::errors::TerminalError;
use crate::session::{Session, SessionInfo, spec_title};
use crate::text::string_eq;

verus! {

/// Relies on uuid::Uuid::new_v4 and its Display form: a version-4 random
/// identifier rendered as the 36-character hyphenated string.
#[verifier::external_body]
pub(crate) fn random_id_candidate() -> (r: String)
    ensures
        r@.len() == 36,
{
    uuid::Uuid::new_v4().to_string()
}

/// Relies on std::time::SystemTime::now, read as whole seconds since the
/// Unix epoch (zero when the clock reads earlier than the epoch).
#[verifier::external_body]
fn unix_now_seconds() -> u64 {
    match std::time::SystemTime::now().duration_since(std::time::UNIX_EPOCH) {
        Ok(d) => d.as_secs(),
        Err(_) => 0,
    }
}

/// Owns the set of live sessions keyed by identifier and the single
/// "active id" pointer.
pub struct SessionManager {
    sessions: Vec<Session>,
    active: Option<String>,
    issued: Vec<String>,
}

impl SessionManager {
    /// The live session records, in insertion order.
    pub closed spec fn rows(&self) -> Seq<Session> {
        self.sessions@
    }

    /// The identifier of the active session, if one is designated.
    pub closed spec fn active_id(&self) -> Option<Seq<char>> {
        match self.active {
            Option::Some(ref a) => Option::Some(a@),
            Option::None => Option::None,
        }
    }

    /// Every identifier the registry has ever handed out, in order.
    pub closed spec fn issued_view(&self) -> Seq<Seq<char>> {
        self.issued@.map_values(|s: String| s@)
    }

    /// Whether `id` was ever handed out, alive or not.
    pub open spec fn was_issued(&self, id: Seq<char>) -> bool {
        exists|i: int| 0 <= i < self.issued_view().len() && self.issued_view()[i] == id
    }

    /// Whether a session with identifier `id` is currently live.
    pub open spec fn has_live(&self, id: Seq<char>) -> bool {
        exists|i: int| 0 <= i < self.rows().len() && self.rows()[i].id@ == id
    }

    /// The set of live identifiers.
    pub open spec fn live_id_set(&self) -> Set<Seq<char>> {
        Set::new(|id: Seq<char>| self.has_live(id))
    }

    /// The set of identifiers ever handed out.
    pub open spec fn issued_set(&self) -> Set<Seq<char>> {
        Set::new(|id: Seq<char>| self.was_issued(id))
    }

    /// The registry's invariant: live identifiers are pairwise distinct,
    /// every live identifier was issued by this registry, and the active
    /// pointer, when set, names a live session.
    pub open spec fn wf(&self) -> bool {
        &&& forall|i: int, j: int|
            0 <= i < j < self.rows().len() ==> (#[trigger] self.rows()[i].id@) != (
            #[trigger] self.rows()[j].id@)
        &&& forall|i: int|
            0 <= i < self.rows().len() ==> self.was_issued((#[trigger] self.rows()[i]).id@)
        &&& match self.active_id() {
            Option::Some(a) => self.has_live(a),
            Option::None => true,
        }
    }

    /// What a successful create leaves behind: a record with a never-issued
    /// identifier appended, made active, whose snapshot is returned.
    pub open spec fn create_post(pre: Self, post: Self, info: SessionInfo) -> bool {
        &&& !pre.was_issued(info.id@)
        &&& info.is_active == true
        &&& info.title@ == spec_title(info.id@)
        &&& post.rows().len() == pre.rows().len() + 1
        &&& forall|i: int| 0 <= i < pre.rows().len() ==> post.rows()[i] == pre.rows()[i]
        &&& post.rows().last().id@ == info.id@
        &&& post.rows().last().title@ == info.title@
        &&& post.rows().last().created_at == info.created_at
        &&& post.active_id() == Option::Some(info.id@)
        &&& post.issued_view() == pre.issued_view().push(info.id@)
        &&& forall|x: Seq<char>|
            (#[trigger] post.has_live(x)) <==> (pre.has_live(x) || x == info.id@)
    }

    /// What a successful kill leaves behind: exactly the named record is
    /// removed; identifiers ever issued are unchanged; if the removed
    /// session was active, the active pointer moves to some other remaining
    /// live session, or to none if the registry became empty.
    pub open spec fn kill_post(pre: Self, post: Self, id: Seq<char>) -> bool {
        &&& pre.has_live(id)
        &&& exists|i: int|
            0 <= i < pre.rows().len() && pre.rows()[i].id@ == id && post.rows() == pre.rows().remove(
                i,
            )
        &&& post.issued_view() == pre.issued_view()
        &&& forall|x: Seq<char>|
            (#[trigger] post.has_live(x)) <==> (pre.has_live(x) && x != id)
        &&& post.active_id() == (if pre.active_id() != Option::Some(id) {
            pre.active_id()
        } else if post.rows().len() == 0 {
            Option::<Seq<char>>::None
        } else {
            Option::Some(post.rows()[0].id@)
        })
    }

    /// A registry with no sessions, no active pointer and no identifiers
    /// handed out yet.
    pub fn new() -> (r: Self)
        ensures
            r.wf(),
            r.rows().len() == 0,
            r.active_id() is None,
            r.issued_view().len() == 0,
    {
        SessionManager { sessions: Vec::new(), active: Option::None, issued: Vec::new() }
    }

    /// The index of the live session named by `id`, if any.
    fn find_index(&self, id: &String) -> (r: Option<usize>)
        ensures
            match r {
                Option::Some(i) => i < self.rows().len() && self.rows()[i as int].id@ == id@,
                Option::None => !self.has_live(id@),
            },
    {
        let mut k: usize = 0;
        while k < self.sessions.len()
            invariant
                k <= self.sessions.len(),
                forall|j: int| 0 <= j < k ==> (#[trigger] self.rows()[j].id@) != id@,
            decreases self.sessions.len() - k,
        {
            if string_eq(&self.sessions[k].id, id) {
                return Option::Some(k);
            }
            k = k + 1;
        }
        Option::None
    }

    /// Whether `id` was ever handed out by this registry.
    fn issued_contains(&self, id: &String) -> (r: bool)
        ensures
            r == self.was_issued(id@),
    {
        let mut k: usize = 0;
        while k < self.issued.len()
            invariant
                k <= self.issued.len(),
                forall|j: int| 0 <= j < k ==> (#[trigger] self.issued_view()[j]) != id@,
            decreases self.issued.len() - k,
        {
            if string_eq(&self.issued[k], id) {
                proof {
                    assert(self.issued_view()[k as int] == id@);
                }
                return true;
            }
            k = k + 1;
        }
        false
    }

    /// Record a session under the given identifier with the given creation
    /// time, and unconditionally make it the active one, returning its
    /// snapshot. Succeeds exactly when the identifier was never handed out
    /// before; otherwise the registry is left unchanged.
    pub fn create_session_with_id(&mut self, id: String, created_at: u64) -> (r: Result<
        SessionInfo,
        TerminalError,
    >)
        requires
            old(self).wf(),
        ensures
            final(self).wf(),
            (r is Ok) == !old(self).was_issued(id@),
            match r {
                Ok(info) => info.id@ == id@ && info.created_at == created_at
                    && Self::create_post(*old(self), *final(self), info),
                Err(e) => *final(self) == *old(self) && e matches TerminalError::ResourceAllocation(
                    _,
                ),
            },
    {
        if self.issued_contains(&id) {
            return Err(
                TerminalError::ResourceAllocation(
                    String::from_str("session identifier already used"),
                ),
            );
        }
        let session = Session::new(id.clone(), created_at);
        let info = session.info(true);
        self.issued.push(id.clone());
        self.sessions.push(session);
        self.active = Option::Some(id);
        proof {
            let pre = *old(self);
            let post = *self;
            let n = pre.rows().len() as int;
            assert(post.issued_view() =~= pre.issued_view().push(info.id@));
            assert(post.rows()[n].id@ == info.id@);
            assert forall|x: Seq<char>|
                (#[trigger] post.has_live(x)) <==> (pre.has_live(x) || x == info.id@) by {
                if post.has_live(x) {
                    let i = choose|i: int|
                        0 <= i < post.rows().len() && post.rows()[i].id@ == x;
                    if i < n {
                        assert(pre.rows()[i].id@ == x);
                        assert(pre.has_live(x));
                    }
                }
                if pre.has_live(x) {
                    let i = choose|i: int| 0 <= i < pre.rows().len() && pre.rows()[i].id@ == x;
                    assert(post.rows()[i].id@ == x);
                    assert(post.has_live(x));
                }
                if x == info.id@ {
                    assert(post.rows()[n].id@ == x);
                    assert(post.has_live(x));
                }
            };
            assert forall|i: int| 0 <= i < post.rows().len() implies post.was_issued(
                (#[trigger] post.rows()[i]).id@,
            ) by {
                if i < n {
                    assert(pre.was_issued(pre.rows()[i].id@));
                    let j = choose|j: int|
                        0 <= j < pre.issued_view().len() && pre.issued_view()[j] == pre.rows()[i].id@;
                    assert(post.issued_view()[j] == post.rows()[i].id@);
                } else {
                    assert(post.issued_view()[post.issued_view().len() - 1] == info.id@);
                }
            };
            assert forall|i: int, j: int| 0 <= i < j < post.rows().len() implies (
            #[trigger] post.rows()[i].id@) != (#[trigger] post.rows()[j].id@) by {
                if j < n {
                    assert(pre.rows()[i].id@ != pre.rows()[j].id@);
                } else {
                    assert(pre.was_issued(pre.rows()[i].id@));
                    assert(!pre.was_issued(info.id@));
                }
            };
        }
        Ok(info)
    }

    /// Create a session: draw a fresh identifier, record the session and
    /// unconditionally make it the active one, returning its snapshot.
    ///
    /// The only failure is a drawn identifier colliding with one already
    /// handed out; the registry is then left unchanged, and the identifier
    /// is not reused. On a registry that has never issued an identifier —
    /// in particular a fresh one — no collision is possible and success is
    /// owed.
    pub fn create_session(&mut self) -> (r: Result<SessionInfo, TerminalError>)
        requires
            old(self).wf(),
        ensures
            final(self).wf(),
            old(self).issued_view().len() == 0 ==> r is Ok,
            match r {
                Ok(info) => Self::create_post(*old(self), *final(self), info),
                Err(e) => *final(self) == *old(self) && e matches TerminalError::ResourceAllocation(
                    _,
                ),
            },
    {
        let id = random_id_candidate();
        let created_at = unix_now_seconds();
        self.create_session_with_id(id, created_at)
    }

    /// A shared snapshot of the live session named by `id`.
    pub fn get_session(&self, id: &String) -> (r: Option<Session>)
        ensures
            (r is Some) == self.has_live(id@),
            match r {
                Option::Some(s) => s.id@ == id@ && exists|i: int|
                    0 <= i < self.rows().len() && self.rows()[i] == s,
                Option::None => !self.has_live(id@),
            },
    {
        match self.find_index(id) {
            Option::Some(i) => {
                let s = self.sessions[i].clone();
                proof {
                    assert(self.rows()[i as int].id@ == id@);
                    assert(self.has_live(id@));
                }
                Option::Some(s)
            },
            Option::None => Option::None,
        }
    }

    /// Remove the session named by `id`. Fails with a not-found error, and
    /// changes nothing, exactly when no live session has that identifier.
    /// If the removed session was active, some other remaining live session
    /// becomes active, or none if the registry became empty.
    pub fn kill_session(&mut self, id: &String) -> (r: Result<(), TerminalError>)
        requires
            old(self).wf(),
        ensures
            final(self).wf(),
            (r is Ok) == old(self).has_live(id@),
            match r {
                Ok(()) => Self::kill_post(*old(self), *final(self), id@),
                Err(e) => *final(self) == *old(self) && (e matches TerminalError::NotFound(m)
                    && m@ == "Session "@ + id@ + " not found"@),
            },
    {
        match self.find_index(id) {
            Option::None => Err(
                TerminalError::NotFound(
                    String::from_str("Session ").concat(id.as_str()).concat(" not found"),
                ),
            ),
            Option::Some(i) => {
                self.sessions.remove(i);
                proof {
                    old(self).rows().remove_ensures(i as int);
                }
                let was_active = match &self.active {
                    Option::Some(a) => string_eq(a, id),
                    Option::None => false,
                };
                if was_active {
                    if self.sessions.len() > 0 {
                        let next = self.sessions[0].id.clone();
                        self.active = Option::Some(next);
                    } else {
                        self.active = Option::None;
                    }
                }
                proof {
                    let pre = *old(self);
                    let post = *self;
                    let n = pre.rows().len() as int;
                    let k = i as int;
                    assert(post.rows() == pre.rows().remove(k));
                    assert forall|x: Seq<char>|
                        (#[trigger] post.has_live(x)) <==> (pre.has_live(x) && x != id@) by {
                        if post.has_live(x) {
                            let j = choose|j: int|
                                0 <= j < post.rows().len() && post.rows()[j].id@ == x;
                            if j < k {
                                assert(pre.rows()[j].id@ == x);
                                assert(pre.has_live(x));
                                assert(x != id@);
                            } else {
                                assert(post.rows()[j] == pre.rows()[j + 1]);
                                assert(pre.has_live(x));
                                assert(x != id@);
                            }
                        }
                        if pre.has_live(x) && x != id@ {
                            let j = choose|j: int|
                                0 <= j < pre.rows().len() && pre.rows()[j].id@ == x;
                            assert(j != k);
                            if j < k {
                                assert(post.rows()[j].id@ == x);
                            } else {
                                assert(post.rows()[j - 1] == pre.rows()[j]);
                            }
                            assert(post.has_live(x));
                        }
                    };
                    assert forall|a: int, b: int| 0 <= a < b < post.rows().len() implies (
                    #[trigger] post.rows()[a].id@) != (#[trigger] post.rows()[b].id@) by {
                        let a0 = if a < k {
                            a
                        } else {
                            a + 1
                        };
                        let b0 = if b < k {
                            b
                        } else {
                            b + 1
                        };
                        assert(post.rows()[a] == pre.rows()[a0]);
                        assert(post.rows()[b] == pre.rows()[b0]);
                        assert(pre.rows()[a0].id@ != pre.rows()[b0].id@);
                    };
                    assert forall|a: int| 0 <= a < post.rows().len() implies post.was_issued(
                        (#[trigger] post.rows()[a]).id@,
                    ) by {
                        let a0 = if a < k {
                            a
                        } else {
                            a + 1
                        };
                        assert(post.rows()[a] == pre.rows()[a0]);
                        assert(pre.was_issued(pre.rows()[a0].id@));
                        let j = choose|j: int|
                            0 <= j < pre.issued_view().len() && pre.issued_view()[j]
                                == pre.rows()[a0].id@;
                        assert(post.issued_view()[j] == post.rows()[a].id@);
                    };
                    if pre.active_id() == Option::Some(id@) {
                        if post.rows().len() > 0 {
                            assert(post.rows()[0].id@ != id@);
                            assert(post.has_live(post.rows()[0].id@));
                        }
                    } else {
                        match pre.active_id() {
                            Option::Some(a) => {
                                assert(pre.has_live(a));
                                assert(post.has_live(a));
                            },
                            Option::None => {},
                        }
                    }
                }
                Ok(())
            },
        }
    }

    /// Designate the session named by `id` as active. Fails with a
    /// not-found error, and leaves the active pointer unchanged, exactly
    /// when no live session has that identifier.
    pub fn set_active_session(&mut self, id: &String) -> (r: Result<(), TerminalError>)
        requires
            old(self).wf(),
        ensures
            final(self).wf(),
            final(self).rows() == old(self).rows(),
            final(self).issued_view() == old(self).issued_view(),
            (r is Ok) == old(self).has_live(id@),
            match r {
                Ok(()) => final(self).active_id() == Option::Some(id@),
                Err(e) => final(self).active_id() == old(self).active_id() && (e
                    matches TerminalError::NotFound(m) && m@ == "Session "@ + id@
                    + " not found"@),
            },
    {
        match self.find_index(id) {
            Option::Some(i) => {
                self.active = Option::Some(id.clone());
                proof {
                    assert(self.rows() == old(self).rows());
                    assert(self.rows()[i as int].id@ == id@);
                    assert(self.has_live(id@));
                    assert forall|a: int| 0 <= a < self.rows().len() implies self.was_issued(
                        (#[trigger] self.rows()[a]).id@,
                    ) by {
                        assert(old(self).was_issued(old(self).rows()[a].id@));
                        let j = choose|j: int|
                            0 <= j < old(self).issued_view().len() && old(self).issued_view()[j]
                                == old(self).rows()[a].id@;
                        assert(self.issued_view()[j] == self.rows()[a].id@);
                    };
                }
                Ok(())
            },
            Option::None => Err(
                TerminalError::NotFound(
                    String::from_str("Session ").concat(id.as_str()).concat(" not found"),
                ),
            ),
        }
    }

    /// The identifier of the active session, if one is designated.
    pub fn get_active_session_id(&self) -> (r: Option<String>)
        ensures
            match r {
                Option::Some(s) => self.active_id() == Option::Some(s@),
                Option::None => self.active_id() is None,
            },
    {
        match &self.active {
            Option::Some(a) => Option::Some(a.clone()),
            Option::None => Option::None,
        }
    }

    /// A snapshot of the active session, resolved by reading the active
    /// identifier and looking it up among the live sessions.
    pub fn get_active_session(&self) -> (r: Option<Session>)
        requires
            self.wf(),
        ensures
            match r {
                Option::Some(s) => self.active_id() == Option::Some(s.id@) && exists|i: int|
                    0 <= i < self.rows().len() && self.rows()[i] == s,
                Option::None => self.active_id() is None,
            },
    {
        let aid = match &self.active {
            Option::Some(a) => a.clone(),
            Option::None => { return Option::None },
        };
        match self.get_session(&aid) {
            Option::Some(s) => Option::Some(s),
            Option::None => Option::None,
        }
    }

    /// Snapshots of all live sessions, in internal order, with each
    /// activity flag computed against the active identifier at the instant
    /// of listing.
    pub fn list_sessions(&self) -> (r: Vec<SessionInfo>)
        ensures
            r@.len() == self.rows().len(),
            forall|i: int|
                0 <= i < r@.len() ==> {
                    &&& (#[trigger] r@[i]).id@ == self.rows()[i].id@
                    &&& r@[i].title@ == self.rows()[i].title@
                    &&& r@[i].created_at == self.rows()[i].created_at
                    &&& r@[i].is_active == (self.active_id() == Option::Some(self.rows()[i].id@))
                },
    {
        let mut r: Vec<SessionInfo> = Vec::new();
        let mut k: usize = 0;
        while k < self.sessions.len()
            invariant
                k <= self.sessions.len(),
                r@.len() == k,
                forall|i: int|
                    0 <= i < k ==> {
                        &&& (#[trigger] r@[i]).id@ == self.rows()[i].id@
                        &&& r@[i].title@ == self.rows()[i].title@
                        &&& r@[i].created_at == self.rows()[i].created_at
                        &&& r@[i].is_active == (self.active_id() == Option::Some(
                            self.rows()[i].id@,
                        ))
                    },
            decreases self.sessions.len() - k,
        {
            let is_act = match &self.active {
                Option::Some(a) => string_eq(a, &self.sessions[k].id),
                Option::None => false,
            };
            let info = self.sessions[k].info(is_act);
            r.push(info);
            k = k + 1;
        }
        r
    }

    /// How many sessions are live.
    pub fn session_count(&self) -> (r: usize)
        ensures
            r == self.rows().len(),
    {
        self.sessions.len()
    }
}

impl Default for SessionManager {
    /// Same as an empty registry from `new`.
    fn default() -> (r: Self)
        ensures
            r.wf(),
            r.rows().len() == 0,
            r.active_id() is None,
            r.issued_view().len() == 0,
    {
        SessionManager::new()
    }
}

} // verus!
