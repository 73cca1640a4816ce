//! Registry-wide laws: how the set of live identifiers evolves over any
//! sequence of create and kill operations, and how creates and kills
//! interact.

use vstd::prelude::*;
use crate::registry::SessionManager;
use crate::session::SessionInfo;

verus! {

/// One successful registry operation, abstracted to the identifier it
/// touched.
pub enum RegistryOp {
    Create(Seq<char>),
    Kill(Seq<char>),
}

/// Whether one operation can succeed against the given live and
/// ever-issued identifier sets: a create draws an identifier never issued
/// before, a kill names a live one. These are exactly the success
/// conditions in the contracts of `create_session` and `kill_session`.
pub open spec fn op_allowed(live: Set<Seq<char>>, issued: Set<Seq<char>>, op: RegistryOp) -> bool {
    match op {
        RegistryOp::Create(id) => !issued.contains(id),
        RegistryOp::Kill(id) => live.contains(id),
    }
}

/// The live identifier set after one operation.
pub open spec fn op_live(live: Set<Seq<char>>, op: RegistryOp) -> Set<Seq<char>> {
    match op {
        RegistryOp::Create(id) => live.insert(id),
        RegistryOp::Kill(id) => live.remove(id),
    }
}

/// The ever-issued identifier set after one operation.
pub open spec fn op_issued(issued: Set<Seq<char>>, op: RegistryOp) -> Set<Seq<char>> {
    match op {
        RegistryOp::Create(id) => issued.insert(id),
        RegistryOp::Kill(_) => issued,
    }
}

/// Whether a whole sequence of operations can succeed, each against the
/// state the previous ones left.
pub open spec fn ops_allowed(
    live: Set<Seq<char>>,
    issued: Set<Seq<char>>,
    ops: Seq<RegistryOp>,
) -> bool
    decreases ops.len(),
{
    ops.len() == 0 || {
        &&& op_allowed(live, issued, ops[0])
        &&& ops_allowed(op_live(live, ops[0]), op_issued(issued, ops[0]), ops.drop_first())
    }
}

/// The live identifier set after a whole sequence of operations.
pub open spec fn run_live(live: Set<Seq<char>>, ops: Seq<RegistryOp>) -> Set<Seq<char>>
    decreases ops.len(),
{
    if ops.len() == 0 {
        live
    } else {
        run_live(op_live(live, ops[0]), ops.drop_first())
    }
}

/// The identifiers created over a sequence of operations.
pub open spec fn created_ids(ops: Seq<RegistryOp>) -> Set<Seq<char>>
    decreases ops.len(),
{
    if ops.len() == 0 {
        Set::empty()
    } else {
        match ops[0] {
            RegistryOp::Create(id) => created_ids(ops.drop_first()).insert(id),
            RegistryOp::Kill(_) => created_ids(ops.drop_first()),
        }
    }
}

/// The identifiers killed over a sequence of operations.
pub open spec fn killed_ids(ops: Seq<RegistryOp>) -> Set<Seq<char>>
    decreases ops.len(),
{
    if ops.len() == 0 {
        Set::empty()
    } else {
        match ops[0] {
            RegistryOp::Create(_) => killed_ids(ops.drop_first()),
            RegistryOp::Kill(id) => killed_ids(ops.drop_first()).insert(id),
        }
    }
}

/// An identifier already issued is never created again later: every create
/// in an allowed sequence draws outside the issued set, which only grows.
proof fn lemma_issued_never_recreated(
    live: Set<Seq<char>>,
    issued: Set<Seq<char>>,
    ops: Seq<RegistryOp>,
    x: Seq<char>,
)
    requires
        ops_allowed(live, issued, ops),
        issued.contains(x),
    ensures
        !created_ids(ops).contains(x),
    decreases ops.len(),
{
    if ops.len() > 0 {
        lemma_issued_never_recreated(
            op_live(live, ops[0]),
            op_issued(issued, ops[0]),
            ops.drop_first(),
            x,
        );
    }
}

/// After any allowed sequence of operations, the live identifier set is
/// the starting live set plus the created identifiers, minus the killed
/// ones.
pub proof fn lemma_run_live(live: Set<Seq<char>>, issued: Set<Seq<char>>, ops: Seq<RegistryOp>)
    requires
        ops_allowed(live, issued, ops),
        live.subset_of(issued),
    ensures
        run_live(live, ops) =~= live.union(created_ids(ops)).difference(killed_ids(ops)),
    decreases ops.len(),
{
    if ops.len() > 0 {
        let rest = ops.drop_first();
        match ops[0] {
            RegistryOp::Create(id) => {
                assert(op_live(live, ops[0]) =~= live.insert(id));
                lemma_run_live(live.insert(id), issued.insert(id), rest);
            },
            RegistryOp::Kill(id) => {
                lemma_run_live(live.remove(id), issued, rest);
                lemma_issued_never_recreated(live.remove(id), issued, rest, id);
            },
        }
    }
}

/// Starting from an empty registry, the set of live identifiers — the id
/// set that a listing reports — equals the created identifiers minus the
/// killed ones, for any sequence of successful creates and kills.
pub proof fn lemma_live_ids_match_history(ops: Seq<RegistryOp>)
    requires
        ops_allowed(Set::empty(), Set::empty(), ops),
    ensures
        run_live(Set::empty(), ops) =~= created_ids(ops).difference(killed_ids(ops)),
    decreases ops.len(),
{
    lemma_run_live(Set::empty(), Set::empty(), ops);
}

/// A successful create realizes the abstract create transition: the drawn
/// identifier was allowed, the live set gains exactly it, and the issued
/// set gains exactly it.
pub proof fn lemma_create_refines(pre: SessionManager, post: SessionManager, info: SessionInfo)
    requires
        SessionManager::create_post(pre, post, info),
    ensures
        op_allowed(pre.live_id_set(), pre.issued_set(), RegistryOp::Create(info.id@)),
        post.live_id_set() =~= op_live(pre.live_id_set(), RegistryOp::Create(info.id@)),
        post.issued_set() =~= op_issued(pre.issued_set(), RegistryOp::Create(info.id@)),
{
    assert forall|x: Seq<char>| post.was_issued(x) <==> (pre.was_issued(x) || x == info.id@) by {
        if post.was_issued(x) {
            let j = choose|j: int|
                0 <= j < post.issued_view().len() && post.issued_view()[j] == x;
            if j < pre.issued_view().len() {
                assert(pre.issued_view()[j] == x);
            }
        }
        if pre.was_issued(x) {
            let j = choose|j: int| 0 <= j < pre.issued_view().len() && pre.issued_view()[j] == x;
            assert(post.issued_view()[j] == x);
        }
        if x == info.id@ {
            assert(post.issued_view()[post.issued_view().len() - 1] == x);
        }
    };
}

/// A successful kill realizes the abstract kill transition: the named
/// identifier was live, the live set loses exactly it, and the issued set
/// is unchanged.
pub proof fn lemma_kill_refines(pre: SessionManager, post: SessionManager, id: Seq<char>)
    requires
        SessionManager::kill_post(pre, post, id),
    ensures
        op_allowed(pre.live_id_set(), pre.issued_set(), RegistryOp::Kill(id)),
        post.live_id_set() =~= op_live(pre.live_id_set(), RegistryOp::Kill(id)),
        post.issued_set() =~= op_issued(pre.issued_set(), RegistryOp::Kill(id)),
{
    assert forall|x: Seq<char>| post.was_issued(x) <==> pre.was_issued(x) by {
        if post.was_issued(x) {
            let j = choose|j: int|
                0 <= j < post.issued_view().len() && post.issued_view()[j] == x;
            assert(pre.issued_view()[j] == x);
        }
        if pre.was_issued(x) {
            let j = choose|j: int| 0 <= j < pre.issued_view().len() && pre.issued_view()[j] == x;
            assert(post.issued_view()[j] == x);
        }
    };
}

/// Two sessions created one after the other — with whatever parameters —
/// receive distinct identifiers.
pub proof fn lemma_created_ids_distinct(
    s0: SessionManager,
    s1: SessionManager,
    s2: SessionManager,
    a: SessionInfo,
    b: SessionInfo,
)
    requires
        SessionManager::create_post(s0, s1, a),
        SessionManager::create_post(s1, s2, b),
    ensures
        a.id@ != b.id@,
{
    assert(s1.issued_view()[s1.issued_view().len() - 1] == a.id@);
    assert(s1.was_issued(a.id@));
}

/// Killing one session leaves every other live session live: sessions can
/// be killed independently.
pub proof fn lemma_kill_leaves_others(
    pre: SessionManager,
    post: SessionManager,
    killed: Seq<char>,
    other: Seq<char>,
)
    requires
        SessionManager::kill_post(pre, post, killed),
        pre.has_live(other),
        other != killed,
    ensures
        post.has_live(other),
{
}

/// Killing the active session reassigns the active pointer to some other
/// remaining live session, or to none if the registry became empty; the
/// new active identifier is never the killed one.
pub proof fn lemma_kill_active_reassigns(pre: SessionManager, post: SessionManager, id: Seq<char>)
    requires
        pre.wf(),
        SessionManager::kill_post(pre, post, id),
        pre.active_id() == Option::Some(id),
    ensures
        post.rows().len() > 0 ==> match post.active_id() {
            Option::Some(a) => a != id && post.has_live(a),
            Option::None => false,
        },
        post.rows().len() == 0 ==> post.active_id() is None,
{
    if post.rows().len() > 0 {
        assert(post.rows()[0].id@ == post.rows()[0].id@);
        assert(post.has_live(post.rows()[0].id@));
    }
}

} // verus!
