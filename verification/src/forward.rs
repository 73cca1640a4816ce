//! The per-session forwarding contract: raw output chunks are relayed to
//! the consumer in production order, and the permanent end of the stream
//! is reported as exactly one exit notification.

use vstd::prelude::*;

verus! {

/// An output notification: raw bytes from one session, passed through
/// untouched.
pub struct TerminalOutput {
    pub session_id: String,
    pub data: Vec<u8>,
}

/// An exit notification: the session's output stream has permanently
/// ended. The code is a fixed best-effort value, not the true child exit
/// status.
pub struct TerminalExit {
    pub session_id: String,
    pub code: i32,
}

/// What the forwarding loop emits for one drained item.
pub enum ForwardEvent {
    Output(TerminalOutput),
    Exit(TerminalExit),
}

/// The forwarding state for one session: its identifier and whether the
/// stream end has already been observed. Once ended, no further item may
/// be fed to it.
pub struct Forwarder {
    session_id: String,
    ended: bool,
}

impl Forwarder {
    /// The identifier of the session this forwarder serves.
    pub closed spec fn id(&self) -> Seq<char> {
        self.session_id@
    }

    /// Whether the stream end has been observed.
    pub closed spec fn has_ended(&self) -> bool {
        self.ended
    }

    /// A forwarder for a session whose stream has not ended yet.
    pub fn new(session_id: String) -> (r: Self)
        ensures
            r.id() == session_id@,
            !r.has_ended(),
    {
        Forwarder { session_id, ended: false }
    }

    /// Whether the stream end has been observed (callers test this before
    /// feeding the next item).
    pub fn is_ended(&self) -> (r: bool)
        ensures
            r == self.has_ended(),
    {
        self.ended
    }

    /// Relay one drained item: a chunk becomes an output event carrying
    /// exactly those bytes; the stream-end sentinel becomes the one exit
    /// event, after which the forwarder accepts nothing further.
    pub fn step(&mut self, item: Option<Vec<u8>>) -> (ev: ForwardEvent)
        requires
            !old(self).has_ended(),
        ensures
            final(self).id() == old(self).id(),
            match item {
                Option::Some(data) => {
                    &&& !final(self).has_ended()
                    &&& ev matches ForwardEvent::Output(o) && o.session_id@ == old(self).id()
                        && o.data@ == data@
                },
                Option::None => {
                    &&& final(self).has_ended()
                    &&& ev matches ForwardEvent::Exit(x) && x.session_id@ == old(self).id()
                        && x.code == 0
                },
            },
    {
        match item {
            Option::Some(data) => ForwardEvent::Output(
                TerminalOutput { session_id: self.session_id.clone(), data },
            ),
            Option::None => {
                self.ended = true;
                ForwardEvent::Exit(TerminalExit { session_id: self.session_id.clone(), code: 0 })
            },
        }
    }
}

/// An owned copy of a byte chunk.
fn copy_bytes(v: &Vec<u8>) -> (r: Vec<u8>)
    ensures
        r@ == v@,
{
    let mut r: Vec<u8> = Vec::new();
    let mut k: usize = 0;
    while k < v.len()
        invariant
            k <= v@.len(),
            r@ == v@.subrange(0, k as int),
        decreases v@.len() - k,
    {
        r.push(v[k]);
        proof {
            assert(r@ =~= v@.subrange(0, k + 1));
        }
        k = k + 1;
    }
    proof {
        assert(r@ =~= v@);
    }
    r
}

/// Relay a whole finite stream: every chunk in production order, then the
/// stream end. The events are the chunks' output events in the same
/// order, followed by exactly one exit event — and an event is an exit
/// event only at that final position.
pub fn forward_stream(session_id: String, chunks: Vec<Vec<u8>>) -> (events: Vec<ForwardEvent>)
    ensures
        events@.len() == chunks@.len() + 1,
        forall|i: int|
            0 <= i < chunks@.len() ==> ((#[trigger] events@[i]) matches ForwardEvent::Output(o)
                && o.session_id@ == session_id@ && o.data@ == chunks@[i]@),
        events@.last() matches ForwardEvent::Exit(x) && x.session_id@ == session_id@ && x.code
            == 0,
        forall|i: int|
            0 <= i < events@.len() ==> (((#[trigger] events@[i]) matches ForwardEvent::Exit(_))
                <==> i == chunks@.len()),
{
    let ghost sid: Seq<char> = session_id@;
    let mut fwd = Forwarder::new(session_id);
    let mut events: Vec<ForwardEvent> = Vec::new();
    let n: usize = chunks.len();
    let mut k: usize = 0;
    while k < n
        invariant
            k <= n,
            n == chunks@.len(),
            events@.len() == k,
            fwd.id() == sid,
            !fwd.has_ended(),
            forall|j: int|
                0 <= j < k ==> ((#[trigger] events@[j]) matches ForwardEvent::Output(o)
                    && o.session_id@ == sid && o.data@ == chunks@[j]@),
        decreases n - k,
    {
        let data = copy_bytes(&chunks[k]);
        let ev = fwd.step(Option::Some(data));
        events.push(ev);
        k = k + 1;
    }
    let last = fwd.step(Option::None);
    events.push(last);
    events
}

} // verus!
