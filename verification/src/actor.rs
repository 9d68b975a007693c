//! The client-side command actor's bookkeeping.
//!
//! One actor owns one outbound connection and serves many concurrent
//! callers. Each submitted command is paired with a fresh request id — the
//! name of its single-use reply slot — and queued; the actor drains the
//! queue in FIFO order, runs each command over its connection, and sends the
//! outcome to that command's own slot and no other. A caller that abandoned
//! its slot costs the actor nothing: the undelivered reply is discarded
//! silently.

use vstd::prelude::*;

use crate::command::Command;

verus! {

/// What the actor's one connection reported for a command.
#[derive(Debug)]
pub enum CommandOutcome {
    /// GET found the key bound to these bytes.
    Found(Vec<u8>),
    /// GET found no binding.
    Absent,
    /// SET was acknowledged.
    Stored,
    /// The connection itself failed; surfaced only to this command's caller.
    ConnFailed(String),
}

/// A command paired with the id of its reply slot, from submission until the
/// actor delivers (or fails to deliver) exactly one reply.
#[derive(Debug)]
pub struct Pending {
    /// Names the one reply slot this command's outcome belongs to.
    pub id: u64,
    /// The submitted command.
    pub cmd: Command,
}

/// One reply, routed by the id of the request it answers.
#[derive(Debug)]
pub struct Reply {
    /// The id of the pending request this reply answers.
    pub id: u64,
    /// What the connection reported.
    pub outcome: CommandOutcome,
}

/// The actor's correlation state: a FIFO queue of pending requests, each
/// under a fresh id drawn from a counter that never repeats.
pub struct Multiplexer {
    next_id: u64,
    queue: Vec<Pending>,
}

impl Multiplexer {
    /// The pending requests, oldest first.
    pub closed spec fn spec_queue(&self) -> Seq<Pending> {
        self.queue@
    }

    /// The id the next submission will receive.
    pub closed spec fn spec_next_id(&self) -> u64 {
        self.next_id
    }

    /// Ids grow along the queue and stay below the counter, so every pending
    /// request is named by a distinct id that no future submission reuses.
    pub closed spec fn wf(&self) -> bool {
        &&& forall|i: int, j: int|
            0 <= i < j < self.queue@.len() ==> self.queue@[i].id < self.queue@[j].id
        &&& forall|i: int| 0 <= i < self.queue@.len() ==> #[trigger] self.queue@[i].id
            < self.next_id
    }

    /// An actor with nothing pending.
    pub fn new() -> (m: Multiplexer)
        ensures
            m.wf(),
            m.spec_queue().len() == 0,
            m.spec_next_id() == 0,
    {
        Multiplexer { next_id: 0, queue: Vec::new() }
    }

    /// Accept a command from a caller: pair it with a fresh reply-slot id
    /// and queue it behind every earlier submission.
    pub fn submit(&mut self, cmd: Command) -> (id: u64)
        requires
            old(self).wf(),
            old(self).spec_next_id() < u64::MAX,
        ensures
            final(self).wf(),
            id == old(self).spec_next_id(),
            final(self).spec_next_id() == id + 1,
            final(self).spec_queue() == old(self).spec_queue().push(Pending { id, cmd }),
    {
        let id = self.next_id;
        self.next_id = self.next_id + 1;
        self.queue.push(Pending { id, cmd });
        id
    }

    /// Take the oldest pending request: commands are executed in the order
    /// the actor received them, FIFO across all callers.
    pub fn take_next(&mut self) -> (p: Option<Pending>)
        requires
            old(self).wf(),
        ensures
            final(self).wf(),
            final(self).spec_next_id() == old(self).spec_next_id(),
            match p {
                Some(front) => old(self).spec_queue().len() > 0 && front == old(
                    self,
                ).spec_queue()[0] && final(self).spec_queue() == old(self).spec_queue().remove(0),
                None => old(self).spec_queue().len() == 0 && final(self).spec_queue() == old(
                    self,
                ).spec_queue(),
            },
    {
        if self.queue.len() == 0 {
            None
        } else {
            Some(self.queue.remove(0))
        }
    }
}

/// Build the one reply a pending request is owed: its outcome under its own
/// reply-slot id, so no caller can be handed another caller's result.
pub fn make_reply(p: &Pending, outcome: CommandOutcome) -> (r: Reply)
    ensures
        r.id == p.id,
        r.outcome == outcome,
{
    Reply { id: p.id, outcome }
}

/// Relies on tokio's `oneshot::Sender`: the sending half of a single-use
/// channel, declared so that a reply slot can stand in signatures. Verus
/// sees nothing inside a value of it.
#[verifier::external_type_specification]
#[verifier::external_body]
#[verifier::reject_recursive_types(T)]
pub struct ExOneshotSender<T>(tokio::sync::oneshot::Sender<T>);

/// Relies on tokio's `oneshot::Sender::send`: it neither blocks nor panics,
/// and when the receiving half was already dropped it hands the unsent value
/// back as the error.
#[verifier::external_body]
fn oneshot_send(tx: tokio::sync::oneshot::Sender<Reply>, reply: Reply) -> (r: Option<Reply>)
    ensures
        r matches Some(v) ==> v == reply,
{
    match tx.send(reply) {
        Ok(()) => None,
        Err(v) => Some(v),
    }
}

/// Send `reply` into its single-use slot. A caller that abandoned the
/// receiving half before this point is not an error: the reply comes back
/// here undelivered, the actor discards it and goes on. Nothing is required
/// of the slot's state, so a lost caller can never stall or crash the actor.
pub fn deliver_reply(tx: tokio::sync::oneshot::Sender<Reply>, reply: Reply) {
    let undelivered = oneshot_send(tx, reply);
    match undelivered {
        Some(_) => (),
        None => (),
    }
}

/// Law: distinct pending requests carry distinct reply-slot ids, so a reply
/// routed by id can answer at most one caller (no cross-delivery).
pub proof fn lemma_pending_ids_distinct(m: &Multiplexer, i: int, j: int)
    requires
        m.wf(),
        0 <= i < m.spec_queue().len(),
        0 <= j < m.spec_queue().len(),
        i != j,
    ensures
        m.spec_queue()[i].id != m.spec_queue()[j].id,
{
}

/// Law: the id a submission is about to receive is not the id of any request
/// already pending, so a fresh submission can never capture an older
/// caller's reply.
pub proof fn lemma_fresh_id(m: &Multiplexer, i: int)
    requires
        m.wf(),
        0 <= i < m.spec_queue().len(),
    ensures
        m.spec_queue()[i].id != m.spec_next_id(),
{
}

} // verus!
