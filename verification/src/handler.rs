//! The connection handler's decision logic.
//!
//! One handler serves one accepted connection. Each iteration it awaits one
//! event — a decoded request frame, a clean end of stream, or an I/O
//! failure — and [`handle_event`] decides what follows: exactly one response
//! frame is written back for a well-formed request, and any other event
//! closes this one connection without touching the shared store or any other
//! connection. The surrounding I/O loop performs the reads and writes;
//! everything it needs to decide is here.

use vstd::prelude::*;

use crate::command::Command;
use crate::command::Frame;
use crate::command::ProtoError;
use crate::command::spec_parse;
use crate::store::Shard;
use crate::store::ShardSet;

verus! {

/// What one iteration of a connection's read loop observed.
pub enum ConnEvent {
    /// A whole frame arrived.
    Received(Frame),
    /// The peer closed the stream cleanly.
    Eof,
    /// Reading or writing the stream failed.
    Failed,
}

/// What the handler does in response to one event.
pub enum HandlerAction {
    /// Write exactly this response frame back, then await the next frame.
    Reply(Frame),
    /// Close the connection without error.
    CloseClean,
    /// Report this protocol error and close the connection.
    CloseOnProtocol(ProtoError),
    /// Close the connection after an I/O failure.
    CloseOnIo,
}

/// How a dispatched command relates the store before (`pre`) and after
/// (`post`) to the response frame: GET reads and leaves the store as it was,
/// replying with the bound value or Null; SET binds the key and replies with
/// the acknowledgement text.
pub open spec fn spec_dispatch(
    pre: Map<Seq<u8>, Seq<u8>>,
    cmd: Command,
    post: Map<Seq<u8>, Seq<u8>>,
    resp: Frame,
) -> bool {
    match cmd {
        Command::Get { key } => {
            &&& post == pre
            &&& if pre.contains_key(key@) {
                resp matches Frame::Bulk(v) && v@ == pre[key@]
            } else {
                resp is Null
            }
        },
        Command::Put { key, val } => {
            &&& post == pre.insert(key@, val@)
            &&& resp matches Frame::Simple(s) && s@ == "OK"@
        },
    }
}

/// Run one decoded command against the store and build its response frame.
pub fn apply_command(db: &mut ShardSet, cmd: Command) -> (resp: Frame)
    requires
        old(db).wf(),
    ensures
        final(db).wf(),
        final(db).spec_shard_count() == old(db).spec_shard_count(),
        spec_dispatch(old(db)@, cmd, final(db)@, resp),
        cmd is Get ==> *final(db) == *old(db),
{
    match cmd {
        Command::Get { key } => {
            match db.get(&key) {
                Some(v) => Frame::Bulk(v),
                None => Frame::Null,
            }
        },
        Command::Put { key, val } => {
            db.set(key, val);
            Frame::Simple("OK".to_owned())
        },
    }
}

/// Run one decoded command against the one shard that holds its key. This is
/// the whole critical section of a concurrent deployment: the caller locks
/// exactly the shard that `crate::hash::shard_index` names for the command's
/// key, calls this, and unlocks — the lock never spans an I/O wait, so
/// traffic on every other shard proceeds undisturbed.
pub fn apply_on_shard(shard: &mut Shard, cmd: Command) -> (resp: Frame)
    ensures
        spec_dispatch(old(shard)@, cmd, final(shard)@, resp),
        cmd is Get ==> *final(shard) == *old(shard),
{
    match cmd {
        Command::Get { key } => {
            match shard.get(&key) {
                Some(v) => Frame::Bulk(v),
                None => Frame::Null,
            }
        },
        Command::Put { key, val } => {
            shard.set(key, val);
            Frame::Simple("OK".to_owned())
        },
    }
}

/// Decide one step of the connection state machine: decode the event's
/// frame, dispatch it, and say what the I/O loop must do next. Exactly one
/// response is owed per well-formed request; end of stream closes cleanly;
/// a malformed or unsupported request and an I/O failure each close this one
/// connection, leaving the store as it was.
pub fn handle_event(db: &mut ShardSet, ev: ConnEvent) -> (act: HandlerAction)
    requires
        old(db).wf(),
    ensures
        final(db).wf(),
        final(db).spec_shard_count() == old(db).spec_shard_count(),
        match ev {
            ConnEvent::Received(f) => match spec_parse(f) {
                Ok(cmd) => {
                    &&& act matches HandlerAction::Reply(resp)
                    &&& spec_dispatch(old(db)@, cmd, final(db)@, resp)
                },
                Err(e) => act == HandlerAction::CloseOnProtocol(e) && *final(db) == *old(db),
            },
            ConnEvent::Eof => act is CloseClean && *final(db) == *old(db),
            ConnEvent::Failed => act is CloseOnIo && *final(db) == *old(db),
        },
{
    match ev {
        ConnEvent::Received(f) => {
            match Command::from_frame(f) {
                Ok(cmd) => {
                    let resp = apply_command(db, cmd);
                    HandlerAction::Reply(resp)
                },
                Err(e) => HandlerAction::CloseOnProtocol(e),
            }
        },
        ConnEvent::Eof => HandlerAction::CloseClean,
        ConnEvent::Failed => HandlerAction::CloseOnIo,
    }
}

} // verus!
