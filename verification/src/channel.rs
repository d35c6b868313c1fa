//! The delivery channel behind the live update stream: an unbounded
//! single-producer queue from the `futures` crate, seen by the rest of the
//! library only through the contracts below.

use vstd::prelude::*;
use futures::channel::mpsc::{UnboundedReceiver, UnboundedSender};

verus! {

/// Declares futures::channel::mpsc::UnboundedSender, the sending half of the
/// delivery channel, so that it can stand in signatures and fields.
#[verifier::external_type_specification]
#[verifier::external_body]
#[verifier::reject_recursive_types(T)]
pub struct ExUnboundedSender<T>(UnboundedSender<T>);

/// Declares futures::channel::mpsc::UnboundedReceiver, the receiving half,
/// which the library only hands out, never reads.
#[verifier::external_type_specification]
#[verifier::external_body]
#[verifier::reject_recursive_types(T)]
pub struct ExUnboundedReceiver<T>(UnboundedReceiver<T>);

/// The snapshots this sender has pushed into its channel's queue, oldest
/// first; the paired receiver yields exactly these, in this order.
pub uninterp spec fn queued(tx: UnboundedSender<(u32, u32, u32, u32)>) -> Seq<(u32, u32, u32, u32)>;

/// Relies on futures::channel::mpsc::unbounded: a fresh channel holds no
/// messages, so its sender has queued nothing yet.
#[verifier::external_body]
pub(crate) fn new_stream_channel() -> (r: (
    UnboundedSender<(u32, u32, u32, u32)>,
    UnboundedReceiver<(u32, u32, u32, u32)>,
))
    ensures
        queued(r.0) == Seq::<(u32, u32, u32, u32)>::empty(),
{
    futures::channel::mpsc::unbounded()
}

/// Relies on UnboundedSender::unbounded_send: on Ok the message was appended
/// to the channel's queue; on Err the receiving end is gone and nothing was
/// queued. It never blocks and never panics.
#[verifier::external_body]
pub(crate) fn try_send(tx: &mut UnboundedSender<(u32, u32, u32, u32)>, m: (u32, u32, u32, u32)) -> (ok:
    bool)
    ensures
        ok ==> queued(*final(tx)) == queued(*old(tx)).push(m),
        !ok ==> queued(*final(tx)) == queued(*old(tx)),
{
    tx.unbounded_send(m).is_ok()
}

} // verus!
