use vstd::prelude::*;
use crate::correlator::{Correlator, Dispatch, Incoming};
use crate::mailbox::SharedQueue;
use crate::message::CoreMsg;

verus! {

/// What became of one inbound frame.
pub enum Routed {
    /// A message was enqueued; `wake` says whether the caller must write a
    /// sentinel byte to the wakeup channel.
    Queued { wake: bool },
    /// A response with identifier `id` matched no pending request; nothing
    /// was enqueued.
    Discarded { id: u64 },
}

/// Routes one inbound frame onto the mailbox. The continuation of a
/// `new_view` request is the file it was issued for: its response becomes a
/// `NewViewReply` carrying that file and the result, so that it is applied on
/// the UI thread. A notification becomes a `Notification` message. A response
/// whose identifier is not pending changes neither the table nor the mailbox.
pub fn route_frame(
    corr: &mut Correlator<Option<String>>,
    queue: &mut SharedQueue,
    frame: Incoming,
) -> (r: Routed)
    requires
        old(corr).wf(),
    ensures
        final(corr).wf(),
        old(queue).wf() ==> final(queue).wf(),
        match frame {
            Incoming::Response { id, result } => if old(corr)@.pending.contains_key(id) {
                let msg = CoreMsg::NewViewReply { file_name: old(corr)@.pending[id], value: result };
                &&& final(corr)@.pending == old(corr)@.pending.remove(id)
                &&& final(corr)@.next_id == old(corr)@.next_id
                &&& final(queue)@ == old(queue)@.enqueue(msg)
                &&& r == (Routed::Queued { wake: old(queue)@.enqueue_wakes() })
            } else {
                &&& final(corr)@ == old(corr)@
                &&& final(queue)@ == old(queue)@
                &&& r == (Routed::Discarded { id })
            },
            Incoming::Notification { method, params } => {
                let msg = CoreMsg::Notification { method, params };
                &&& final(corr)@ == old(corr)@
                &&& final(queue)@ == old(queue)@.enqueue(msg)
                &&& r == (Routed::Queued { wake: old(queue)@.enqueue_wakes() })
            },
        },
{
    match corr.dispatch(frame) {
        Dispatch::Complete { continuation, result } => {
            let wake = queue.add_core_msg(
                CoreMsg::NewViewReply { file_name: continuation, value: result },
            );
            Routed::Queued { wake }
        },
        Dispatch::Notify { method, params } => {
            let wake = queue.add_core_msg(CoreMsg::Notification { method, params });
            Routed::Queued { wake }
        },
        Dispatch::Discarded { id } => Routed::Discarded { id },
    }
}

} // verus!
