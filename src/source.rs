use vstd::prelude::*;
use crate::mailbox::SharedQueue;
use crate::message::CoreMsg;

verus! {

/// The policy of the event-loop source bound to the wakeup channel's read
/// end. It never polls by itself and relies on the host loop's descriptor
/// readiness to be dispatched.
pub struct QueueSource;

impl QueueSource {
    /// Never ready by its own check.
    pub fn check(&self) -> (ready: bool)
        ensures
            !ready,
    {
        false
    }

    /// Not ready, and no timeout.
    pub fn prepare(&self) -> (r: (bool, Option<u32>))
        ensures
            r == (false, None::<u32>),
    {
        (false, None)
    }

    /// One dispatch: a single full drain with signal reset. Returns the
    /// drained messages, to be applied in order, and that the source stays
    /// registered.
    pub fn dispatch(&self, queue: &mut SharedQueue) -> (r: (Vec<CoreMsg>, bool))
        ensures
            r.0@ == old(queue)@.queue,
            r.1,
            final(queue)@ == old(queue)@.drain(),
            final(queue).wf(),
    {
        let msgs = queue.drain_and_reset();
        (msgs, true)
    }
}

} // verus!
