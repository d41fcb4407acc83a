use vstd::prelude::*;
use std::collections::VecDeque;
use crate::message::CoreMsg;

verus! {

/// Abstract state of the mailbox: the queued messages, in delivery order, and
/// whether the wakeup channel holds an unconsumed sentinel byte.
pub struct QueueModel {
    pub queue: Seq<CoreMsg>,
    pub signaled: bool,
}

impl QueueModel {
    /// A mailbox with nothing queued and no signal pending.
    pub open spec fn empty() -> QueueModel {
        QueueModel { queue: Seq::empty(), signaled: false }
    }

    /// No lost wakeup: whenever a message waits, a sentinel is pending.
    pub open spec fn wf(self) -> bool {
        self.signaled == (self.queue.len() > 0)
    }

    /// Whether appending a message writes a sentinel: exactly when the queue
    /// was empty before the append.
    pub open spec fn enqueue_wakes(self) -> bool {
        self.queue.len() == 0
    }

    /// The state after appending `m`.
    pub open spec fn enqueue(self, m: CoreMsg) -> QueueModel {
        QueueModel { queue: self.queue.push(m), signaled: self.signaled || self.enqueue_wakes() }
    }

    /// The state after a full drain and signal reset.
    pub open spec fn drain(self) -> QueueModel {
        QueueModel::empty()
    }
}

/// One operation on the mailbox, as producers and the UI thread issue them.
pub enum MailboxOp {
    Enqueue(CoreMsg),
    Drain,
}

/// The state after running `ops` in order from `s`.
pub open spec fn run_state(s: QueueModel, ops: Seq<MailboxOp>) -> QueueModel
    decreases ops.len(),
{
    if ops.len() == 0 {
        s
    } else {
        let last = ops.last();
        let before = run_state(s, ops.drop_last());
        match last {
            MailboxOp::Enqueue(m) => before.enqueue(m),
            MailboxOp::Drain => before.drain(),
        }
    }
}

/// The messages handed out by the drains among `ops`, in the order applied.
pub open spec fn run_applied(s: QueueModel, ops: Seq<MailboxOp>) -> Seq<CoreMsg>
    decreases ops.len(),
{
    if ops.len() == 0 {
        Seq::empty()
    } else {
        let before = run_applied(s, ops.drop_last());
        match ops.last() {
            MailboxOp::Enqueue(_) => before,
            MailboxOp::Drain => before + run_state(s, ops.drop_last()).queue,
        }
    }
}

/// The number of sentinel bytes written while running `ops` from `s`.
pub open spec fn run_wakes(s: QueueModel, ops: Seq<MailboxOp>) -> nat
    decreases ops.len(),
{
    if ops.len() == 0 {
        0
    } else {
        let before = run_wakes(s, ops.drop_last());
        match ops.last() {
            MailboxOp::Enqueue(_) => if run_state(s, ops.drop_last()).enqueue_wakes() {
                before + 1
            } else {
                before
            },
            MailboxOp::Drain => before,
        }
    }
}

/// The messages enqueued by `ops`, in order.
pub open spec fn enqueued(ops: Seq<MailboxOp>) -> Seq<CoreMsg>
    decreases ops.len(),
{
    if ops.len() == 0 {
        Seq::empty()
    } else {
        match ops.last() {
            MailboxOp::Enqueue(m) => enqueued(ops.drop_last()).push(m),
            MailboxOp::Drain => enqueued(ops.drop_last()),
        }
    }
}

/// Ordering: whatever the interleaving of enqueues and drains, the messages
/// applied so far followed by those still queued are exactly the messages
/// that were queued at the start followed by those enqueued, in order. From
/// an empty mailbox, drains apply messages in enqueue order.
pub proof fn lemma_fifo_order(s: QueueModel, ops: Seq<MailboxOp>)
    ensures
        run_applied(s, ops) + run_state(s, ops).queue == s.queue + enqueued(ops),
    decreases ops.len(),
{
    if ops.len() > 0 {
        let prev = ops.drop_last();
        lemma_fifo_order(s, prev);
        match ops.last() {
            MailboxOp::Enqueue(m) => {
                assert(run_applied(s, ops) + run_state(s, ops).queue
                    =~= (run_applied(s, prev) + run_state(s, prev).queue).push(m));
                assert(s.queue + enqueued(ops) =~= (s.queue + enqueued(prev)).push(m));
            },
            MailboxOp::Drain => {
                assert(run_applied(s, ops) + run_state(s, ops).queue
                    =~= run_applied(s, prev) + run_state(s, prev).queue);
            },
        }
    }
}

/// Wakeup coalescing: enqueuing one or more messages into an empty mailbox,
/// with no drain in between, writes exactly one sentinel byte.
pub proof fn lemma_wakeup_coalescing(s: QueueModel, ops: Seq<MailboxOp>)
    requires
        s.queue.len() == 0,
        ops.len() > 0,
        forall|i: int| 0 <= i < ops.len() ==> (#[trigger] ops[i]) is Enqueue,
    ensures
        run_wakes(s, ops) == 1,
    decreases ops.len(),
{
    let prev = ops.drop_last();
    assert(ops.last() is Enqueue) by {
        assert(ops[ops.len() - 1] is Enqueue);
    }
    if prev.len() == 0 {
        assert(run_wakes(s, prev) == 0 && run_state(s, prev) == s);
    } else {
        assert forall|i: int| 0 <= i < prev.len() implies (#[trigger] prev[i]) is Enqueue by {
            assert(prev[i] == ops[i]);
        }
        lemma_wakeup_coalescing(s, prev);
        lemma_queue_len_grows(s, prev);
    }
}

/// With only enqueues, the queue holds one message more per operation.
proof fn lemma_queue_len_grows(s: QueueModel, ops: Seq<MailboxOp>)
    requires
        forall|i: int| 0 <= i < ops.len() ==> (#[trigger] ops[i]) is Enqueue,
    ensures
        run_state(s, ops).queue.len() == s.queue.len() + ops.len(),
    decreases ops.len(),
{
    if ops.len() > 0 {
        let prev = ops.drop_last();
        assert forall|i: int| 0 <= i < prev.len() implies (#[trigger] prev[i]) is Enqueue by {
            assert(prev[i] == ops[i]);
        }
        lemma_queue_len_grows(s, prev);
        assert(ops[ops.len() - 1] is Enqueue);
    }
}

/// No lost wakeup: from any state in which every waiting message has a
/// pending sentinel, every sequence of enqueues and drains leads to such a
/// state again; and once a drain has emptied the mailbox and cleared the
/// signal, the next enqueue writes a fresh sentinel.
pub proof fn lemma_no_lost_wakeup(s: QueueModel, ops: Seq<MailboxOp>, m: CoreMsg)
    requires
        s.wf(),
    ensures
        run_state(s, ops).wf(),
        run_state(s, ops).drain().enqueue_wakes(),
        run_state(s, ops).drain().enqueue(m).signaled,
    decreases ops.len(),
{
    if ops.len() > 0 {
        lemma_no_lost_wakeup(s, ops.drop_last(), m);
    }
}

/// The mailbox shared by the producer threads and the UI thread.
pub struct SharedQueue {
    queue: VecDeque<CoreMsg>,
    signaled: bool,
}

impl View for SharedQueue {
    type V = QueueModel;

    closed spec fn view(&self) -> QueueModel {
        QueueModel { queue: self.queue@, signaled: self.signaled }
    }
}

impl SharedQueue {
    /// Whether the recorded channel state agrees with the queue.
    pub open spec fn wf(&self) -> bool {
        self@.wf()
    }

    /// An empty mailbox with a quiescent wakeup channel.
    pub fn new() -> (r: SharedQueue)
        ensures
            r@ == QueueModel::empty(),
            r.wf(),
    {
        SharedQueue { queue: VecDeque::new(), signaled: false }
    }

    /// The number of messages waiting.
    pub fn len(&self) -> (r: usize)
        ensures
            r == self@.queue.len(),
    {
        self.queue.len()
    }

    /// Whether the wakeup channel holds an unconsumed sentinel.
    pub fn is_signaled(&self) -> (r: bool)
        ensures
            r == self@.signaled,
    {
        self.signaled
    }

    /// Appends `msg` at the tail. Returns whether the caller must write one
    /// sentinel byte to the wakeup channel: exactly when the mailbox was
    /// empty before the append.
    pub fn add_core_msg(&mut self, msg: CoreMsg) -> (wake: bool)
        ensures
            wake == old(self)@.enqueue_wakes(),
            final(self)@ == old(self)@.enqueue(msg),
            old(self).wf() ==> final(self).wf(),
    {
        let wake = self.queue.len() == 0;
        if wake {
            self.signaled = true;
        }
        self.queue.push_back(msg);
        wake
    }

    /// Pops every queued message, in enqueue order, and clears the recorded
    /// signal. The caller applies the returned messages in order and consumes
    /// the sentinel from the wakeup channel before releasing the lock.
    pub fn drain_and_reset(&mut self) -> (msgs: Vec<CoreMsg>)
        ensures
            msgs@ == old(self)@.queue,
            final(self)@ == old(self)@.drain(),
            final(self).wf(),
    {
        let mut msgs: Vec<CoreMsg> = Vec::new();
        let ghost start = self.queue@;
        while self.queue.len() > 0
            invariant
                msgs@ + self.queue@ == start,
            decreases self.queue@.len(),
        {
            let popped = self.queue.pop_front();
            match popped {
                Some(m) => {
                    let ghost rest = self.queue@;
                    msgs.push(m);
                    assert(msgs@ + rest =~= start);
                },
                None => {},
            }
        }
        assert(msgs@ =~= start);
        self.signaled = false;
        assert(self@.queue =~= Seq::<CoreMsg>::empty());
        msgs
    }
}

} // verus!
