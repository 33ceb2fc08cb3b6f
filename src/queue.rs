use vstd::prelude::*;

use crate::state::PartialDeviceState;

verus! {

/// How many partial updates may wait for the control-plane task.
pub const QUEUE_CAPACITY: usize = 16;

/// The bounded first-in first-out queue between the write handlers and the control-plane
/// task. A full queue refuses the newest update instead of making the caller wait.
pub struct UpdateQueue {
    items: Vec<PartialDeviceState>,
}

/// The queue `q` after an attempt to add `u`, and whether `u` was taken.
pub open spec fn offered(q: Seq<PartialDeviceState>, u: PartialDeviceState) -> (
    Seq<PartialDeviceState>,
    bool,
) {
    if q.len() < QUEUE_CAPACITY {
        (q.push(u), true)
    } else {
        (q, false)
    }
}

impl View for UpdateQueue {
    type V = Seq<PartialDeviceState>;

    closed spec fn view(&self) -> Seq<PartialDeviceState> {
        self.items@
    }
}

impl UpdateQueue {
    pub closed spec fn wf(&self) -> bool {
        self.items@.len() <= QUEUE_CAPACITY
    }

    pub fn new() -> (r: Self)
        ensures
            r.wf(),
            r@ == Seq::<PartialDeviceState>::empty(),
    {
        UpdateQueue { items: Vec::new() }
    }

    pub fn len(&self) -> (r: usize)
        ensures
            r == self@.len(),
    {
        self.items.len()
    }

    pub fn is_full(&self) -> (r: bool)
        requires
            self.wf(),
        ensures
            r == (self@.len() == QUEUE_CAPACITY),
    {
        self.items.len() == QUEUE_CAPACITY
    }

    /// Adds `u` at the back unless the queue is full; never waits.
    pub fn try_push(&mut self, u: PartialDeviceState) -> (r: bool)
        requires
            old(self).wf(),
        ensures
            final(self).wf(),
            (final(self)@, r) == offered(old(self)@, u),
    {
        if self.items.len() < QUEUE_CAPACITY {
            self.items.push(u);
            true
        } else {
            false
        }
    }

    /// Takes the oldest update out of the queue.
    pub fn pop(&mut self) -> (r: Option<PartialDeviceState>)
        requires
            old(self).wf(),
        ensures
            final(self).wf(),
            old(self)@.len() == 0 ==> r.is_none() && final(self)@ == old(self)@,
            old(self)@.len() > 0 ==> r == Some(old(self)@[0]) && final(self)@ == old(self)@.drop_first(),
    {
        if self.items.len() == 0 {
            None
        } else {
            let u = self.items.remove(0);
            assert(self.items@ =~= old(self)@.drop_first());
            Some(u)
        }
    }
}

/// An update offered to a full queue is the one refused: every update already queued stays,
/// in its place. The queue keeps its capacity bound either way, and once one update is taken
/// out, the next offer is taken.
pub proof fn lemma_full_queue_drops_newest(q: Seq<PartialDeviceState>, u: PartialDeviceState, w: PartialDeviceState)
    requires
        q.len() == QUEUE_CAPACITY,
    ensures
        offered(q, u) == (q, false),
        offered(q.drop_first(), w) == (q.drop_first().push(w), true),
{
}

} // verus!
