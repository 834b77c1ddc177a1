use vstd::prelude::*;

verus! {

/// A bounded, growable byte queue with distinct fill and consume cursors.
///
/// `data` holds the bytes that have been filled but not yet consumed, oldest
/// first. The ghost cursors record the running totals since the buffer was
/// created or last recycled, so that contracts can state conservation of
/// bytes: everything ever filled is either consumed or still pending.
pub struct Buffer {
    /// Bytes filled but not yet consumed, oldest first.
    pub data: Vec<u8>,
    /// Soft bound on `data` that drives backpressure decisions.
    pub limit: usize,
    /// Total number of bytes filled since the last recycle.
    pub filled: Ghost<nat>,
    /// Total number of bytes consumed since the last recycle.
    pub consumed: Ghost<nat>,
}

impl View for Buffer {
    type V = Seq<u8>;

    open spec fn view(&self) -> Seq<u8> {
        self.data@
    }
}

impl Buffer {
    /// The cursors never drift from the pending bytes: whatever was filled is
    /// either already consumed or still sitting in `data`.
    pub open spec fn wf(&self) -> bool {
        &&& self.limit > 0
        &&& self.consumed@ + self.data@.len() == self.filled@
    }

    /// How many further bytes the buffer asks for before it is full.
    pub open spec fn spec_window(&self) -> int {
        if self@.len() >= self.limit {
            0
        } else {
            self.limit - self@.len()
        }
    }

    pub fn new(limit: usize) -> (b: Buffer)
        requires
            limit > 0,
        ensures
            b.wf(),
            b@ == Seq::<u8>::empty(),
            b.limit == limit,
            b.filled@ == 0,
            b.consumed@ == 0,
    {
        Buffer { data: Vec::new(), limit, filled: Ghost(0), consumed: Ghost(0) }
    }

    pub fn len(&self) -> (n: usize)
        ensures
            n == self@.len(),
    {
        self.data.len()
    }

    pub fn is_empty(&self) -> (e: bool)
        ensures
            e == (self@.len() == 0),
    {
        self.data.len() == 0
    }

    /// The size of the window currently exposed for filling.
    pub fn window(&self) -> (n: usize)
        ensures
            n == self.spec_window(),
    {
        if self.data.len() >= self.limit {
            0
        } else {
            self.limit - self.data.len()
        }
    }

    /// Commit freshly received bytes at the back of the queue.
    pub fn fill(&mut self, bytes: Vec<u8>)
        requires
            old(self).wf(),
        ensures
            final(self).wf(),
            final(self)@ == old(self)@ + bytes@,
            final(self).limit == old(self).limit,
            final(self).consumed == old(self).consumed,
            final(self).filled@ == old(self).filled@ + bytes@.len(),
    {
        let ghost n = bytes@.len();
        let mut incoming = bytes;
        self.data.append(&mut incoming);
        proof {
            self.filled@ = self.filled@ + n;
        }
    }

    /// Remove `n` bytes from the front of the queue.
    pub fn consume(&mut self, n: usize)
        requires
            old(self).wf(),
            n <= old(self)@.len(),
        ensures
            final(self).wf(),
            final(self)@ == old(self)@.skip(n as int),
            final(self).limit == old(self).limit,
            final(self).filled == old(self).filled,
            final(self).consumed@ == old(self).consumed@ + n,
    {
        let tail = self.data.split_off(n);
        self.data = tail;
        proof {
            self.consumed@ = self.consumed@ + n as nat;
        }
        assert(self@ =~= old(self)@.skip(n as int));
    }

    /// Drop the pending bytes and restart the accounting, keeping the
    /// allocation so a pooled connection avoids reallocating.
    pub fn recycle(&mut self)
        requires
            old(self).limit > 0,
        ensures
            final(self).wf(),
            final(self)@ == Seq::<u8>::empty(),
            final(self).limit == old(self).limit,
            final(self).filled@ == 0,
            final(self).consumed@ == 0,
    {
        self.data.clear();
        proof {
            self.filled@ = 0;
            self.consumed@ = 0;
        }
    }
}

} // verus!
