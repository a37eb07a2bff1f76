//! A fixed pool of frame buffers for DMA transfers. Nothing is allocated
//! after start-up: a buffer is taken from the pool, owned by exactly one
//! holder while in flight, and handed back exactly once.
use vstd::prelude::*;

verus! {

/// Bytes that one frame buffer holds.
pub const FRAME_CAPACITY: usize = 100;

/// A buffer taken from a [`BufferPool`]. It cannot be copied or cloned,
/// so the one value that holds it is its only owner, until it goes back
/// through [`BufferPool::release`].
pub struct FrameBuffer {
    slot: usize,
    data: Vec<u8>,
}

impl View for FrameBuffer {
    type V = Seq<u8>;

    closed spec fn view(&self) -> Seq<u8> {
        self.data@
    }
}

impl FrameBuffer {
    /// The pool slot this buffer occupies.
    pub closed spec fn slot(&self) -> usize {
        self.slot
    }

    /// Stores one byte, unless the buffer is full.
    pub fn push(&mut self, b: u8) -> (r: bool)
        ensures
            r == (old(self)@.len() < FRAME_CAPACITY),
            r ==> final(self)@ == old(self)@.push(b),
            !r ==> final(self)@ == old(self)@,
            final(self).slot() == old(self).slot(),
    {
        if self.data.len() < FRAME_CAPACITY {
            self.data.push(b);
            true
        } else {
            false
        }
    }

    /// Appends `bytes`, which must fit.
    pub fn write_slice(&mut self, bytes: &[u8])
        requires
            old(self)@.len() + bytes@.len() <= FRAME_CAPACITY,
        ensures
            final(self)@ == old(self)@ + bytes@,
            final(self).slot() == old(self).slot(),
    {
        let mut i: usize = 0;
        while i < bytes.len()
            invariant
                0 <= i <= bytes@.len(),
                self@ == old(self)@ + bytes@.subrange(0, i as int),
                self.slot() == old(self).slot(),
            decreases bytes@.len() - i,
        {
            self.data.push(bytes[i]);
            i = i + 1;
            assert(bytes@.subrange(0, i as int) == bytes@.subrange(0, i - 1).push(bytes@[i - 1]));
        }
        assert(bytes@.subrange(0, i as int) == bytes@);
    }

    /// The bytes held.
    pub fn contents(&self) -> (r: &[u8])
        ensures
            r@ == self@,
    {
        self.data.as_slice()
    }
}

/// The pool: idle slots waiting to be taken, and the ghost set of slots
/// that are lent out.
pub struct BufferPool {
    capacity: usize,
    idle: Vec<usize>,
    lent: Ghost<Set<usize>>,
}

impl BufferPool {
    pub closed spec fn capacity(&self) -> nat {
        self.capacity as nat
    }

    /// Slots ready to be taken, the next one last.
    pub closed spec fn idle(&self) -> Seq<usize> {
        self.idle@
    }

    /// Slots taken and not yet handed back.
    pub closed spec fn lent(&self) -> Set<usize> {
        self.lent@
    }

    pub closed spec fn wf(&self) -> bool {
        &&& self.lent@.finite()
        &&& self.idle@.len() + self.lent@.len() == self.capacity
        &&& self.idle@.no_duplicates()
        &&& forall|i: int| 0 <= i < self.idle@.len() ==> #[trigger] self.idle@[i] < self.capacity
        &&& forall|s: usize| #[trigger] self.lent@.contains(s) ==> s < self.capacity && !self.idle@.contains(s)
        &&& forall|s: usize| s < self.capacity ==> self.idle@.contains(s) || #[trigger] self.lent@.contains(s)
    }

    /// A pool of `capacity` idle buffers.
    pub fn new(capacity: usize) -> (r: Self)
        ensures
            r.wf(),
            r.capacity() == capacity,
            r.idle().len() == capacity,
            r.lent() == Set::<usize>::empty(),
    {
        let mut idle: Vec<usize> = Vec::new();
        let mut i: usize = 0;
        while i < capacity
            invariant
                0 <= i <= capacity,
                idle@.len() == i,
                forall|k: int| 0 <= k < i ==> #[trigger] idle@[k] == k,
            decreases capacity - i,
        {
            idle.push(i);
            i = i + 1;
        }
        let r = BufferPool { capacity, idle, lent: Ghost(Set::empty()) };
        assert forall|s: usize| s < capacity implies r.idle@.contains(s) by {
            assert(r.idle@[s as int] == s);
        }
        r
    }

    /// Buffers ready to be taken.
    pub fn available(&self) -> (r: usize)
        ensures
            r == self.idle().len(),
    {
        self.idle.len()
    }

    /// Takes an empty buffer, or `None` when every buffer is in flight.
    pub fn acquire(&mut self) -> (r: Option<FrameBuffer>)
        requires
            old(self).wf(),
        ensures
            final(self).wf(),
            final(self).capacity() == old(self).capacity(),
            old(self).idle().len() == 0 ==> r is None && *final(self) == *old(self),
            old(self).idle().len() > 0 ==> (r matches Some(b) && {
                &&& b@.len() == 0
                &&& b.slot() == old(self).idle().last()
                &&& !old(self).lent().contains(b.slot())
                &&& final(self).lent() == old(self).lent().insert(b.slot())
                &&& final(self).idle() == old(self).idle().drop_last()
            }),
    {
        if self.idle.len() == 0 {
            return None;
        }
        match self.idle.pop() {
            None => None,
            Some(slot) => {
                proof {
                    let old_idle = old(self).idle@;
                    assert(old_idle.last() == slot);
                    assert(old_idle.contains(slot));
                    assert(!self.lent@.contains(slot));
                    assert(!self.idle@.contains(slot)) by {
                        if self.idle@.contains(slot) {
                            let k = choose|k: int| 0 <= k < self.idle@.len() && self.idle@[k] == slot;
                            assert(old_idle[k] == old_idle[old_idle.len() - 1]);
                        }
                    }
                    self.lent@ = self.lent@.insert(slot);
                    assert forall|s: usize| #[trigger] self.lent@.contains(s) implies s < self.capacity && !self.idle@.contains(s) by {
                        if s != slot {
                            assert(old(self).lent@.contains(s));
                            if self.idle@.contains(s) {
                                let k = choose|k: int| 0 <= k < self.idle@.len() && self.idle@[k] == s;
                                assert(old_idle[k] == s);
                            }
                        }
                    }
                    assert forall|s: usize| s < self.capacity implies self.idle@.contains(s) || #[trigger] self.lent@.contains(s) by {
                        if s != slot && !old(self).lent@.contains(s) {
                            let k = choose|k: int| 0 <= k < old_idle.len() && old_idle[k] == s;
                            assert(k != old_idle.len() - 1);
                            assert(self.idle@[k] == s);
                        }
                    }
                }
                Some(FrameBuffer { slot, data: Vec::new() })
            },
        }
    }

    /// Hands a buffer back; its contents are dropped.
    pub fn release(&mut self, buf: FrameBuffer)
        requires
            old(self).wf(),
            old(self).lent().contains(buf.slot()),
        ensures
            final(self).wf(),
            final(self).capacity() == old(self).capacity(),
            final(self).lent() == old(self).lent().remove(buf.slot()),
            final(self).idle() == old(self).idle().push(buf.slot()),
    {
        let slot = buf.slot;
        self.idle.push(slot);
        proof {
            let old_idle = old(self).idle@;
            self.lent@ = self.lent@.remove(slot);
            assert(self.idle@.last() == slot);
            assert forall|i: int, j: int| 0 <= i < j < self.idle@.len() implies self.idle@[i] != self.idle@[j] by {
                if j == self.idle@.len() - 1 {
                    assert(old_idle.contains(self.idle@[i]) ==> !old(self).lent@.contains(self.idle@[i]));
                    assert(old_idle[i] == self.idle@[i]);
                }
            }
            assert forall|s: usize| #[trigger] self.lent@.contains(s) implies s < self.capacity && !self.idle@.contains(s) by {
                if self.idle@.contains(s) {
                    let k = choose|k: int| 0 <= k < self.idle@.len() && self.idle@[k] == s;
                    assert(k != self.idle@.len() - 1);
                    assert(old_idle[k] == s);
                }
            }
            assert forall|s: usize| s < self.capacity implies self.idle@.contains(s) || #[trigger] self.lent@.contains(s) by {
                if s == slot {
                    assert(self.idle@[self.idle@.len() - 1] == s);
                } else if !old(self).lent@.contains(s) {
                    let k = choose|k: int| 0 <= k < old_idle.len() && old_idle[k] == s;
                    assert(self.idle@[k] == s);
                }
            }
        }
    }

    /// Every buffer is either idle or in flight, never both and never
    /// twice: idle and lent-out buffers together are exactly the pool.
    pub proof fn lemma_buffers_conserved(&self)
        requires
            self.wf(),
        ensures
            self.idle().len() + self.lent().len() == self.capacity(),
            self.idle().no_duplicates(),
            forall|s: usize| #[trigger] self.lent().contains(s) ==> !self.idle().contains(s),
            forall|s: usize| (s < self.capacity()) == (self.idle().contains(s) || #[trigger] self.lent().contains(s)),
    {
        assert forall|s: usize| (s < self.capacity()) == (self.idle().contains(s) || #[trigger] self.lent().contains(s)) by {
            if self.idle().contains(s) {
                let k = choose|k: int| 0 <= k < self.idle@.len() && self.idle@[k] == s;
                assert(self.idle@[k] < self.capacity);
            }
        }
    }
}

} // verus!
