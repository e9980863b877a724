//! The bounded buffer between the input and output callbacks, with
//! drop-oldest backpressure and silence on underrun.
use vstd::prelude::*;

verus! {

/// The contents after pushing `x` into a buffer of `capacity`: appended, the
/// oldest sample evicted first when full.
pub open spec fn pushed<T>(s: Seq<T>, x: T, capacity: nat) -> Seq<T> {
    if s.len() < capacity {
        s.push(x)
    } else {
        s.subrange(1, s.len() as int).push(x)
    }
}

/// The contents after pushing each sample of `xs` in order.
pub open spec fn pushed_all<T>(s: Seq<T>, xs: Seq<T>, capacity: nat) -> Seq<T>
    decreases xs.len(),
{
    if xs.len() == 0 {
        s
    } else {
        pushed(pushed_all(s, xs.drop_last(), capacity), xs.last(), capacity)
    }
}

/// What a read of `n` samples returns: the oldest samples in order, then
/// `silence` for each one missing.
pub open spec fn drained<T>(s: Seq<T>, n: nat, silence: T) -> Seq<T> {
    Seq::new(n, |i: int| if i < s.len() { s[i] } else { silence })
}

/// A FIFO of samples holding at most `capacity` items.
pub struct SharedBuffer<T> {
    items: std::collections::VecDeque<T>,
    capacity: usize,
}

impl<T> View for SharedBuffer<T> {
    type V = Seq<T>;

    closed spec fn view(&self) -> Seq<T> {
        self.items@
    }
}

impl<T: Copy> SharedBuffer<T> {
    pub closed spec fn spec_capacity(&self) -> nat {
        self.capacity as nat
    }

    pub open spec fn wf(&self) -> bool {
        &&& 0 < self.spec_capacity()
        &&& self@.len() <= self.spec_capacity()
    }

    /// An empty buffer; `capacity` must be positive.
    pub fn new(capacity: usize) -> (r: Self)
        requires
            capacity > 0,
        ensures
            r.wf(),
            r@ == Seq::<T>::empty(),
            r.spec_capacity() == capacity,
    {
        SharedBuffer { items: std::collections::VecDeque::new(), capacity }
    }

    pub fn len(&self) -> (r: usize)
        ensures
            r == self@.len(),
    {
        self.items.len()
    }

    pub fn capacity(&self) -> (r: usize)
        ensures
            r == self.spec_capacity(),
    {
        self.capacity
    }

    /// Appends a sample; when the buffer is full the oldest sample is dropped
    /// to make room.
    pub fn push(&mut self, x: T)
        requires
            old(self).wf(),
        ensures
            final(self).wf(),
            final(self).spec_capacity() == old(self).spec_capacity(),
            final(self)@ == pushed(old(self)@, x, old(self).spec_capacity()),
    {
        if self.items.len() >= self.capacity {
            let _ = self.items.pop_front();
        }
        self.items.push_back(x);
        assert(self@ =~= pushed(old(self)@, x, old(self).spec_capacity()));
    }

    /// Appends every sample of `frame` in order.
    pub fn push_frame(&mut self, frame: &[T])
        requires
            old(self).wf(),
        ensures
            final(self).wf(),
            final(self).spec_capacity() == old(self).spec_capacity(),
            final(self)@ == pushed_all(old(self)@, frame@, old(self).spec_capacity()),
    {
        let mut i: usize = 0;
        while i < frame.len()
            invariant
                self.wf(),
                self.spec_capacity() == old(self).spec_capacity(),
                i <= frame@.len(),
                self@ == pushed_all(old(self)@, frame@.take(i as int), old(self).spec_capacity()),
            decreases frame@.len() - i,
        {
            assert(frame@.take(i as int + 1).drop_last() =~= frame@.take(i as int));
            self.push(frame[i]);
            i = i + 1;
        }
        assert(frame@.take(i as int) =~= frame@);
    }

    /// Removes and returns the oldest sample, if any.
    pub fn pop(&mut self) -> (r: Option<T>)
        requires
            old(self).wf(),
        ensures
            final(self).wf(),
            final(self).spec_capacity() == old(self).spec_capacity(),
            old(self)@.len() == 0 ==> r is None && final(self)@ == old(self)@,
            old(self)@.len() > 0 ==> r == Some(old(self)@[0]) && final(self)@ == old(self)@.subrange(1, old(self)@.len() as int),
    {
        self.items.pop_front()
    }

    /// Reads `n` samples in FIFO order, filling with `silence` once the
    /// buffer runs dry.
    pub fn drain(&mut self, n: usize, silence: T) -> (r: Vec<T>)
        requires
            old(self).wf(),
        ensures
            final(self).wf(),
            final(self).spec_capacity() == old(self).spec_capacity(),
            r@ == drained(old(self)@, n as nat, silence),
            final(self)@ == if n < old(self)@.len() {
                old(self)@.subrange(n as int, old(self)@.len() as int)
            } else {
                Seq::<T>::empty()
            },
    {
        let mut out: Vec<T> = Vec::new();
        let mut i: usize = 0;
        while i < n
            invariant
                self.wf(),
                self.spec_capacity() == old(self).spec_capacity(),
                i <= n,
                out@.len() == i,
                forall|j: int| 0 <= j < i ==> out@[j] == drained(old(self)@, n as nat, silence)[j],
                self@ == if i < old(self)@.len() {
                    old(self)@.subrange(i as int, old(self)@.len() as int)
                } else {
                    Seq::<T>::empty()
                },
            decreases n - i,
        {
            let x = match self.pop() {
                Some(v) => v,
                None => silence,
            };
            out.push(x);
            i = i + 1;
        }
        assert(out@ =~= drained(old(self)@, n as nat, silence));
        out
    }
}

/// Drop-oldest backpressure: pushing into a full buffer evicts exactly the
/// oldest sample, so the length stays at capacity, the rest keep their order,
/// and the new sample is last.
pub proof fn lemma_full_push_evicts_oldest<T>(s: Seq<T>, x: T, capacity: nat)
    requires
        s.len() == capacity,
        capacity > 0,
    ensures
        pushed(s, x, capacity).len() == capacity,
        pushed(s, x, capacity).last() == x,
        forall|i: int| 0 <= i < capacity - 1 ==> pushed(s, x, capacity)[i] == s[i + 1],
{
}

} // verus!
