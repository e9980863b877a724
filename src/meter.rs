//! Float-free parts of metering: the circular window of per-call readings and
//! the index mapping that fits a spectrum snapshot to a display of another
//! size.
use vstd::prelude::*;

verus! {

/// Number of slots in the level meter's RMS window.
pub const RMS_WINDOW_SLOTS: usize = 128;

/// A fixed number of slots written round-robin; the oldest reading is
/// overwritten first.
pub struct RollingWindow<T> {
    slots: Vec<T>,
    next: usize,
}

impl<T: Copy> RollingWindow<T> {
    pub closed spec fn spec_slots(&self) -> Seq<T> {
        self.slots@
    }

    pub closed spec fn spec_next(&self) -> nat {
        self.next as nat
    }

    pub open spec fn wf(&self) -> bool {
        &&& self.spec_slots().len() > 0
        &&& self.spec_next() < self.spec_slots().len()
    }

    /// `size` slots, each holding `fill`, with writing to start at the first.
    pub fn new(size: usize, fill: T) -> (r: Self)
        requires
            size > 0,
        ensures
            r.wf(),
            r.spec_slots() == Seq::new(size as nat, |i: int| fill),
            r.spec_next() == 0,
    {
        let mut slots: Vec<T> = Vec::new();
        let mut i: usize = 0;
        while i < size
            invariant
                i <= size,
                slots@ == Seq::new(i as nat, |j: int| fill),
            decreases size - i,
        {
            slots.push(fill);
            i = i + 1;
            assert(slots@ =~= Seq::new(i as nat, |j: int| fill));
        }
        RollingWindow { slots, next: 0 }
    }

    /// Writes `x` over the oldest slot and moves on, wrapping at the end.
    pub fn record(&mut self, x: T)
        requires
            old(self).wf(),
        ensures
            final(self).wf(),
            final(self).spec_slots() == old(self).spec_slots().update(old(self).spec_next() as int, x),
            final(self).spec_next() == (old(self).spec_next() + 1) % old(self).spec_slots().len(),
    {
        let i = self.next;
        let len = self.slots.len();
        assert(i < len);
        self.slots.set(i, x);
        if i + 1 == len {
            self.next = 0;
            assert((i + 1) % (len as int) == 0) by (nonlinear_arith)
                requires i + 1 == len, len > 0;
        } else {
            self.next = i + 1;
            assert((i + 1) % (len as int) == i + 1) by (nonlinear_arith)
                requires i + 1 < len, i >= 0;
        }
    }

    /// The readings in slot order.
    pub fn slots(&self) -> (r: &[T])
        ensures
            r@ == self.spec_slots(),
    {
        self.slots.as_slice()
    }
}

/// The index in a snapshot of `n` values shown at position `i` of `m`.
pub open spec fn source_index(i: int, n: int, m: int) -> int {
    (i * n) / m
}

/// A shown position always maps into the snapshot.
pub proof fn lemma_source_index_in_range(i: int, n: int, m: int)
    requires
        0 <= i < m,
        n > 0,
    ensures
        0 <= source_index(i, n, m) < n,
{
    assert(0 <= (i * n) / m < n) by (nonlinear_arith)
        requires 0 <= i < m, n > 0;
}

/// Fits `data` onto `target`: an equal-length snapshot is copied, a shorter or
/// longer one is resampled by nearest lower index, and an empty one leaves
/// `target` as it was.
pub fn update_spectrum<T: Copy>(target: &mut Vec<T>, data: &[T])
    ensures
        final(target)@.len() == old(target)@.len(),
        data@.len() == 0 ==> final(target)@ == old(target)@,
        data@.len() > 0 ==> forall|i: int|
            0 <= i < old(target)@.len() ==> #[trigger] final(target)@[i] == data@[source_index(
                i,
                data@.len() as int,
                old(target)@.len() as int,
            )],
{
    let m = target.len();
    let n = data.len();
    if n == 0 {
        return;
    }
    let mut i: usize = 0;
    while i < m
        invariant
            m == target@.len(),
            n == data@.len(),
            n > 0,
            m == old(target)@.len(),
            i <= m,
            forall|k: int|
                0 <= k < i ==> #[trigger] target@[k] == data@[source_index(k, n as int, m as int)],
        decreases m - i,
    {
        let iw = i as u128;
        let nw = n as u128;
        let mw = m as u128;
        proof {
            lemma_source_index_in_range(i as int, n as int, m as int);
            assert(iw * nw <= 0xFFFF_FFFF_FFFF_FFFFint * 0xFFFF_FFFF_FFFF_FFFFint) by (nonlinear_arith)
                requires iw <= 0xFFFF_FFFF_FFFF_FFFFint, nw <= 0xFFFF_FFFF_FFFF_FFFFint, iw >= 0, nw >= 0;
        }
        let src = ((iw * nw) / mw) as usize;
        target.set(i, data[src]);
        i = i + 1;
    }
}

} // verus!
