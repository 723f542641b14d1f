//! The rolling analysis window: a bounded sequence of the most recent
//! processed samples, overwritten continuously and snapshotted by the
//! spectrum stage.  Its bound (the transform length) is independent of the
//! ring buffer's capacity.

use vstd::prelude::*;

use crate::fixed::HEADROOM;

verus! {

/// What one bounded append leaves in a window of capacity `cap`: the new
/// sample at the back, and the oldest gone once the bound is reached.
pub open spec fn win_push_spec(win: Seq<i64>, s: i64, cap: int) -> Seq<i64> {
    if win.len() < cap {
        win.push(s)
    } else {
        win.push(s).skip(win.len() + 1 - cap)
    }
}

pub struct AnalysisWindow {
    samples: Vec<i64>,
    capacity: usize,
}

impl View for AnalysisWindow {
    type V = Seq<i64>;

    closed spec fn view(&self) -> Seq<i64> {
        self.samples@
    }
}

impl AnalysisWindow {
    pub closed spec fn cap(self) -> int {
        self.capacity as int
    }

    /// The window never grows past its bound and holds headroom-bounded
    /// samples only.
    pub open spec fn wf(self) -> bool {
        &&& self@.len() <= self.cap()
        &&& forall|i: int| 0 <= i < self@.len() ==> -HEADROOM <= #[trigger] self@[i] <= HEADROOM
    }

    pub fn new(capacity: usize) -> (w: Self)
        ensures
            w@ == Seq::<i64>::empty(),
            w.cap() == capacity,
            w.wf(),
    {
        AnalysisWindow { samples: Vec::new(), capacity }
    }

    pub fn len(&self) -> (n: usize)
        ensures
            n == self@.len(),
    {
        self.samples.len()
    }

    pub fn get(&self, i: usize) -> (v: i64)
        requires
            i < self@.len(),
        ensures
            v == self@[i as int],
    {
        self.samples[i]
    }

    /// Appends one sample, dropping the oldest when the window is full.
    pub fn push(&mut self, s: i64)
        requires
            old(self).wf(),
            -HEADROOM <= s <= HEADROOM,
        ensures
            final(self).wf(),
            final(self).cap() == old(self).cap(),
            final(self)@ == win_push_spec(old(self)@, s, old(self).cap()),
    {
        self.samples.push(s);
        if self.samples.len() > self.capacity {
            let excess: usize = self.samples.len() - self.capacity;
            let tail = self.samples.split_off(excess);
            self.samples = tail;
            proof {
                assert(self@ =~= old(self)@.push(s).skip(
                    old(self)@.len() + 1 - old(self).cap(),
                ));
            }
        }
    }
}

} // verus!
