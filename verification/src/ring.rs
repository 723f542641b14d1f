//! The bounded FIFO sample buffer between the capture and playback paths.
//!
//! Samples are appended at the back in temporal order; playback removes from
//! the front; after each capture block the buffer is trimmed from the front
//! down to the configured capacity, so only the most recent samples survive.

use vstd::prelude::*;

use crate::fixed::HEADROOM;

verus! {

pub struct AudioRing {
    samples: Vec<i64>,
}

impl View for AudioRing {
    type V = Seq<i64>;

    closed spec fn view(&self) -> Seq<i64> {
        self.samples@
    }
}

impl AudioRing {
    /// Every stored sample stays within the chain's headroom.
    pub open spec fn wf(self) -> bool {
        forall|i: int| 0 <= i < self@.len() ==> -HEADROOM <= #[trigger] self@[i] <= HEADROOM
    }

    pub fn new() -> (r: Self)
        ensures
            r@ == Seq::<i64>::empty(),
            r.wf(),
    {
        AudioRing { samples: Vec::new() }
    }

    pub fn len(&self) -> (n: usize)
        ensures
            n == self@.len(),
    {
        self.samples.len()
    }

    pub fn get(&self, i: usize) -> (v: i64)
        requires
            i < self@.len(),
        ensures
            v == self@[i as int],
    {
        self.samples[i]
    }

    /// Appends one processed sample at the back.
    pub fn append(&mut self, s: i64)
        requires
            old(self).wf(),
            -HEADROOM <= s <= HEADROOM,
        ensures
            final(self)@ == old(self)@.push(s),
            final(self).wf(),
    {
        self.samples.push(s);
        proof {
            assert forall|i: int| 0 <= i < self@.len() implies -HEADROOM <= #[trigger] self@[i]
                <= HEADROOM by {
                if i < old(self)@.len() {
                    assert(self@[i] == old(self)@[i]);
                } else {
                    assert(self@[i] == s);
                }
            }
        }
    }

    /// Removes the `n` oldest samples from the front.
    pub fn drop_front(&mut self, n: usize)
        requires
            old(self).wf(),
            n <= old(self)@.len(),
        ensures
            final(self)@ == old(self)@.skip(n as int),
            final(self).wf(),
    {
        let tail = self.samples.split_off(n);
        self.samples = tail;
        proof {
            assert(self@ =~= old(self)@.skip(n as int));
        }
    }

    /// Trims the buffer from the front until it holds at most `capacity`
    /// samples: exactly the most recent ones, in their original order.
    pub fn trim_to(&mut self, capacity: usize)
        requires
            old(self).wf(),
        ensures
            final(self).wf(),
            final(self)@.len() <= capacity || final(self)@ == old(self)@,
            old(self)@.len() <= capacity ==> final(self)@ == old(self)@,
            old(self)@.len() > capacity ==> final(self)@ == old(self)@.skip(
                old(self)@.len() - capacity,
            ),
    {
        let n: usize = self.samples.len();
        if n > capacity {
            self.drop_front(n - capacity);
        }
    }
}

} // verus!
