//! The playback stage: drains the front of the ring into fixed-size output
//! blocks, or emits a block of silence on underrun.

use vstd::prelude::*;

use crate::fixed::{div_scale, div_trunc, HEADROOM, SCALE};
use crate::ring::AudioRing;

verus! {

/// The fixed output gain (0.9) applied to every played sample.
pub const OUTPUT_GAIN: i64 = 900_000;

/// What one buffered sample sounds like at the output.
pub open spec fn played_spec(v: int) -> int {
    div_trunc(v * OUTPUT_GAIN, SCALE as int)
}

/// Fills one output block of exactly `frame_count` samples.  When the ring
/// holds enough, the block is its front, each sample scaled by the output
/// gain, and those samples leave the ring; otherwise the whole block is
/// silence and the ring is untouched — an underrun is degraded output, not
/// an error.
pub fn render_block(ring: &mut AudioRing, frame_count: usize) -> (out: Vec<i64>)
    requires
        old(ring).wf(),
    ensures
        final(ring).wf(),
        out@.len() == frame_count,
        old(ring)@.len() >= frame_count ==> final(ring)@ == old(ring)@.skip(frame_count as int),
        old(ring)@.len() >= frame_count ==> forall|i: int|
            0 <= i < frame_count ==> out@[i] == played_spec(#[trigger] old(ring)@[i] as int),
        old(ring)@.len() < frame_count ==> final(ring)@ == old(ring)@,
        old(ring)@.len() < frame_count ==> forall|i: int|
            0 <= i < frame_count ==> #[trigger] out@[i] == 0,
{
    let mut out: Vec<i64> = Vec::new();
    let available: usize = ring.len();
    if available >= frame_count {
        let mut i: usize = 0;
        while i < frame_count
            invariant
                0 <= i <= frame_count,
                frame_count <= ring@.len(),
                ring.wf(),
                ring@ == old(ring)@,
                out@.len() == i,
                forall|j: int|
                    0 <= j < i ==> out@[j] == played_spec(#[trigger] ring@[j] as int),
            decreases frame_count - i,
        {
            let v: i64 = ring.get(i);
            proof {
                assert(-HEADROOM * OUTPUT_GAIN <= v * OUTPUT_GAIN <= HEADROOM * OUTPUT_GAIN)
                    by (nonlinear_arith)
                    requires
                        -HEADROOM <= v <= HEADROOM,
                        OUTPUT_GAIN == 900_000,
                        HEADROOM == 64_000_000,
                ;
            }
            out.push(div_scale(v * OUTPUT_GAIN));
            i = i + 1;
        }
        ring.drop_front(frame_count);
    } else {
        let mut i: usize = 0;
        while i < frame_count
            invariant
                0 <= i <= frame_count,
                ring@ == old(ring)@,
                ring.wf(),
                out@.len() == i,
                forall|j: int| 0 <= j < i ==> #[trigger] out@[j] == 0,
            decreases frame_count - i,
        {
            out.push(0);
            i = i + 1;
        }
    }
    out
}

} // verus!
