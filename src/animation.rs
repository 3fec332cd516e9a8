use vstd::prelude::*;

verus! {

/// The frame that follows `index` on a sheet of `frame_count` frames, looping
/// back to the first frame after the last.
pub fn next_frame(index: usize, frame_count: usize) -> (r: usize)
    requires
        frame_count > 0,
    ensures
        r == (index + 1) % (frame_count as int),
        r < frame_count,
{
    let current: usize = index % frame_count;
    proof {
        vstd::arithmetic::div_mod::lemma_add_mod_noop_right(1, index as int, frame_count as int);
    }
    if current + 1 == frame_count {
        proof {
            vstd::arithmetic::div_mod::lemma_mod_self_0(frame_count as int);
        }
        0
    } else {
        proof {
            vstd::arithmetic::div_mod::lemma_small_mod((current + 1) as nat, frame_count as nat);
        }
        current + 1
    }
}

} // verus!
