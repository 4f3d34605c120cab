use vstd::prelude::*;

use crate::timing::{frame_count, frame_offset};

verus! {

/// The animated abscissa sampled for pixel column `x`: the column scrolled
/// by one unit per elapsed frame interval.
pub open spec fn shifted_column(x: nat, elapsed_ms: nat) -> nat {
    x + frame_count(elapsed_ms)
}

/// The shifted abscissae of one frame: one sample per pixel column.
pub open spec fn frame_samples(width: nat, elapsed_ms: nat) -> Seq<nat> {
    Seq::new(width, |x: int| shifted_column(x as nat, elapsed_ms))
}

/// Samples one frame of the waveform: for each pixel column `x` in
/// `0..width`, the shifted abscissa `x + elapsed_ms / 20`. Vertex `x` of
/// the drawn path evaluates the wave at that abscissa divided by `width`.
pub fn sample_columns(width: usize, elapsed_ms: u64) -> (r: Vec<u128>)
    ensures
        r@.len() == width,
        forall|x: int| 0 <= x < width ==> r@[x] as nat == frame_samples(width as nat, elapsed_ms as nat)[x],
{
    let offset = frame_offset(elapsed_ms);
    let mut r: Vec<u128> = Vec::new();
    let mut x: usize = 0;
    while x < width
        invariant
            x <= width,
            offset as nat == frame_count(elapsed_ms as nat),
            r@.len() == x,
            forall|i: int| 0 <= i < x ==> r@[i] as nat == shifted_column(i as nat, elapsed_ms as nat),
        decreases width - x,
    {
        r.push(x as u128 + offset as u128);
        x = x + 1;
    }
    r
}

/// Sampling is a function of the width and the elapsed time alone: two
/// frames sampled from the same inputs hold the same samples.
pub proof fn lemma_sampling_repeatable(width: nat, elapsed_ms: nat, a: Seq<u128>, b: Seq<u128>)
    requires
        a.len() == width,
        b.len() == width,
        forall|x: int| 0 <= x < width ==> a[x] as nat == frame_samples(width, elapsed_ms)[x],
        forall|x: int| 0 <= x < width ==> b[x] as nat == frame_samples(width, elapsed_ms)[x],
    ensures
        a == b,
{
    assert forall|x: int| 0 <= x < width implies a[x] == b[x] by {
        assert(a[x] as nat == b[x] as nat);
    }
    assert(a =~= b);
}

/// An empty canvas yields no samples at all.
pub proof fn lemma_empty_canvas(elapsed_ms: nat)
    ensures
        frame_samples(0, elapsed_ms).len() == 0,
{
}

} // verus!
