//! The channel strip's sample-type-independent steps: which denoiser runs,
//! the muted output, and the interleaving of the two panned halves.
use vstd::prelude::*;

verus! {

/// Which denoising stage a channel applies to a frame.
#[derive(Debug, Clone, Copy, PartialEq, Eq, Structural)]
pub enum DenoiserChoice {
    /// The multi-tier pipeline.
    Pipeline,
    /// The single-tier suppressor.
    Legacy,
    /// No denoising.
    Skip,
}

pub open spec fn denoiser_choice(pipeline_present: bool, pipeline_enabled: bool, legacy_enabled: bool) -> DenoiserChoice {
    if pipeline_present {
        if pipeline_enabled { DenoiserChoice::Pipeline } else { DenoiserChoice::Skip }
    } else if legacy_enabled {
        DenoiserChoice::Legacy
    } else {
        DenoiserChoice::Skip
    }
}

/// The pipeline takes priority whenever it is present, and then runs only if
/// enabled; without it the single-tier suppressor runs if enabled.
pub fn select_denoiser(pipeline_present: bool, pipeline_enabled: bool, legacy_enabled: bool) -> (r: DenoiserChoice)
    ensures
        r == denoiser_choice(pipeline_present, pipeline_enabled, legacy_enabled),
{
    if pipeline_present {
        if pipeline_enabled {
            DenoiserChoice::Pipeline
        } else {
            DenoiserChoice::Skip
        }
    } else if legacy_enabled {
        DenoiserChoice::Legacy
    } else {
        DenoiserChoice::Skip
    }
}

/// What a muted channel emits for a mono frame of `frame_len` samples:
/// `silence` for each of the `2 * frame_len` stereo samples, and `silence`
/// as both peak and RMS level.
pub fn muted_output<T: Copy>(frame_len: usize, silence: T) -> (r: (Vec<T>, [T; 2]))
    requires
        frame_len <= usize::MAX / 2,
    ensures
        r.0@ == Seq::new(2 * frame_len as nat, |i: int| silence),
        r.1@ == seq![silence, silence],
{
    let n = 2 * frame_len;
    let mut out: Vec<T> = Vec::new();
    let mut i: usize = 0;
    while i < n
        invariant
            i <= n,
            out@ == Seq::new(i as nat, |j: int| silence),
        decreases n - i,
    {
        out.push(silence);
        i = i + 1;
        assert(out@ =~= Seq::new(i as nat, |j: int| silence));
    }
    let levels = [silence, silence];
    assert(levels@ =~= seq![silence, silence]);
    (out, levels)
}

/// Left and right channels merged sample by sample: `[l0, r0, l1, r1, ...]`.
pub fn interleave<T: Copy>(left: &[T], right: &[T]) -> (r: Vec<T>)
    requires
        left@.len() == right@.len(),
        left@.len() <= usize::MAX / 2,
    ensures
        r@.len() == 2 * left@.len(),
        forall|i: int| 0 <= i < left@.len() ==> #[trigger] r@[2 * i] == left@[i] && r@[2 * i + 1] == right@[i],
{
    let mut out: Vec<T> = Vec::new();
    let mut i: usize = 0;
    while i < left.len()
        invariant
            left@.len() == right@.len(),
            i <= left@.len(),
            out@.len() == 2 * i,
            forall|k: int| 0 <= k < i ==> #[trigger] out@[2 * k] == left@[k] && out@[2 * k + 1] == right@[k],
        decreases left@.len() - i,
    {
        let ghost before = out@;
        out.push(left[i]);
        out.push(right[i]);
        assert forall|k: int| 0 <= k < i + 1 implies #[trigger] out@[2 * k] == left@[k] && out@[2 * k + 1]
            == right@[k] by {
            if k < i {
                assert(out@[2 * k] == before[2 * k]);
                assert(out@[2 * k + 1] == before[2 * k + 1]);
            }
        }
        i = i + 1;
    }
    out
}

} // verus!
