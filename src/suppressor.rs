//! The single-tier noise suppressor's frame handling: which spans of a frame
//! go through the model and which pass through untouched.
use vstd::prelude::*;

verus! {

/// The model's native frame size, in samples.
pub const RNNOISE_FRAME_SIZE: usize = 480;

/// A span `[start, start + len)` of a frame; `denoise` is false for the final
/// partial span, which passes through unmodified.
#[derive(Debug, Clone, Copy, PartialEq, Eq, Structural)]
pub struct FrameChunk {
    pub start: usize,
    pub len: usize,
    pub denoise: bool,
}

/// `s` cuts `[0, len)` into consecutive spans of `frame` samples, the last one
/// possibly shorter; exactly the full spans are denoised.
pub open spec fn is_chunking(s: Seq<FrameChunk>, len: nat, frame: nat) -> bool {
    &&& (s.len() == 0 <==> len == 0)
    &&& s.len() > 0 ==> s[0].start == 0 && s.last().start + s.last().len == len
    &&& forall|k: int|
        0 <= k < s.len() - 1 ==> #[trigger] s[k + 1].start == s[k].start + s[k].len && s[k].len == frame
    &&& forall|k: int|
        0 <= k < s.len() ==> 0 < #[trigger] s[k].len <= frame && s[k].denoise == (s[k].len == frame)
}

/// Cuts a frame of `len` samples into spans of `frame` samples.
pub fn chunk_plan(len: usize, frame: usize) -> (r: Vec<FrameChunk>)
    requires
        frame > 0,
    ensures
        is_chunking(r@, len as nat, frame as nat),
        r@.len() == (len + frame - 1) / (frame as int),
        forall|k: int| 0 <= k < r@.len() ==> #[trigger] r@[k].start == k * frame,
{
    let mut out: Vec<FrameChunk> = Vec::new();
    let mut start: usize = 0;
    while start < len
        invariant
            frame > 0,
            start <= len,
            out@.len() == 0 ==> start == 0,
            out@.len() > 0 ==> out@[0].start == 0 && out@.last().start + out@.last().len == start,
            forall|k: int|
                0 <= k < out@.len() - 1 ==> #[trigger] out@[k + 1].start == out@[k].start + out@[k].len,
            forall|k: int|
                0 <= k < out@.len() ==> 0 < #[trigger] out@[k].len <= frame && out@[k].denoise == (
                out@[k].len == frame),
            forall|k: int|
                0 <= k < out@.len() ==> #[trigger] out@[k].len == frame || (k == out@.len() - 1
                    && start == len),
            forall|k: int| 0 <= k < out@.len() ==> #[trigger] out@[k].start == k * frame,
            start == len || start == out@.len() * frame,
            out@.len() > 0 ==> (out@.len() - 1) * frame < start,
            start <= out@.len() * frame,
        decreases len - start,
    {
        let rest = len - start;
        let n = if rest < frame { rest } else { frame };
        let ghost count = out@.len();
        out.push(FrameChunk { start, len: n, denoise: n == frame });
        start = start + n;
        assert((count + 1) * frame == count * frame + frame) by (nonlinear_arith);
    }
    let ghost count = out@.len() as int;
    assert((len + frame - 1) / (frame as int) == count) by (nonlinear_arith)
        requires
            count > 0 ==> (count - 1) * frame < len,
            len <= count * frame,
            count == 0 ==> len == 0,
            frame > 0;
    assert forall|k: int| 0 <= k < out@.len() - 1 implies #[trigger] out@[k + 1].start == out@[k].start
        + out@[k].len && out@[k].len == frame by {
        assert(out@[k].len == frame || (k == out@.len() - 1 && start == len));
    }
    out
}

/// The single-tier suppressor's switch. While disabled it denoises nothing.
pub struct Rnnoise {
    enabled: bool,
}

impl Rnnoise {
    pub closed spec fn spec_enabled(&self) -> bool {
        self.enabled
    }

    pub fn new() -> (r: Self)
        ensures
            !r.spec_enabled(),
    {
        Rnnoise { enabled: false }
    }

    pub fn enable(&mut self)
        ensures
            final(self).spec_enabled(),
    {
        self.enabled = true;
    }

    pub fn disable(&mut self)
        ensures
            !final(self).spec_enabled(),
    {
        self.enabled = false;
    }

    pub fn is_enabled(&self) -> (r: bool)
        ensures
            r == self.spec_enabled(),
    {
        self.enabled
    }

    /// The spans of a frame of `len` samples: none while disabled (the frame
    /// passes through whole), else native-size spans with a final partial
    /// span left as it is.
    pub fn chunk_plan(&self, len: usize) -> (r: Vec<FrameChunk>)
        ensures
            !self.spec_enabled() ==> r@.len() == 0,
            self.spec_enabled() ==> is_chunking(r@, len as nat, RNNOISE_FRAME_SIZE as nat),
    {
        if !self.enabled {
            return Vec::new();
        }
        chunk_plan(len, RNNOISE_FRAME_SIZE)
    }
}

} // verus!
