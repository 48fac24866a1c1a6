//! The shared store of captured audio samples.
//!
//! During `Recording` the capture callback appends one frame at a time; once
//! capture has stopped the orchestrator takes the samples out wholesale. The
//! mutual exclusion that lets the callback and the orchestrator share one
//! buffer is the caller's business; the contracts here say what each single
//! operation does to the contents, and that an append only ever extends them.

use vstd::prelude::*;

verus! {

/// Interleaved signed 16-bit samples in delivery order, plus nothing else:
/// the session metadata (sample rate, channel count) lives in the session
/// record, not here.
pub struct SampleBuffer {
    samples: Vec<i16>,
}

impl View for SampleBuffer {
    type V = Seq<i16>;

    closed spec fn view(&self) -> Seq<i16> {
        self.samples@
    }
}

impl SampleBuffer {
    /// An empty buffer, allocated when a session enters `Recording`.
    pub fn new() -> (b: SampleBuffer)
        ensures
            b@ == Seq::<i16>::empty(),
    {
        SampleBuffer { samples: Vec::new() }
    }

    /// How many samples have been delivered so far.
    pub fn len(&self) -> (n: usize)
        ensures
            n == self@.len(),
    {
        self.samples.len()
    }

    /// Append one frame as delivered by the capture callback. The old
    /// contents are kept in place and the frame goes after them, so the
    /// buffer only ever grows.
    pub fn append_frame(&mut self, frame: &[i16])
        ensures
            final(self)@ == old(self)@ + frame@,
            final(self)@.len() == old(self)@.len() + frame@.len(),
    {
        let mut j: usize = 0;
        while j < frame.len()
            invariant
                j <= frame@.len(),
                self@ == old(self)@ + frame@.subrange(0, j as int),
            decreases frame@.len() - j,
        {
            self.samples.push(frame[j]);
            j = j + 1;
            proof {
                assert(self@ =~= old(self)@ + frame@.subrange(0, j as int));
            }
        }
        proof {
            assert(frame@.subrange(0, frame@.len() as int) =~= frame@);
        }
    }

    /// Hand the contents to the pipeline; the buffer itself is consumed,
    /// matching the rule that no buffer is reused across sessions.
    pub fn into_samples(self) -> (v: Vec<i16>)
        ensures
            v@ == self@,
    {
        self.samples
    }
}

/// The total number of samples in a sequence of delivered frames.
pub open spec fn delivered_total(frames: Seq<Seq<i16>>) -> nat
    decreases frames.len(),
{
    if frames.len() == 0 {
        0
    } else {
        frames[0].len() + delivered_total(frames.drop_first())
    }
}

/// The buffer contents after a run of appends, in delivery order.
pub open spec fn after_appends(buf: Seq<i16>, frames: Seq<Seq<i16>>) -> Seq<i16>
    decreases frames.len(),
{
    if frames.len() == 0 {
        buf
    } else {
        after_appends(buf + frames[0], frames.drop_first())
    }
}

/// Buffer monotonicity: under any sequence of appends the length never
/// decreases, and the final length is the starting length plus the sum of
/// all delivered frame sizes.
pub proof fn lemma_buffer_monotonic(buf: Seq<i16>, frames: Seq<Seq<i16>>)
    ensures
        after_appends(buf, frames).len() == buf.len() + delivered_total(frames),
        after_appends(buf, frames).len() >= buf.len(),
    decreases frames.len(),
{
    if frames.len() > 0 {
        lemma_buffer_monotonic(buf + frames[0], frames.drop_first());
    }
}

} // verus!
