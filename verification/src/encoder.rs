//! The computational side of the encoder stage.
//!
//! The MP3 encoder itself is an outside library driven by the application;
//! what belongs to this crate is the channel derivation policy, the sizing
//! of the output buffer, and the assembly of the final payload from the
//! encoder's output and its flush tail.

use vstd::prelude::*;
use vstd::arithmetic::div_mod::{lemma_fundamental_div_mod, lemma_mod_bound};

verus! {

/// Room reserved for the encoder's flush tail: the frames it may still hold
/// back when told that no more input follows.
pub const FLUSH_RESERVE: usize = 7200;

/// The left output channel under the channel derivation policy: a mono
/// source is duplicated, an interleaved source of `cc` channels per frame
/// contributes its first channel, one sample per whole frame.
pub open spec fn spec_left_channel(s: Seq<i16>, cc: nat) -> Seq<i16> {
    if cc == 1 {
        s
    } else {
        Seq::new(s.len() / cc, |i: int| s[i * cc])
    }
}

/// The right output channel: the mono source again, or the second channel
/// of each interleaved frame. Channels past the second are discarded — a
/// deliberate policy choice, not a downmix.
pub open spec fn spec_right_channel(s: Seq<i16>, cc: nat) -> Seq<i16> {
    if cc == 1 {
        s
    } else {
        Seq::new(s.len() / cc, |i: int| s[i * cc + 1])
    }
}

/// Split the captured samples into the two channels the encoder takes.
///
/// With `channel_count == 1` both outputs equal the input; with more
/// channels the input is read as interleaved frames of `channel_count`
/// samples and the first two samples of each whole frame become the left
/// and right outputs. A trailing partial frame is dropped with the extra
/// channels.
pub fn derive_channels(samples: &Vec<i16>, channel_count: u16) -> (r: (Vec<i16>, Vec<i16>))
    requires
        channel_count >= 1,
    ensures
        r.0@ == spec_left_channel(samples@, channel_count as nat),
        r.1@ == spec_right_channel(samples@, channel_count as nat),
        r.0@.len() == r.1@.len(),
        channel_count == 1 ==> r.0@ == samples@ && r.1@ == samples@,
        channel_count >= 2 ==> r.0@.len() == samples@.len() / (channel_count as nat),
{
    let n = samples.len();
    let cc = channel_count as usize;
    if channel_count == 1 {
        let mut left: Vec<i16> = Vec::new();
        let mut right: Vec<i16> = Vec::new();
        let mut i: usize = 0;
        while i < n
            invariant
                n == samples@.len(),
                i <= n,
                left@ == samples@.subrange(0, i as int),
                right@ == samples@.subrange(0, i as int),
            decreases n - i,
        {
            left.push(samples[i]);
            right.push(samples[i]);
            i = i + 1;
            proof {
                assert(left@ =~= samples@.subrange(0, i as int));
                assert(right@ =~= samples@.subrange(0, i as int));
            }
        }
        proof {
            assert(samples@.subrange(0, n as int) =~= samples@);
        }
        (left, right)
    } else {
        let frames = n / cc;
        proof {
            lemma_fundamental_div_mod(n as int, cc as int);
            lemma_mod_bound(n as int, cc as int);
        }
        let mut left: Vec<i16> = Vec::with_capacity(frames);
        let mut right: Vec<i16> = Vec::with_capacity(frames);
        let mut i: usize = 0;
        while i < frames
            invariant
                n == samples@.len(),
                cc == channel_count as int,
                cc >= 2,
                frames == n as int / cc as int,
                frames * cc <= n,
                i <= frames,
                left@.len() == i,
                right@.len() == i,
                forall|k: int| 0 <= k < i ==> left@[k] == samples@[k * (cc as int)],
                forall|k: int| 0 <= k < i ==> right@[k] == samples@[k * (cc as int) + 1],
            decreases frames - i,
        {
            proof {
                assert((i as int + 1) * (cc as int) <= frames as int * (cc as int))
                    by (nonlinear_arith)
                    requires
                        i as int + 1 <= frames as int,
                        cc as int >= 2,
                ;
                assert(i as int * (cc as int) + (cc as int) == (i as int + 1) * (cc as int))
                    by (nonlinear_arith);
            }
            let base = i * cc;
            left.push(samples[base]);
            right.push(samples[base + 1]);
            i = i + 1;
        }
        proof {
            assert(left@ =~= spec_left_channel(samples@, channel_count as nat));
            assert(right@ =~= spec_right_channel(samples@, channel_count as nat));
        }
        (left, right)
    }
}

/// The output capacity the encoder is given: the sample count per channel
/// with a quarter again of headroom, rounded up, plus the flush reserve.
pub open spec fn spec_encode_capacity(samples_per_channel: int) -> int {
    samples_per_channel + (samples_per_channel + 3) / 4 + 7200
}

/// Compute that capacity, guarded against overflow by the one machine-limit
/// precondition.
pub fn encode_capacity(samples_per_channel: usize) -> (c: usize)
    requires
        spec_encode_capacity(samples_per_channel as int) <= usize::MAX,
    ensures
        c == spec_encode_capacity(samples_per_channel as int),
{
    let headroom = (samples_per_channel + 3) / 4;
    samples_per_channel + headroom + FLUSH_RESERVE
}

/// Join the encoder's output with its flush tail: the payload is exactly
/// the `produced` bytes of the encode pass followed by the `tail_len` bytes
/// the flush emitted. Without the tail the audio would be truncated.
pub fn assemble_payload(body: Vec<u8>, produced: usize, tail: &[u8], tail_len: usize) -> (out: Vec<u8>)
    requires
        produced <= body@.len(),
        tail_len <= tail@.len(),
    ensures
        out@ == body@.subrange(0, produced as int) + tail@.subrange(0, tail_len as int),
{
    let mut out = body;
    out.truncate(produced);
    let mut j: usize = 0;
    while j < tail_len
        invariant
            tail_len <= tail@.len(),
            j <= tail_len,
            out@ == body@.subrange(0, produced as int) + tail@.subrange(0, j as int),
        decreases tail_len - j,
    {
        out.push(tail[j]);
        j = j + 1;
        proof {
            assert(out@ =~= body@.subrange(0, produced as int) + tail@.subrange(0, j as int));
        }
    }
    out
}

} // verus!
