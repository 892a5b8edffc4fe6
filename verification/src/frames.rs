//! Outbound framing for the capture pipeline.
//!
//! On every hardware buffer the feeder applies the mute flag — substituting
//! a zero-filled batch of identical size when muted, so silence is
//! attributable and frame sizing stays deterministic — and wraps the batch
//! into a frame tagged with sample rate and channel count.

use vstd::prelude::*;

verus! {

/// A batch of fixed-point samples tagged with sample rate and channel
/// count: the unit handed to the transport room's outbound audio path.
pub struct AudioFrame {
    pub data: Vec<i16>,
    pub sample_rate: u32,
    pub num_channels: u32,
    pub samples_per_channel: u32,
}

/// Every sample of the batch is zero: silence, not absence.
pub open spec fn is_silence(s: Seq<i16>) -> bool {
    forall|i: int| 0 <= i < s.len() ==> s[i] == 0
}

/// What the feeder must send for a captured batch under a given mute flag:
/// the batch itself when live, a zero batch of identical size when muted.
pub open spec fn outbound_ok(samples: Seq<i16>, muted: bool, out: Seq<i16>) -> bool {
    &&& out.len() == samples.len()
    &&& muted ==> is_silence(out)
    &&& !muted ==> out == samples
}

/// Zero-filled batch of the given size.
fn silence(len: usize) -> (out: Vec<i16>)
    ensures
        out@.len() == len,
        is_silence(out@),
{
    let mut out: Vec<i16> = Vec::new();
    let mut k: usize = 0;
    while k < len
        invariant
            k <= len,
            out@.len() == k,
            is_silence(out@),
        decreases len - k,
    {
        out.push(0i16);
        k = k + 1;
    }
    out
}

/// Apply the mute flag to a captured batch.
pub fn apply_mute(samples: Vec<i16>, muted: bool) -> (out: Vec<i16>)
    ensures
        outbound_ok(samples@, muted, out@),
{
    if muted {
        silence(samples.len())
    } else {
        samples
    }
}

/// Wrap a captured batch into a transport-ready frame, honouring the mute
/// flag. The per-channel sample count is derived from the batch length, so
/// it is the same whether or not the batch was muted.
pub fn build_frame(samples: Vec<i16>, muted: bool, sample_rate: u32, num_channels: u32) -> (f: AudioFrame)
    requires
        samples@.len() <= u32::MAX,
    ensures
        outbound_ok(samples@, muted, f.data@),
        f.sample_rate == sample_rate,
        f.num_channels == num_channels,
        f.samples_per_channel == samples@.len() as u32 / (if num_channels == 0 { 1u32 } else { num_channels }),
{
    let n: u32 = samples.len() as u32;
    let ch: u32 = if num_channels == 0 { 1 } else { num_channels };
    let samples_per_channel: u32 = n / ch;
    let data = apply_mute(samples, muted);
    AudioFrame { data, sample_rate, num_channels, samples_per_channel }
}

/// Law: for any captured batch, the outbound batch produced while muted is
/// entirely zero and exactly as long as the outbound batch produced while
/// unmuted for the same hardware buffer — silence, not absence.
pub proof fn lemma_mute_is_silence_not_absence(
    samples: Seq<i16>,
    muted_out: Seq<i16>,
    unmuted_out: Seq<i16>,
)
    requires
        outbound_ok(samples, true, muted_out),
        outbound_ok(samples, false, unmuted_out),
    ensures
        is_silence(muted_out),
        muted_out.len() == unmuted_out.len(),
{
}

} // verus!
