use vstd::prelude::*;
use crate::queue::{capacity_fits, SampleQueue};

verus! {

/// The bit pattern of a silent sample (positive zero).
pub const SILENCE: u32 = 0;

/// `n` silent samples.
pub open spec fn silence(n: nat) -> Seq<u32> {
    Seq::new(n, |_i: int| SILENCE)
}

/// Whole frames in `latency_ms` milliseconds at `sample_rate` frames per
/// second; a partial frame is dropped.
pub open spec fn latency_frames_spec(latency_ms: nat, sample_rate: nat) -> nat {
    latency_ms * sample_rate / 1000
}

/// Interleaved samples in the delay: one per channel for each frame.
pub open spec fn latency_samples_spec(latency_ms: nat, sample_rate: nat, channels: nat) -> nat {
    latency_frames_spec(latency_ms, sample_rate) * channels
}

/// Why no queue can be sized for a latency target.
#[derive(Debug, Clone, Copy, PartialEq, Eq, Structural)]
pub enum SizingError {
    /// The target rounds down to no sample at all.
    NoLatency,
    /// A queue of twice the delay would be too large to allocate.
    TooLarge,
}

/// Whether a delay of `latency_samples` can be held by a queue of twice its size.
pub open spec fn delay_fits(latency_samples: nat) -> bool {
    0 < latency_samples && capacity_fits(2 * latency_samples)
}

/// The number of interleaved samples in a delay of `latency_ms`, or `None`
/// when that number does not fit in a `usize`.
pub fn latency_samples(latency_ms: u32, sample_rate: u32, channels: u16) -> (r: Option<usize>)
    ensures
        r matches Some(n) ==> n == latency_samples_spec(latency_ms as nat, sample_rate as nat, channels as nat),
        r is None <==> latency_samples_spec(latency_ms as nat, sample_rate as nat, channels as nat) > usize::MAX,
{
    let ms = latency_ms as u64;
    let rate = sample_rate as u64;
    proof {
        assert(ms * rate <= 0xffff_ffff * 0xffff_ffff) by (nonlinear_arith)
            requires ms <= 0xffff_ffff, rate <= 0xffff_ffff;
    }
    let frames: u64 = ms * rate / 1000;
    match frames.checked_mul(channels as u64) {
        Some(n) => {
            if n > usize::MAX as u64 {
                None
            } else {
                Some(n as usize)
            }
        },
        None => None,
    }
}

/// A queue with room for twice the delay of `latency_ms`, already holding
/// the delay's worth of silence, so that playback starts that far behind
/// capture and either side has the delay as headroom.
pub fn prefilled_queue(latency_ms: u32, sample_rate: u32, channels: u16) -> (r: Result<SampleQueue, SizingError>)
    ensures
        r is Ok <==> delay_fits(latency_samples_spec(latency_ms as nat, sample_rate as nat, channels as nat)),
        r matches Ok(q) ==> q.wf()
            && q@.capacity == 2 * latency_samples_spec(latency_ms as nat, sample_rate as nat, channels as nat)
            && q@.contents == silence(latency_samples_spec(latency_ms as nat, sample_rate as nat, channels as nat)),
        r matches Err(e) ==> (e == SizingError::NoLatency
            <==> latency_samples_spec(latency_ms as nat, sample_rate as nat, channels as nat) == 0),
{
    let ls = match latency_samples(latency_ms, sample_rate, channels) {
        Some(n) => n,
        None => {
            return Err(SizingError::TooLarge);
        },
    };
    if ls == 0 {
        return Err(SizingError::NoLatency);
    }
    if ls > (isize::MAX as usize) / 8 {
        return Err(SizingError::TooLarge);
    }
    let mut q = SampleQueue::new(2 * ls);
    let mut i: usize = 0;
    while i < ls
        invariant
            i <= ls,
            q.wf(),
            q@.capacity == 2 * ls,
            q@.contents == silence(i as nat),
        decreases ls - i,
    {
        let stored = q.try_push(SILENCE);
        assert(stored);
        assert(q@.contents =~= silence(i as nat + 1));
        i += 1;
    }
    Ok(q)
}

} // verus!
