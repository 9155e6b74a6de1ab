use vstd::prelude::*;
use crate::latency::{silence, SILENCE};
use crate::queue::{QueueView, SampleQueue};

verus! {

/// How many of the first samples of a block fit in the queue.
pub open spec fn accepted_len(q: QueueView, n: nat) -> nat {
    if n <= q.free() { n } else { q.free() }
}

/// The queue after a capture block: the samples that fit are appended in
/// order, the rest are dropped.
pub open spec fn after_capture(q: QueueView, data: Seq<u32>) -> QueueView {
    QueueView {
        contents: q.contents + data.take(accepted_len(q, data.len()) as int),
        capacity: q.capacity,
    }
}

/// Whether a capture block loses samples: it brings more than there is room for.
pub open spec fn overruns(q: QueueView, data: Seq<u32>) -> bool {
    data.len() > q.free()
}

/// How many queued samples a playback block of `n` slots takes.
pub open spec fn drained_len(q: QueueView, n: nat) -> nat {
    if n <= q.contents.len() { n } else { q.contents.len() }
}

/// The block written by playback of `n` slots: queued samples in order,
/// then silence for each slot the queue could not fill.
pub open spec fn played(q: QueueView, n: nat) -> Seq<u32> {
    Seq::new(n, |j: int| if j < q.contents.len() { q.contents[j] } else { SILENCE })
}

/// The queue after playback of `n` slots.
pub open spec fn after_playback(q: QueueView, n: nat) -> QueueView {
    QueueView {
        contents: q.contents.skip(drained_len(q, n) as int),
        capacity: q.capacity,
    }
}

/// Whether a playback block of `n` slots runs short of samples.
pub open spec fn underruns(q: QueueView, n: nat) -> bool {
    n > q.contents.len()
}

/// The producer side: pushes every sample of a captured block, dropping
/// those that find the queue full. Returns whether any was dropped, so the
/// caller can report the overrun once for the whole block.
pub fn capture_block(q: &mut SampleQueue, data: &[u32]) -> (overrun: bool)
    requires
        old(q).wf(),
    ensures
        final(q).wf(),
        final(q)@ == after_capture(old(q)@, data@),
        overrun == overruns(old(q)@, data@),
{
    let ghost start = q@;
    proof {
        q.lemma_len_bounded();
    }
    let mut fell_behind = false;
    let mut i: usize = 0;
    while i < data.len()
        invariant
            i <= data@.len(),
            q.wf(),
            start.contents.len() <= start.capacity,
            q@ == after_capture(start, data@.take(i as int)),
            fell_behind == overruns(start, data@.take(i as int)),
        decreases data@.len() - i,
    {
        let stored = q.try_push(data[i]);
        if !stored {
            fell_behind = true;
        }
        proof {
            let prev = data@.take(i as int);
            let next = data@.take(i as int + 1);
            assert(next.len() == prev.len() + 1);
            if i < start.free() {
                assert(next.take(accepted_len(start, next.len()) as int)
                    =~= prev.take(accepted_len(start, prev.len()) as int).push(data@[i as int]));
            } else {
                assert(next.take(accepted_len(start, next.len()) as int)
                    =~= prev.take(accepted_len(start, prev.len()) as int));
            }
            assert(q@.contents =~= after_capture(start, next).contents);
        }
        i += 1;
    }
    assert(data@.take(data@.len() as int) =~= data@);
    fell_behind
}

/// The consumer side: fills every slot of `out` from the queue, writing
/// silence where the queue runs dry. Returns whether that happened, so the
/// caller can report the underrun once for the whole block.
pub fn playback_block(q: &mut SampleQueue, out: &mut Vec<u32>) -> (underrun: bool)
    requires
        old(q).wf(),
    ensures
        final(q).wf(),
        final(q)@ == after_playback(old(q)@, old(out)@.len()),
        final(out)@ == played(old(q)@, old(out)@.len()),
        underrun == underruns(old(q)@, old(out)@.len()),
{
    let ghost start = q@;
    let ghost n = out@.len();
    assert(start.contents.skip(0) =~= start.contents);
    let mut starved = false;
    let mut i: usize = 0;
    while i < out.len()
        invariant
            i <= n,
            out@.len() == n,
            q.wf(),
            q@ == after_playback(start, i as nat),
            forall|j: int| 0 <= j < i ==> out@[j] == #[trigger] played(start, n)[j],
            starved == underruns(start, i as nat),
        decreases n - i,
    {
        let s = match q.try_pop() {
            Some(s) => s,
            None => {
                starved = true;
                SILENCE
            },
        };
        out.set(i, s);
        proof {
            if i < start.contents.len() {
                assert(start.contents.skip(i as int)[0] == start.contents[i as int]);
                assert(start.contents.skip(i as int).drop_first() =~= start.contents.skip(i as int + 1));
            }
            assert(q@ == after_playback(start, i as nat + 1));
        }
        i += 1;
    }
    assert(out@ =~= played(start, n));
    starved
}

/// Rounds of capture and playback at a matched rate: each block is pushed
/// and then the same number of slots is played. Returns the queue at the end
/// and whether any round reported an overrun or an underrun.
pub open spec fn matched_rounds(q: QueueView, blocks: Seq<Seq<u32>>) -> (QueueView, bool)
    decreases blocks.len(),
{
    if blocks.len() == 0 {
        (q, false)
    } else {
        let b = blocks[0];
        let pushed = after_capture(q, b);
        let popped = after_playback(pushed, b.len());
        let flagged = overruns(q, b) || underruns(pushed, b.len());
        let rest = matched_rounds(popped, blocks.drop_first());
        (rest.0, flagged || rest.1)
    }
}

/// When capture and playback advance at the same rate from a queue that
/// holds half its capacity, with blocks no longer than that half, no round
/// ever overruns or underruns and the fill level stays where it started.
pub proof fn lemma_matched_rate_is_steady(q: QueueView, blocks: Seq<Seq<u32>>)
    requires
        q.capacity == 2 * q.contents.len(),
        forall|i: int| 0 <= i < blocks.len() ==> (#[trigger] blocks[i]).len() <= q.contents.len(),
    ensures
        !matched_rounds(q, blocks).1,
        matched_rounds(q, blocks).0.contents.len() == q.contents.len(),
        matched_rounds(q, blocks).0.capacity == q.capacity,
    decreases blocks.len(),
{
    if blocks.len() > 0 {
        let b = blocks[0];
        let pushed = after_capture(q, b);
        let popped = after_playback(pushed, b.len());
        assert(pushed.contents.len() == q.contents.len() + b.len());
        let rest = blocks.drop_first();
        assert forall|i: int| 0 <= i < rest.len() implies (#[trigger] rest[i]).len() <= popped.contents.len() by {
            assert(rest[i] == blocks[i + 1]);
        }
        lemma_matched_rate_is_steady(popped, rest);
    }
}

/// The same balance when playback runs first in a round: a block of at
/// most half the capacity is drained without underrun and refilled without
/// overrun, back to the starting level.
pub proof fn lemma_playback_first_is_steady(q: QueueView, data: Seq<u32>)
    requires
        q.capacity == 2 * q.contents.len(),
        data.len() <= q.contents.len(),
    ensures
        !underruns(q, data.len()),
        !overruns(after_playback(q, data.len()), data),
        after_capture(after_playback(q, data.len()), data).contents.len() == q.contents.len(),
{
    let drained = after_playback(q, data.len());
    assert(drained.contents.len() == q.contents.len() - data.len());
    assert(data.take(data.len() as int) =~= data);
}

/// With capture stalled, a playback block longer than what is queued
/// reports an underrun, plays every queued sample in order, and fills each
/// remaining slot with silence: no slot holds anything else.
pub proof fn lemma_stalled_producer_plays_silence(q: QueueView, n: nat)
    requires
        n > q.contents.len(),
    ensures
        underruns(q, n),
        played(q, n).take(q.contents.len() as int) == q.contents,
        played(q, n).skip(q.contents.len() as int) == silence((n - q.contents.len()) as nat),
        after_playback(q, n).contents.len() == 0,
{
    assert(played(q, n).take(q.contents.len() as int) =~= q.contents);
    assert(played(q, n).skip(q.contents.len() as int) =~= silence((n - q.contents.len()) as nat));
}

/// With playback stalled, a capture block larger than the free room reports
/// an overrun, stores only the samples that fit, and leaves the queue
/// exactly full; no capture block ever takes the queue past its capacity.
pub proof fn lemma_stalled_consumer_drops_excess(q: QueueView, data: Seq<u32>)
    requires
        q.contents.len() <= q.capacity,
    ensures
        after_capture(q, data).contents.len() <= q.capacity,
        after_capture(q, data).capacity == q.capacity,
        data.len() > q.free() ==> overruns(q, data)
            && after_capture(q, data).contents.len() == q.capacity
            && after_capture(q, data).contents == q.contents + data.take(q.free() as int),
{
}

} // verus!
