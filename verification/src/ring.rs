//! The shared playback ring buffer.
//!
//! A fixed-capacity FIFO sample queue bridging the per-track relay
//! producers and the hardware output callback. Its critical invariant:
//! the length never exceeds the fixed cap, and overflow discards the
//! oldest samples first. On underrun the consumer gets silence rather
//! than blocking or repeating stale audio.

use std::collections::VecDeque;
use vstd::prelude::*;

verus! {

/// Fixed cap of the playback ring buffer: about two seconds of audio at
/// the 48 kHz mono rate negotiated with the transport.
pub const PLAYBACK_BUFFER_CAP: usize = 192000;

/// The newest `cap` samples of `s`: what a bounded buffer holds after
/// overflow discards the oldest samples.
pub open spec fn keep_newest(s: Seq<i16>, cap: nat) -> Seq<i16> {
    if s.len() <= cap {
        s
    } else {
        s.subrange(s.len() - cap, s.len() as int)
    }
}

/// Bounded FIFO queue of decoded samples. Producers (one per remote audio
/// track) push batches; the sole consumer (the hardware output callback)
/// pops one sample per output slot.
pub struct RingBuffer {
    buf: VecDeque<i16>,
    cap: usize,
}

impl View for RingBuffer {
    type V = Seq<i16>;

    closed spec fn view(&self) -> Seq<i16> {
        self.buf@
    }
}

impl RingBuffer {
    /// The fixed capacity the buffer was created with.
    pub closed spec fn spec_cap(&self) -> nat {
        self.cap as nat
    }

    /// The buffer never holds more than its cap.
    pub open spec fn wf(&self) -> bool {
        self@.len() <= self.spec_cap()
    }

    /// An empty buffer with the given fixed cap.
    pub fn new(cap: usize) -> (r: Self)
        ensures
            r@ == Seq::<i16>::empty(),
            r.spec_cap() == cap,
            r.wf(),
    {
        RingBuffer { buf: VecDeque::with_capacity(cap), cap }
    }

    /// Push a batch of samples, then evict from the front until the buffer
    /// is back under its cap: the oldest samples are discarded first, and
    /// what remains is exactly the newest `cap` samples of everything the
    /// buffer has seen.
    pub fn push_samples(&mut self, samples: &[i16])
        requires
            old(self).wf(),
        ensures
            final(self).wf(),
            final(self).spec_cap() == old(self).spec_cap(),
            final(self)@ == keep_newest(old(self)@ + samples@, old(self).spec_cap()),
    {
        let ghost appended: Seq<i16> = old(self)@ + samples@;
        proof {
            assert(self.buf@ =~= old(self)@ + samples@.subrange(0, 0));
        }
        let mut i: usize = 0;
        while i < samples.len()
            invariant
                i <= samples@.len(),
                self.cap == old(self).cap,
                self.buf@ == old(self)@ + samples@.subrange(0, i as int),
            decreases samples@.len() - i,
        {
            self.buf.push_back(samples[i]);
            i = i + 1;
            proof {
                assert(self.buf@ =~= old(self)@ + samples@.subrange(0, i as int));
            }
        }
        proof {
            assert(self.buf@ =~= appended);
        }
        while self.buf.len() > self.cap
            invariant
                self.cap == old(self).cap,
                keep_newest(self.buf@, old(self).spec_cap()) == keep_newest(appended, old(self).spec_cap()),
            decreases self.buf@.len(),
        {
            let ghost pre = self.buf@;
            let _ = self.buf.pop_front();
            proof {
                assert(self.buf@ =~= pre.subrange(1, pre.len() as int));
                assert(keep_newest(self.buf@, old(self).spec_cap())
                    =~= keep_newest(pre, old(self).spec_cap()));
            }
        }
    }

    /// How many samples are queued.
    pub fn len(&self) -> (n: usize)
        ensures
            n == self@.len(),
    {
        self.buf.len()
    }

    /// The fixed cap the buffer was created with.
    pub fn capacity(&self) -> (c: usize)
        ensures
            c == self.spec_cap(),
    {
        self.cap
    }

    /// Pop the oldest sample, or report that the buffer is empty.
    pub fn pop(&mut self) -> (s: Option<i16>)
        requires
            old(self).wf(),
        ensures
            final(self).wf(),
            final(self).spec_cap() == old(self).spec_cap(),
            (match s {
                Some(x) => {
                    &&& old(self)@.len() > 0
                    &&& x == old(self)@[0]
                    &&& final(self)@ == old(self)@.subrange(1, old(self)@.len() as int)
                },
                None => {
                    &&& old(self)@.len() == 0
                    &&& final(self)@ == old(self)@
                },
            }),
    {
        self.buf.pop_front()
    }

    /// One output slot of the hardware callback: the oldest queued sample,
    /// or zero on underrun — silence, never a blocked or repeated sample.
    pub fn pop_or_silence(&mut self) -> (s: i16)
        requires
            old(self).wf(),
        ensures
            final(self).wf(),
            final(self).spec_cap() == old(self).spec_cap(),
            old(self)@.len() > 0 ==> s == old(self)@[0]
                && final(self)@ == old(self)@.subrange(1, old(self)@.len() as int),
            old(self)@.len() == 0 ==> s == 0 && final(self)@ == old(self)@,
    {
        match self.pop() {
            Some(x) => x,
            None => 0,
        }
    }
}

/// Everything pushed over a whole sequence of batches, in order.
pub open spec fn pushed_samples(pushes: Seq<Seq<i16>>) -> Seq<i16>
    decreases pushes.len(),
{
    if pushes.len() == 0 {
        Seq::empty()
    } else {
        pushed_samples(pushes.drop_last()) + pushes.last()
    }
}

/// Contents of an initially empty bounded buffer after a whole sequence of
/// batch pushes.
pub open spec fn ring_after(pushes: Seq<Seq<i16>>, cap: nat) -> Seq<i16>
    decreases pushes.len(),
{
    if pushes.len() == 0 {
        Seq::empty()
    } else {
        keep_newest(ring_after(pushes.drop_last(), cap) + pushes.last(), cap)
    }
}

/// Keeping the newest `cap` samples never yields more than `cap` samples.
pub proof fn lemma_keep_newest_bound(s: Seq<i16>, cap: nat)
    ensures
        keep_newest(s, cap).len() <= cap,
        s.len() <= cap ==> keep_newest(s, cap) == s,
{
}

/// Evicting early loses nothing: keeping the newest `cap` of a prefix and
/// then appending more gives the same result as keeping the newest `cap`
/// of the whole.
pub proof fn lemma_keep_newest_compose(s: Seq<i16>, t: Seq<i16>, cap: nat)
    ensures
        keep_newest(keep_newest(s, cap) + t, cap) == keep_newest(s + t, cap),
{
    assert(keep_newest(keep_newest(s, cap) + t, cap) =~= keep_newest(s + t, cap));
}

/// Law: for all sequences of pushes into the ring buffer, the buffer
/// length never exceeds the fixed cap.
pub proof fn lemma_cap_never_exceeded(pushes: Seq<Seq<i16>>, cap: nat)
    ensures
        ring_after(pushes, cap).len() <= cap,
    decreases pushes.len(),
{
    if pushes.len() > 0 {
        lemma_cap_never_exceeded(pushes.drop_last(), cap);
        lemma_keep_newest_bound(ring_after(pushes.drop_last(), cap) + pushes.last(), cap);
    }
}

/// Law: pushes beyond the cap discard the oldest samples first. After any
/// sequence of pushes the buffer holds exactly the newest `cap` samples of
/// everything pushed, in arrival order.
pub proof fn lemma_fifo_eviction(pushes: Seq<Seq<i16>>, cap: nat)
    ensures
        ring_after(pushes, cap) == keep_newest(pushed_samples(pushes), cap),
    decreases pushes.len(),
{
    if pushes.len() == 0 {
    } else {
        lemma_fifo_eviction(pushes.drop_last(), cap);
        lemma_keep_newest_compose(pushed_samples(pushes.drop_last()), pushes.last(), cap);
    }
}

} // verus!
