use vstd::prelude::*;
use crate::sample::Sample;
use crate::seek::{SeekError, SeekFrom};
use crate::stream::Stream;

verus! {

/// Ends a stream at the first sample that lies below a threshold.
///
/// Samples pass unchanged until one is below `min_cutoff`. That sample does
/// not pass, and from then on the filter is `terminated`: it yields nothing
/// and pulls nothing, whatever the stream would yield.
pub struct MinCutoff<G: Stream> {
    pub generator: G,
    pub min_cutoff: G::Value,
    pub terminated: bool,
}

impl<G: Stream> MinCutoff<G> {
    /// An open filter over `generator`.
    pub fn new(generator: G, min_cutoff: G::Value) -> (r: Self)
        ensures
            r.generator == generator,
            r.min_cutoff == min_cutoff,
            !r.terminated,
    {
        MinCutoff { generator, min_cutoff, terminated: false }
    }

    /// What becomes of a sample of the stream, given whether it is `below`
    /// the threshold: the state of the filter afterwards, and whether the
    /// sample passes.
    pub open spec fn verdict(terminated: bool, below: bool) -> (bool, bool) {
        (terminated || below, !terminated && !below)
    }

    /// Whether the filter is terminated after the samples of which `below`
    /// says, one by one, whether they are below the threshold.
    pub open spec fn terminated_after(terminated: bool, below: Seq<bool>) -> bool
        decreases below.len(),
    {
        if below.len() == 0 {
            terminated
        } else {
            Self::verdict(Self::terminated_after(terminated, below.drop_last()), below.last()).0
        }
    }

    /// Whether the sample at place `i` passes a filter that was open before
    /// the first of the samples.
    pub open spec fn passes(below: Seq<bool>, i: int) -> bool
        recommends
            0 <= i < below.len(),
    {
        Self::verdict(Self::terminated_after(false, below.take(i)), below[i]).1
    }

    /// Takes one sample of the stream with the verdict on it: the sample
    /// passes where the filter is open and the sample is not below the
    /// threshold; the filter is terminated from the first sample that is.
    pub fn judge(&mut self, sample: Sample<G::Value>, below: bool) -> (out: Option<
        Sample<G::Value>,
    >)
        ensures
            final(self).generator == old(self).generator,
            final(self).min_cutoff == old(self).min_cutoff,
            final(self).terminated == Self::verdict(old(self).terminated, below).0,
            out == if Self::verdict(old(self).terminated, below).1 {
                Some(sample)
            } else {
                None
            },
    {
        if self.terminated || below {
            self.terminated = true;
            None
        } else {
            Some(sample)
        }
    }

    /// A filter that is open stays open exactly as long as no sample is
    /// below the threshold.
    pub proof fn lemma_open_while_above(below: Seq<bool>)
        ensures
            !Self::terminated_after(false, below) <==> forall|i: int|
                0 <= i < below.len() ==> !below[i],
        decreases below.len(),
    {
        if below.len() > 0 {
            Self::lemma_open_while_above(below.drop_last());
            let shorter = below.drop_last();
            if !Self::terminated_after(false, below) {
                assert forall|i: int| 0 <= i < below.len() implies !below[i] by {
                    if i < shorter.len() {
                        assert(shorter[i] == below[i]);
                    }
                }
            }
        }
    }

    /// A stream whose samples stay at or above the threshold for `k` steps
    /// and cross it at step `k` leaves the filter as exactly its first `k`
    /// samples: those pass, and nothing passes from step `k` on, whatever
    /// follows.
    pub proof fn lemma_yields_until_crossing(below: Seq<bool>, k: int)
        requires
            0 <= k < below.len(),
            forall|i: int| 0 <= i < k ==> !below[i],
            below[k],
        ensures
            forall|i: int| 0 <= i < k ==> Self::passes(below, i),
            forall|i: int| k <= i < below.len() ==> !Self::passes(below, i),
    {
        assert forall|i: int| 0 <= i < k implies Self::passes(below, i) by {
            Self::lemma_open_while_above(below.take(i));
        }
        assert forall|i: int| k <= i < below.len() implies !Self::passes(below, i) by {
            Self::lemma_open_while_above(below.take(i));
            if i > k {
                assert(below.take(i)[k] == below[k]);
            }
        }
    }
}

impl<G> Stream for MinCutoff<G> where G: Stream, G::Value: PartialOrd + Copy {
    type Value = G::Value;

    open spec fn ready(&self) -> bool {
        self.generator.ready()
    }

    /// A terminated filter stays as it is and yields nothing. An open one
    /// pulls the stream once, and compares what it yields with the
    /// threshold by the order of the payloads.
    open spec fn pulls(pre: Self, post: Self, out: Option<Sample<G::Value>>) -> bool {
        if pre.terminated {
            &&& post == pre
            &&& out is None
        } else {
            &&& post.min_cutoff == pre.min_cutoff
            &&& exists|dry: Option<Sample<G::Value>>| #[trigger]
                G::pulls(pre.generator, post.generator, dry) && match dry {
                    None => !post.terminated && out is None,
                    Some(s) => exists|below: bool| #[trigger]
                        call_ensures(G::Value::lt, (&s.data, &pre.min_cutoff), below) && {
                            &&& post.terminated == Self::verdict(pre.terminated, below).0
                            &&& out == if Self::verdict(pre.terminated, below).1 {
                                Some(s)
                            } else {
                                None
                            }
                        },
                }
        }
    }

    /// Only the stream is moved: a terminated filter stays terminated.
    open spec fn seeks(pre: Self, pos: SeekFrom, post: Self, reached: u64) -> bool {
        &&& post.min_cutoff == pre.min_cutoff
        &&& post.terminated == pre.terminated
        &&& G::seeks(pre.generator, pos, post.generator, reached)
    }

    open spec fn copies(pre: Self, copy: Self) -> bool {
        &&& copy.min_cutoff == pre.min_cutoff
        &&& copy.terminated == pre.terminated
        &&& G::copies(pre.generator, copy.generator)
    }

    fn next(&mut self) -> (out: Option<Sample<G::Value>>) {
        if self.terminated {
            return None;
        }
        let dry = self.generator.next();
        assert(G::pulls(old(self).generator, self.generator, dry));
        match dry {
            None => None,
            Some(s) => {
                let below = s.data.lt(&self.min_cutoff);
                let out = self.judge(s, below);
                out
            },
        }
    }

    fn seek(&mut self, pos: SeekFrom) -> (r: Result<u64, SeekError>) {
        self.generator.seek(pos)
    }

    fn duplicate(&self) -> (copy: Self) {
        MinCutoff {
            generator: self.generator.duplicate(),
            min_cutoff: self.min_cutoff,
            terminated: self.terminated,
        }
    }
}

impl<G> MinCutoff<G> where G: Stream, G::Value: PartialOrd + Copy {
    /// The filter does not open again: from the pull at which it is
    /// terminated on, no pull yields a sample, and none changes the filter
    /// or the stream it owns.
    pub proof fn lemma_terminated_for_good(
        states: Seq<Self>,
        outs: Seq<Option<Sample<G::Value>>>,
        from: int,
        at: int,
    )
        requires
            crate::stream::runs::<Self>(states, outs),
            0 <= from <= at < outs.len(),
            states[from].terminated,
        ensures
            outs[at] is None,
            states[at + 1] == states[from],
        decreases at - from,
    {
        if from < at {
            Self::lemma_terminated_for_good(states, outs, from, at - 1);
        }
    }

    /// Where the phases of the stream never decrease from one pull to the
    /// next, those of the filter never do.
    pub proof fn lemma_steady()
        requires
            crate::stream::steady::<G>(),
        ensures
            crate::stream::steady::<Self>(),
    {
    }

    /// Where the stream yields the phase `p + 1` right after a move to `p`,
    /// the filter does.
    pub proof fn lemma_resumes_after()
        requires
            crate::stream::resumes_after::<G>(),
        ensures
            crate::stream::resumes_after::<Self>(),
    {
    }

    /// Where the stream yields nothing for good once it has yielded nothing,
    /// the filter does.
    pub proof fn lemma_ends_for_good()
        requires
            crate::stream::ends_for_good::<G>(),
        ensures
            crate::stream::ends_for_good::<Self>(),
    {
    }
}

} // verus!
