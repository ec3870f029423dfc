use vstd::prelude::*;
use crate::sample::Sample;
use crate::seek::{SeekError, SeekFrom};
use crate::stream::{Formula, Stream};

verus! {

/// Produces one payload for ever; the phase grows by one with every pull.
pub struct ConstantFrequencyGenerator<T> {
    pub frequency: T,
    pub phase: u64,
}

impl<T: Copy> Clone for ConstantFrequencyGenerator<T> {
    fn clone(&self) -> (copy: Self)
        ensures
            copy == *self,
    {
        ConstantFrequencyGenerator { frequency: self.frequency, phase: self.phase }
    }
}

impl<T: Copy> Copy for ConstantFrequencyGenerator<T> {
}

impl<T: Copy> ConstantFrequencyGenerator<T> {
    /// A generator at its origin: the first sample pulled has phase 1.
    pub fn new(frequency: T) -> (g: Self)
        ensures
            g.frequency == frequency,
            g.phase == 0,
    {
        ConstantFrequencyGenerator { frequency, phase: 0 }
    }
}

impl<T: Copy> Stream for ConstantFrequencyGenerator<T> {
    type Value = T;

    /// The phase advances before the sample is handed out. A generator whose
    /// phase is the largest that `u64` holds has no further sample.
    open spec fn pulls(pre: Self, post: Self, out: Option<Sample<T>>) -> bool {
        if pre.phase < u64::MAX {
            &&& post.frequency == pre.frequency
            &&& post.phase == pre.phase + 1
            &&& out == Some(Sample { data: pre.frequency, phase: post.phase })
        } else {
            &&& post == pre
            &&& out is None
        }
    }

    open spec fn seeks(pre: Self, pos: SeekFrom, post: Self, reached: u64) -> bool {
        &&& pos.target(pre.phase) == Some(reached)
        &&& post.frequency == pre.frequency
        &&& post.phase == reached
    }

    open spec fn copies(pre: Self, copy: Self) -> bool {
        copy == pre
    }

    fn next(&mut self) -> (out: Option<Sample<T>>) {
        if self.phase < u64::MAX {
            self.phase = self.phase + 1;
            Some(Sample { data: self.frequency, phase: self.phase })
        } else {
            None
        }
    }

    fn seek(&mut self, pos: SeekFrom) -> (r: Result<u64, SeekError>) {
        match pos.resolve(self.phase) {
            Ok(p) => {
                self.phase = p;
                Ok(p)
            },
            Err(e) => Err(e),
        }
    }

    fn duplicate(&self) -> (copy: Self) {
        *self
    }
}

impl<T: Copy> ConstantFrequencyGenerator<T> {
    /// The first sample of a generator at its origin has phase 1.
    pub proof fn lemma_first_phase(fresh: Self, post: Self, out: Option<Sample<T>>)
        requires
            fresh.phase == 0,
            Self::pulls(fresh, post, out),
        ensures
            out == Some(Sample { data: fresh.frequency, phase: 1 }),
    {
    }

    /// Each pull yields the phase that follows the one before: the phases of
    /// two pulls in a row never decrease.
    pub proof fn lemma_steady()
        ensures
            crate::stream::steady::<Self>(),
    {
    }

    /// Once the largest phase is reached the generator yields nothing for
    /// good.
    pub proof fn lemma_ends_for_good()
        ensures
            crate::stream::ends_for_good::<Self>(),
    {
    }

    /// In a row of pulls the phases count up from the phase at which the
    /// row began: pull number `i`, counted from 0, yields the phase
    /// `i + 1` above it, as long as `u64` holds that phase.
    pub proof fn lemma_counts_up(states: Seq<Self>, outs: Seq<Option<Sample<T>>>, i: int)
        requires
            crate::stream::runs::<Self>(states, outs),
            0 <= i < outs.len(),
            states[0].phase + i < u64::MAX,
        ensures
            outs[i] == Some(
                Sample { data: states[0].frequency, phase: (states[0].phase + i + 1) as u64 },
            ),
            states[i + 1].frequency == states[0].frequency,
            states[i + 1].phase == states[0].phase + i + 1,
        decreases i,
    {
        if i > 0 {
            Self::lemma_counts_up(states, outs, i - 1);
        }
    }

    /// Moving to the phase `p` and pulling once yields the phase `p + 1`,
    /// for every `p` below the largest phase.
    pub proof fn lemma_seek_then_pull(
        pre: Self,
        p: u64,
        moved: Self,
        reached: u64,
        post: Self,
        out: Option<Sample<T>>,
    )
        requires
            p < u64::MAX,
            Self::seeks(pre, SeekFrom::Start(p), moved, reached),
            Self::pulls(moved, post, out),
        ensures
            reached == p,
            out == Some(Sample { data: pre.frequency, phase: (p + 1) as u64 }),
    {
    }

    /// Whatever is pulled right after a move to `p` has the phase `p + 1`.
    pub proof fn lemma_resumes_after()
        ensures
            crate::stream::resumes_after::<Self>(),
    {
    }
}

/// Produces noise: a value drawn anew for each pull, at a phase that grows
/// by one with every pull. `noise` draws the values. None of them is kept:
/// moving the cursor back brings back the phases, not the values.
pub struct WhiteNoiseGenerator<F> {
    pub noise: F,
    pub phase: u64,
}

impl<F: Copy> Clone for WhiteNoiseGenerator<F> {
    fn clone(&self) -> (copy: Self)
        ensures
            copy == *self,
    {
        WhiteNoiseGenerator { noise: self.noise, phase: self.phase }
    }
}

impl<F: Copy> Copy for WhiteNoiseGenerator<F> {
}

impl<F> WhiteNoiseGenerator<F> {
    /// A generator at its origin: the first sample pulled has phase 1.
    pub fn new(noise: F) -> (g: Self)
        ensures
            g.noise == noise,
            g.phase == 0,
    {
        WhiteNoiseGenerator { noise, phase: 0 }
    }
}

impl<F: Formula<()> + Copy> Stream for WhiteNoiseGenerator<F> {
    type Value = F::Out;

    /// The phase advances before the sample is handed out; the payload of
    /// the sample is what `noise` has drawn. A generator whose phase is the
    /// largest that `u64` holds draws nothing and has no further sample.
    open spec fn pulls(pre: Self, post: Self, out: Option<Sample<F::Out>>) -> bool {
        if pre.phase < u64::MAX {
            &&& post.noise == pre.noise
            &&& post.phase == pre.phase + 1
            &&& out matches Some(s)
            &&& s.phase == post.phase
            &&& call_ensures(F::apply, (&pre.noise, ()), s.data)
        } else {
            &&& post == pre
            &&& out is None
        }
    }

    open spec fn seeks(pre: Self, pos: SeekFrom, post: Self, reached: u64) -> bool {
        &&& pos.target(pre.phase) == Some(reached)
        &&& post.noise == pre.noise
        &&& post.phase == reached
    }

    open spec fn copies(pre: Self, copy: Self) -> bool {
        copy == pre
    }

    fn next(&mut self) -> (out: Option<Sample<F::Out>>) {
        if self.phase < u64::MAX {
            self.phase = self.phase + 1;
            Some(Sample { data: self.noise.apply(()), phase: self.phase })
        } else {
            None
        }
    }

    fn seek(&mut self, pos: SeekFrom) -> (r: Result<u64, SeekError>) {
        match pos.resolve(self.phase) {
            Ok(p) => {
                self.phase = p;
                Ok(p)
            },
            Err(e) => Err(e),
        }
    }

    fn duplicate(&self) -> (copy: Self) {
        *self
    }
}

impl<F: Formula<()> + Copy> WhiteNoiseGenerator<F> {
    /// The first sample of a generator at its origin has phase 1.
    pub proof fn lemma_first_phase(fresh: Self, post: Self, out: Option<Sample<F::Out>>)
        requires
            fresh.phase == 0,
            Self::pulls(fresh, post, out),
        ensures
            out matches Some(s) && s.phase == 1,
    {
    }

    /// Each pull yields the phase that follows the one before: the phases of
    /// two pulls in a row never decrease.
    pub proof fn lemma_steady()
        ensures
            crate::stream::steady::<Self>(),
    {
    }

    /// Once the largest phase is reached the generator yields nothing for
    /// good.
    pub proof fn lemma_ends_for_good()
        ensures
            crate::stream::ends_for_good::<Self>(),
    {
    }

    /// Moving to the phase `p` and pulling once yields the phase `p + 1`,
    /// for every `p` below the largest phase.
    pub proof fn lemma_seek_then_pull(
        pre: Self,
        p: u64,
        moved: Self,
        reached: u64,
        post: Self,
        out: Option<Sample<F::Out>>,
    )
        requires
            p < u64::MAX,
            Self::seeks(pre, SeekFrom::Start(p), moved, reached),
            Self::pulls(moved, post, out),
        ensures
            reached == p,
            out matches Some(s) && s.phase == p + 1,
    {
    }

    /// Whatever is pulled right after a move to `p` has the phase `p + 1`.
    pub proof fn lemma_resumes_after()
        ensures
            crate::stream::resumes_after::<Self>(),
    {
    }
}

} // verus!
