//! Wave shapers: streams that turn the frequency of each sample into an
//! amplitude at the same phase.

use vstd::prelude::*;
use crate::sample::Sample;
use crate::seek::{SeekError, SeekFrom};
use crate::stream::{Formula, Stream};

verus! {

/// A wave without a gate: `shape` gives the amplitude for a frequency and
/// the phase it was produced at.
pub struct SquareWaveGenerator<G, F> {
    pub generator: G,
    pub shape: F,
}

impl<G, F> SquareWaveGenerator<G, F> {
    /// A shaper over `generator`.
    pub fn new(generator: G, shape: F) -> (r: Self)
        ensures
            r.generator == generator,
            r.shape == shape,
    {
        SquareWaveGenerator { generator, shape }
    }
}

impl<G, W, F> Stream for SquareWaveGenerator<G, F> where
    G: Stream,
    G::Value: Copy,
    F: Formula<(G::Value, u64), Out = W> + Copy,
 {
    type Value = W;

    open spec fn ready(&self) -> bool {
        self.generator.ready()
    }

    /// The stream is pulled once; the shaper yields exactly when the stream
    /// does, at the same phase.
    open spec fn pulls(pre: Self, post: Self, out: Option<Sample<W>>) -> bool {
        &&& post.shape == pre.shape
        &&& exists|dry: Option<Sample<G::Value>>| #[trigger]
            G::pulls(pre.generator, post.generator, dry) && match dry {
                None => out is None,
                Some(s) => {
                    &&& out matches Some(o)
                    &&& o.phase == s.phase
                    &&& call_ensures(F::apply, (&pre.shape, (s.data, s.phase)), o.data)
                },
            }
    }

    open spec fn seeks(pre: Self, pos: SeekFrom, post: Self, reached: u64) -> bool {
        &&& post.shape == pre.shape
        &&& G::seeks(pre.generator, pos, post.generator, reached)
    }

    open spec fn copies(pre: Self, copy: Self) -> bool {
        &&& copy.shape == pre.shape
        &&& G::copies(pre.generator, copy.generator)
    }

    fn next(&mut self) -> (out: Option<Sample<W>>) {
        let dry = self.generator.next();
        assert(G::pulls(old(self).generator, self.generator, dry));
        match dry {
            None => None,
            Some(s) => Some(Sample { data: self.shape.apply((s.data, s.phase)), phase: s.phase }),
        }
    }

    fn seek(&mut self, pos: SeekFrom) -> (r: Result<u64, SeekError>) {
        self.generator.seek(pos)
    }

    fn duplicate(&self) -> (copy: Self) {
        SquareWaveGenerator { generator: self.generator.duplicate(), shape: self.shape }
    }
}

/// A wave that sounds for a part of each cycle only.
///
/// `position` gives where in its cycle a sample stands, as a fraction of the
/// cycle. While that is below `duty_cycle`, by the order of the amplitudes,
/// `shape` gives the amplitude; for the rest of the cycle the amplitude is
/// `silence`.
pub struct GatedWaveGenerator<G, W, P, F> {
    pub generator: G,
    pub duty_cycle: W,
    pub silence: W,
    pub position: P,
    pub shape: F,
}

/// The gated wave whose shape is a sine.
pub type SineWaveGenerator<G, W, P, F> = GatedWaveGenerator<G, W, P, F>;

/// The gated wave whose shape is a ramp.
pub type SawtoothWaveGenerator<G, W, P, F> = GatedWaveGenerator<G, W, P, F>;

impl<G, W, P, F> GatedWaveGenerator<G, W, P, F> {
    /// A shaper over `generator` that sounds below `duty_cycle`.
    pub fn new(generator: G, duty_cycle: W, silence: W, position: P, shape: F) -> (r: Self)
        ensures
            r.generator == generator,
            r.duty_cycle == duty_cycle,
            r.silence == silence,
            r.position == position,
            r.shape == shape,
    {
        GatedWaveGenerator { generator, duty_cycle, silence, position, shape }
    }
}

impl<G, W, P, F> GatedWaveGenerator<G, W, P, F> where
    G: Stream,
    G::Value: Copy,
    W: PartialOrd + Copy,
    P: Formula<(G::Value, u64), Out = W> + Copy,
    F: Formula<(G::Value, u64), Out = W> + Copy,
 {
    /// `sounding` is what the order of the amplitudes says of whether the
    /// sample `s` stands below the duty cycle.
    pub open spec fn sounds(self, s: Sample<G::Value>, sounding: bool) -> bool {
        exists|at: W| #[trigger]
            call_ensures(P::apply, (&self.position, (s.data, s.phase)), at) && call_ensures(
                W::lt,
                (&at, &self.duty_cycle),
                sounding,
            )
    }

    /// The amplitude `data` that leaves for the sample `s`, given whether it
    /// is `sounding`.
    pub open spec fn gates(self, s: Sample<G::Value>, sounding: bool, data: W) -> bool {
        if sounding {
            call_ensures(F::apply, (&self.shape, (s.data, s.phase)), data)
        } else {
            data == self.silence
        }
    }

}

impl<G, W, P, F> Stream for GatedWaveGenerator<G, W, P, F> where
    G: Stream,
    G::Value: Copy,
    W: PartialOrd + Copy,
    P: Formula<(G::Value, u64), Out = W> + Copy,
    F: Formula<(G::Value, u64), Out = W> + Copy,
 {
    type Value = W;

    open spec fn ready(&self) -> bool {
        self.generator.ready()
    }

    /// The stream is pulled once; the shaper yields exactly when the stream
    /// does, at the same phase.
    open spec fn pulls(pre: Self, post: Self, out: Option<Sample<W>>) -> bool {
        &&& post.duty_cycle == pre.duty_cycle
        &&& post.silence == pre.silence
        &&& post.position == pre.position
        &&& post.shape == pre.shape
        &&& exists|dry: Option<Sample<G::Value>>| #[trigger]
            G::pulls(pre.generator, post.generator, dry) && match dry {
                None => out is None,
                Some(s) => {
                    &&& out matches Some(o)
                    &&& o.phase == s.phase
                    &&& exists|sounding: bool| #[trigger]
                        pre.sounds(s, sounding) && pre.gates(s, sounding, o.data)
                },
            }
    }

    open spec fn seeks(pre: Self, pos: SeekFrom, post: Self, reached: u64) -> bool {
        &&& post.duty_cycle == pre.duty_cycle
        &&& post.silence == pre.silence
        &&& post.position == pre.position
        &&& post.shape == pre.shape
        &&& G::seeks(pre.generator, pos, post.generator, reached)
    }

    open spec fn copies(pre: Self, copy: Self) -> bool {
        &&& copy.duty_cycle == pre.duty_cycle
        &&& copy.silence == pre.silence
        &&& copy.position == pre.position
        &&& copy.shape == pre.shape
        &&& G::copies(pre.generator, copy.generator)
    }

    fn next(&mut self) -> (out: Option<Sample<W>>) {
        let dry = self.generator.next();
        assert(G::pulls(old(self).generator, self.generator, dry));
        match dry {
            None => None,
            Some(s) => {
                let at = self.position.apply((s.data, s.phase));
                let sounding = at.lt(&self.duty_cycle);
                let data = if sounding {
                    self.shape.apply((s.data, s.phase))
                } else {
                    self.silence
                };
                assert(old(self).sounds(s, sounding));
                Some(Sample { data, phase: s.phase })
            },
        }
    }

    fn seek(&mut self, pos: SeekFrom) -> (r: Result<u64, SeekError>) {
        self.generator.seek(pos)
    }

    fn duplicate(&self) -> (copy: Self) {
        GatedWaveGenerator {
            generator: self.generator.duplicate(),
            duty_cycle: self.duty_cycle,
            silence: self.silence,
            position: self.position,
            shape: self.shape,
        }
    }
}

impl<G, W, P, F> GatedWaveGenerator<G, W, P, F> where
    G: Stream,
    G::Value: Copy,
    W: PartialOrd + Copy,
    P: Formula<(G::Value, u64), Out = W> + Copy,
    F: Formula<(G::Value, u64), Out = W> + Copy,
 {
    /// Outside the duty cycle the wave is silent: a sample that leaves came
    /// from a sample of the stream, and where that one does not stand below
    /// the duty cycle, what leaves is exactly `silence`.
    pub proof fn lemma_silent_outside_duty_cycle(pre: Self, post: Self, out: Sample<W>)
        requires
            Self::pulls(pre, post, Some(out)),
        ensures
            exists|s: Sample<G::Value>, sounding: bool|
                #![trigger G::pulls(pre.generator, post.generator, Some(s)), pre.sounds(s, sounding)]
                {
                    &&& G::pulls(pre.generator, post.generator, Some(s))
                    &&& pre.sounds(s, sounding)
                    &&& out.phase == s.phase
                    &&& !sounding ==> out.data == pre.silence
                },
    {
    }

    /// Where the phases of the stream never decrease from one pull to the
    /// next, those of the shaper never do.
    pub proof fn lemma_steady()
        requires
            crate::stream::steady::<G>(),
        ensures
            crate::stream::steady::<Self>(),
    {
    }

    /// Where the stream yields the phase `p + 1` right after a move to `p`,
    /// the shaper does.
    pub proof fn lemma_resumes_after()
        requires
            crate::stream::resumes_after::<G>(),
        ensures
            crate::stream::resumes_after::<Self>(),
    {
    }

    /// Where the stream yields nothing for good once it has yielded nothing,
    /// the shaper does.
    pub proof fn lemma_ends_for_good()
        requires
            crate::stream::ends_for_good::<G>(),
        ensures
            crate::stream::ends_for_good::<Self>(),
    {
    }
}

impl<G, W, F> SquareWaveGenerator<G, F> where
    G: Stream,
    G::Value: Copy,
    F: Formula<(G::Value, u64), Out = W> + Copy,
 {
    /// Where the phases of the stream never decrease from one pull to the
    /// next, those of the shaper never do.
    pub proof fn lemma_steady()
        requires
            crate::stream::steady::<G>(),
        ensures
            crate::stream::steady::<Self>(),
    {
    }

    /// Where the stream yields the phase `p + 1` right after a move to `p`,
    /// the shaper does.
    pub proof fn lemma_resumes_after()
        requires
            crate::stream::resumes_after::<G>(),
        ensures
            crate::stream::resumes_after::<Self>(),
    {
    }

    /// Where the stream yields nothing for good once it has yielded nothing,
    /// the shaper does.
    pub proof fn lemma_ends_for_good()
        requires
            crate::stream::ends_for_good::<G>(),
        ensures
            crate::stream::ends_for_good::<Self>(),
    {
    }
}

} // verus!
