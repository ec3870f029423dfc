use vstd::prelude::*;
use vstd::std_specs::ops::MulSpec;
use std::ops::Mul;
use crate::sample::Sample;
use crate::seek::{SeekError, SeekFrom};
use crate::stream::{Formula, Stream};

verus! {

/// The part of an envelope that a phase falls into.
#[derive(Clone, Copy, Debug, PartialEq, Eq, Structural)]
pub enum EnvelopeStage {
    /// The gain rises.
    Attack,
    /// The gain is held.
    Sustain,
    /// The gain falls.
    Decay,
    /// The sound is over.
    Finished,
}

impl EnvelopeStage {
    /// The place of a stage in the order in which the stages follow each
    /// other.
    pub open spec fn rank(self) -> nat {
        match self {
            EnvelopeStage::Attack => 0,
            EnvelopeStage::Sustain => 1,
            EnvelopeStage::Decay => 2,
            EnvelopeStage::Finished => 3,
        }
    }
}

/// Shapes the loudness of a stream over time and ends it.
///
/// The three bounds are phases: attack lasts while the phase is below
/// `attack_end`, then sustain while it is below `sustain_end`, then decay
/// while it is below `decay_end`. `gain` gives, for a stage and a phase, what
/// a sample at that phase is multiplied by.
pub struct Envelope<G, F> {
    pub generator: G,
    pub attack_end: u64,
    pub sustain_end: u64,
    pub decay_end: u64,
    pub gain: F,
}

impl<G, F> Envelope<G, F> {
    /// An envelope over `generator` with the three bounds as given.
    pub fn new(generator: G, attack_end: u64, sustain_end: u64, decay_end: u64, gain: F) -> (r:
        Self)
        ensures
            r.generator == generator,
            r.attack_end == attack_end,
            r.sustain_end == sustain_end,
            r.decay_end == decay_end,
            r.gain == gain,
    {
        Envelope { generator, attack_end, sustain_end, decay_end, gain }
    }

    /// The stage that `phase` falls into: the first of attack, sustain and
    /// decay whose bound lies above it, and `Finished` where none does.
    pub open spec fn stage_at(self, phase: u64) -> EnvelopeStage {
        if phase < self.attack_end {
            EnvelopeStage::Attack
        } else if phase < self.sustain_end {
            EnvelopeStage::Sustain
        } else if phase < self.decay_end {
            EnvelopeStage::Decay
        } else {
            EnvelopeStage::Finished
        }
    }

    /// Computes [`Envelope::stage_at`].
    pub fn stage(&self, phase: u64) -> (stage: EnvelopeStage)
        ensures
            stage == self.stage_at(phase),
    {
        if phase < self.attack_end {
            EnvelopeStage::Attack
        } else if phase < self.sustain_end {
            EnvelopeStage::Sustain
        } else if phase < self.decay_end {
            EnvelopeStage::Decay
        } else {
            EnvelopeStage::Finished
        }
    }

    /// The stages are entered in their order and never entered again: a
    /// later phase falls into the same stage or into one further on,
    /// whatever the three bounds are.
    pub proof fn lemma_stages_in_order(self, earlier: u64, later: u64)
        requires
            earlier <= later,
        ensures
            self.stage_at(earlier).rank() <= self.stage_at(later).rank(),
    {
    }

    /// Once a phase is past the envelope, every later phase is.
    pub proof fn lemma_finished_for_good(self, earlier: u64, later: u64)
        requires
            earlier <= later,
            self.stage_at(earlier) == EnvelopeStage::Finished,
        ensures
            self.stage_at(later) == EnvelopeStage::Finished,
    {
    }
}

impl<G, F> Envelope<G, F> where
    G: Stream,
    G::Value: Mul<Output = G::Value> + Copy,
    F: Formula<(EnvelopeStage, u64), Out = G::Value> + Copy,
 {
    /// The sample that leaves the envelope for the sample `s` of the stream.
    pub open spec fn shapes(self, s: Sample<G::Value>, out: Option<Sample<G::Value>>) -> bool {
        if self.stage_at(s.phase) == EnvelopeStage::Finished {
            out is None
        } else {
            exists|gain: G::Value| #[trigger]
                call_ensures(F::apply, (&self.gain, (self.stage_at(s.phase), s.phase)), gain) && {
                    &&& out matches Some(o)
                    &&& o.phase == s.phase
                    &&& call_ensures(G::Value::mul, (s.data, gain), o.data)
                }
        }
    }
}

impl<G, F> Stream for Envelope<G, F> where
    G: Stream,
    G::Value: Mul<Output = G::Value> + Copy,
    F: Formula<(EnvelopeStage, u64), Out = G::Value> + Copy,
 {
    type Value = G::Value;

    open spec fn ready(&self) -> bool {
        &&& self.generator.ready()
        &&& forall|a: G::Value, b: G::Value| #[trigger] a.mul_req(b)
    }

    /// The stream is pulled once. Its sample leaves multiplied by the gain
    /// of its phase, with the same phase; a sample past the decay does not
    /// leave.
    open spec fn pulls(pre: Self, post: Self, out: Option<Sample<G::Value>>) -> bool {
        &&& post.attack_end == pre.attack_end
        &&& post.sustain_end == pre.sustain_end
        &&& post.decay_end == pre.decay_end
        &&& post.gain == pre.gain
        &&& exists|dry: Option<Sample<G::Value>>| #[trigger]
            G::pulls(pre.generator, post.generator, dry) && match dry {
                None => out is None,
                Some(s) => pre.shapes(s, out),
            }
    }

    open spec fn seeks(pre: Self, pos: SeekFrom, post: Self, reached: u64) -> bool {
        &&& post.attack_end == pre.attack_end
        &&& post.sustain_end == pre.sustain_end
        &&& post.decay_end == pre.decay_end
        &&& post.gain == pre.gain
        &&& G::seeks(pre.generator, pos, post.generator, reached)
    }

    open spec fn copies(pre: Self, copy: Self) -> bool {
        &&& copy.attack_end == pre.attack_end
        &&& copy.sustain_end == pre.sustain_end
        &&& copy.decay_end == pre.decay_end
        &&& copy.gain == pre.gain
        &&& G::copies(pre.generator, copy.generator)
    }

    fn next(&mut self) -> (out: Option<Sample<G::Value>>) {
        let dry = self.generator.next();
        assert(G::pulls(old(self).generator, self.generator, dry));
        match dry {
            None => None,
            Some(s) => {
                let stage = self.stage(s.phase);
                match stage {
                    EnvelopeStage::Finished => None,
                    _ => {
                        let gain = self.gain.apply((stage, s.phase));
                        let out = Some(Sample { data: s.data * gain, phase: s.phase });
                        assert(call_ensures(
                            F::apply,
                            (&self.gain, (self.stage_at(s.phase), s.phase)),
                            gain,
                        ));
                        out
                    },
                }
            },
        }
    }

    fn seek(&mut self, pos: SeekFrom) -> (r: Result<u64, SeekError>) {
        self.generator.seek(pos)
    }

    fn duplicate(&self) -> (copy: Self) {
        Envelope {
            generator: self.generator.duplicate(),
            attack_end: self.attack_end,
            sustain_end: self.sustain_end,
            decay_end: self.decay_end,
            gain: self.gain,
        }
    }
}

impl<G, F> Envelope<G, F> where
    G: Stream,
    G::Value: Mul<Output = G::Value> + Copy,
    F: Formula<(EnvelopeStage, u64), Out = G::Value> + Copy,
 {
    /// Where the phases of the stream never decrease from one pull to the
    /// next, those of the filter never do.
    pub proof fn lemma_steady()
        requires
            crate::stream::steady::<G>(),
        ensures
            crate::stream::steady::<Self>(),
    {
    }

    /// Where the stream yields the phase `p + 1` right after a move to `p`,
    /// the filter does.
    pub proof fn lemma_resumes_after()
        requires
            crate::stream::resumes_after::<G>(),
        ensures
            crate::stream::resumes_after::<Self>(),
    {
    }

    /// Where the stream is steady and yields nothing for good once it has
    /// yielded nothing, the envelope yields nothing for good once it has
    /// yielded nothing: a sample past the decay is followed by samples past
    /// the decay only.
    pub proof fn lemma_ends_for_good()
        requires
            crate::stream::steady::<G>(),
            crate::stream::ends_for_good::<G>(),
        ensures
            crate::stream::ends_for_good::<Self>(),
    {
    }
}

} // verus!
