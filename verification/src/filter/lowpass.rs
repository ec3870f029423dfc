use vstd::prelude::*;
use vstd::std_specs::ops::{AddSpec, MulSpec};
use std::ops::{Add, Mul};
use crate::sample::Sample;
use crate::seek::{SeekError, SeekFrom};
use crate::stream::Stream;

verus! {

/// Smooths a stream by blending each sample with the one before it.
///
/// A sample leaves as `input * smoothing_factor + previous * complement`,
/// where `previous` is the sample that the stream yielded before, as it
/// came, and `complement` is what `smoothing_factor` lacks to one.
pub struct Lowpass<G: Stream> {
    pub generator: G,
    pub smoothing_factor: G::Value,
    pub complement: G::Value,
    pub prev_sample: Sample<G::Value>,
}

impl<G: Stream> Lowpass<G> {
    /// A filter that has seen no sample yet: `silence` at phase 0 stands
    /// for the sample before the first.
    pub fn new(
        generator: G,
        smoothing_factor: G::Value,
        complement: G::Value,
        silence: G::Value,
    ) -> (r: Self)
        ensures
            r.generator == generator,
            r.smoothing_factor == smoothing_factor,
            r.complement == complement,
            r.prev_sample == (Sample { data: silence, phase: 0 }),
    {
        Lowpass {
            generator,
            smoothing_factor,
            complement,
            prev_sample: Sample { data: silence, phase: 0 },
        }
    }
}

impl<G> Lowpass<G> where
    G: Stream,
    G::Value: Add<Output = G::Value> + Mul<Output = G::Value> + Copy,
 {
    /// `out` is `input * smoothing_factor + previous * complement`, each
    /// operator applied once, in this order.
    pub open spec fn blends(self, input: G::Value, previous: G::Value, out: G::Value) -> bool {
        exists|fresh: G::Value, kept: G::Value|
            #![trigger call_ensures(G::Value::mul, (input, self.smoothing_factor), fresh), call_ensures(G::Value::mul, (previous, self.complement), kept)]
            {
                &&& call_ensures(G::Value::mul, (input, self.smoothing_factor), fresh)
                &&& call_ensures(G::Value::mul, (previous, self.complement), kept)
                &&& call_ensures(G::Value::add, (fresh, kept), out)
            }
    }
}

impl<G> Stream for Lowpass<G> where
    G: Stream,
    G::Value: Add<Output = G::Value> + Mul<Output = G::Value> + Copy,
 {
    type Value = G::Value;

    open spec fn ready(&self) -> bool {
        &&& self.generator.ready()
        &&& forall|a: G::Value, b: G::Value| #[trigger] a.add_req(b)
        &&& forall|a: G::Value, b: G::Value| #[trigger] a.mul_req(b)
    }

    /// The stream is pulled once. Its sample leaves blended with the sample
    /// before it, at its own phase, and is remembered as it came.
    open spec fn pulls(pre: Self, post: Self, out: Option<Sample<G::Value>>) -> bool {
        &&& post.smoothing_factor == pre.smoothing_factor
        &&& post.complement == pre.complement
        &&& exists|dry: Option<Sample<G::Value>>| #[trigger]
            G::pulls(pre.generator, post.generator, dry) && match dry {
                None => out is None && post.prev_sample == pre.prev_sample,
                Some(s) => {
                    &&& post.prev_sample == s
                    &&& out matches Some(o)
                    &&& o.phase == s.phase
                    &&& pre.blends(s.data, pre.prev_sample.data, o.data)
                },
            }
    }

    /// Only the stream is moved: the sample remembered stays.
    open spec fn seeks(pre: Self, pos: SeekFrom, post: Self, reached: u64) -> bool {
        &&& post.smoothing_factor == pre.smoothing_factor
        &&& post.complement == pre.complement
        &&& post.prev_sample == pre.prev_sample
        &&& G::seeks(pre.generator, pos, post.generator, reached)
    }

    open spec fn copies(pre: Self, copy: Self) -> bool {
        &&& copy.smoothing_factor == pre.smoothing_factor
        &&& copy.complement == pre.complement
        &&& copy.prev_sample == pre.prev_sample
        &&& G::copies(pre.generator, copy.generator)
    }

    fn next(&mut self) -> (out: Option<Sample<G::Value>>) {
        let dry = self.generator.next();
        match dry {
            None => None,
            Some(s) => {
                let fresh = s.data * self.smoothing_factor;
                let kept = self.prev_sample.data * self.complement;
                let data = fresh + kept;
                assert(call_ensures(G::Value::mul, (s.data, self.smoothing_factor), fresh)
                    && call_ensures(
                    G::Value::mul,
                    (self.prev_sample.data, self.complement),
                    kept,
                ));
                self.prev_sample = s;
                assert(G::pulls(old(self).generator, self.generator, dry));
                Some(Sample { data, phase: s.phase })
            },
        }
    }

    fn seek(&mut self, pos: SeekFrom) -> (r: Result<u64, SeekError>) {
        self.generator.seek(pos)
    }

    fn duplicate(&self) -> (copy: Self) {
        Lowpass {
            generator: self.generator.duplicate(),
            smoothing_factor: self.smoothing_factor,
            complement: self.complement,
            prev_sample: self.prev_sample,
        }
    }
}

impl<G> Lowpass<G> where
    G: Stream,
    G::Value: Add<Output = G::Value> + Mul<Output = G::Value> + Copy,
 {
    /// Where the phases of the stream never decrease from one pull to the
    /// next, those of the filter never do.
    pub proof fn lemma_steady()
        requires
            crate::stream::steady::<G>(),
        ensures
            crate::stream::steady::<Self>(),
    {
    }

    /// Where the stream yields the phase `p + 1` right after a move to `p`,
    /// the filter does.
    pub proof fn lemma_resumes_after()
        requires
            crate::stream::resumes_after::<G>(),
        ensures
            crate::stream::resumes_after::<Self>(),
    {
    }

    /// Where the stream yields nothing for good once it has yielded nothing,
    /// the filter does.
    pub proof fn lemma_ends_for_good()
        requires
            crate::stream::ends_for_good::<G>(),
        ensures
            crate::stream::ends_for_good::<Self>(),
    {
    }
}

} // verus!
