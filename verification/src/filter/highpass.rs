use vstd::prelude::*;
use vstd::std_specs::ops::{AddSpec, MulSpec, SubSpec};
use std::ops::{Add, Mul, Sub};
use crate::sample::Sample;
use crate::seek::{SeekError, SeekFrom};
use crate::stream::Stream;

verus! {

/// Feeds each sample that leaves back into the next one.
///
/// A sample leaves as `previous_output * smoothing_factor + smoothing_factor
/// * (input - prev_sample)`. `prev_sample` is set when the filter is made
/// and never again: no sample of the stream takes its place.
pub struct Highpass<G: Stream> {
    pub generator: G,
    pub smoothing_factor: G::Value,
    pub prev_sample: Sample<G::Value>,
    pub prev_output_sample: Sample<G::Value>,
}

impl<G: Stream> Highpass<G> where G::Value: Copy {
    /// A filter that has seen no sample yet: `silence` at phase 0 stands
    /// for the sample before the first, as it came and as it left.
    pub fn new(generator: G, smoothing_factor: G::Value, silence: G::Value) -> (r: Self)
        ensures
            r.generator == generator,
            r.smoothing_factor == smoothing_factor,
            r.prev_sample == (Sample { data: silence, phase: 0 }),
            r.prev_output_sample == (Sample { data: silence, phase: 0 }),
    {
        Highpass {
            generator,
            smoothing_factor,
            prev_sample: Sample { data: silence, phase: 0 },
            prev_output_sample: Sample { data: silence, phase: 0 },
        }
    }
}

impl<G> Highpass<G> where
    G: Stream,
    G::Value: Add<Output = G::Value> + Mul<Output = G::Value> + Sub<Output = G::Value> + Copy,
 {
    /// `out` is `previous_output * smoothing_factor + smoothing_factor *
    /// (input - prev_sample)`, each operator applied once, in this order.
    pub open spec fn feeds(self, input: G::Value, out: G::Value) -> bool {
        exists|held: G::Value, change: G::Value, scaled: G::Value|
            #![trigger call_ensures(G::Value::mul, (self.prev_output_sample.data, self.smoothing_factor), held), call_ensures(G::Value::sub, (input, self.prev_sample.data), change), call_ensures(G::Value::mul, (self.smoothing_factor, change), scaled)]
            {
                &&& call_ensures(
                    G::Value::mul,
                    (self.prev_output_sample.data, self.smoothing_factor),
                    held,
                )
                &&& call_ensures(G::Value::sub, (input, self.prev_sample.data), change)
                &&& call_ensures(G::Value::mul, (self.smoothing_factor, change), scaled)
                &&& call_ensures(G::Value::add, (held, scaled), out)
            }
    }
}

impl<G> Stream for Highpass<G> where
    G: Stream,
    G::Value: Add<Output = G::Value> + Mul<Output = G::Value> + Sub<Output = G::Value> + Copy,
 {
    type Value = G::Value;

    open spec fn ready(&self) -> bool {
        &&& self.generator.ready()
        &&& forall|a: G::Value, b: G::Value| #[trigger] a.add_req(b)
        &&& forall|a: G::Value, b: G::Value| #[trigger] a.mul_req(b)
        &&& forall|a: G::Value, b: G::Value| #[trigger] a.sub_req(b)
    }

    /// The stream is pulled once. The sample that leaves is remembered as
    /// the previous output; `prev_sample` stays what it was.
    open spec fn pulls(pre: Self, post: Self, out: Option<Sample<G::Value>>) -> bool {
        &&& post.smoothing_factor == pre.smoothing_factor
        &&& post.prev_sample == pre.prev_sample
        &&& exists|dry: Option<Sample<G::Value>>| #[trigger]
            G::pulls(pre.generator, post.generator, dry) && match dry {
                None => out is None && post.prev_output_sample == pre.prev_output_sample,
                Some(s) => {
                    &&& out == Some(post.prev_output_sample)
                    &&& post.prev_output_sample.phase == s.phase
                    &&& pre.feeds(s.data, post.prev_output_sample.data)
                },
            }
    }

    /// Only the stream is moved: what the filter remembers stays.
    open spec fn seeks(pre: Self, pos: SeekFrom, post: Self, reached: u64) -> bool {
        &&& post.smoothing_factor == pre.smoothing_factor
        &&& post.prev_sample == pre.prev_sample
        &&& post.prev_output_sample == pre.prev_output_sample
        &&& G::seeks(pre.generator, pos, post.generator, reached)
    }

    open spec fn copies(pre: Self, copy: Self) -> bool {
        &&& copy.smoothing_factor == pre.smoothing_factor
        &&& copy.prev_sample == pre.prev_sample
        &&& copy.prev_output_sample == pre.prev_output_sample
        &&& G::copies(pre.generator, copy.generator)
    }

    fn next(&mut self) -> (out: Option<Sample<G::Value>>) {
        let dry = self.generator.next();
        match dry {
            None => None,
            Some(s) => {
                let held = self.prev_output_sample.data * self.smoothing_factor;
                let change = s.data - self.prev_sample.data;
                let scaled = self.smoothing_factor * change;
                let data = held + scaled;
                assert(call_ensures(
                    G::Value::mul,
                    (self.prev_output_sample.data, self.smoothing_factor),
                    held,
                ) && call_ensures(G::Value::sub, (s.data, self.prev_sample.data), change)
                    && call_ensures(G::Value::mul, (self.smoothing_factor, change), scaled));
                self.prev_output_sample = Sample { data, phase: s.phase };
                assert(G::pulls(old(self).generator, self.generator, dry));
                Some(self.prev_output_sample)
            },
        }
    }

    fn seek(&mut self, pos: SeekFrom) -> (r: Result<u64, SeekError>) {
        self.generator.seek(pos)
    }

    fn duplicate(&self) -> (copy: Self) {
        Highpass {
            generator: self.generator.duplicate(),
            smoothing_factor: self.smoothing_factor,
            prev_sample: self.prev_sample,
            prev_output_sample: self.prev_output_sample,
        }
    }
}

impl<G> Highpass<G> where
    G: Stream,
    G::Value: Add<Output = G::Value> + Mul<Output = G::Value> + Sub<Output = G::Value> + Copy,
 {
    /// Where the phases of the stream never decrease from one pull to the
    /// next, those of the filter never do.
    pub proof fn lemma_steady()
        requires
            crate::stream::steady::<G>(),
        ensures
            crate::stream::steady::<Self>(),
    {
    }

    /// Where the stream yields the phase `p + 1` right after a move to `p`,
    /// the filter does.
    pub proof fn lemma_resumes_after()
        requires
            crate::stream::resumes_after::<G>(),
        ensures
            crate::stream::resumes_after::<Self>(),
    {
    }

    /// Where the stream yields nothing for good once it has yielded nothing,
    /// the filter does.
    pub proof fn lemma_ends_for_good()
        requires
            crate::stream::ends_for_good::<G>(),
        ensures
            crate::stream::ends_for_good::<Self>(),
    {
    }
}

} // verus!
