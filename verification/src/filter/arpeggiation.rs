use vstd::prelude::*;
use vstd::std_specs::ops::MulSpec;
use std::ops::Mul;
use crate::sample::Sample;
use crate::seek::{SeekError, SeekFrom};
use crate::stream::Stream;

verus! {

/// Steps the pitch of a stream once: samples before the phase `delay` pass
/// unchanged, every sample from there on is multiplied by `freq_mult`.
pub struct Arpeggiation<G: Stream> {
    pub generator: G,
    pub freq_mult: G::Value,
    pub delay: u64,
}

impl<G: Stream> Arpeggiation<G> {
    /// A filter over `generator` that steps the pitch at the phase `delay`.
    pub fn new(generator: G, freq_mult: G::Value, delay: u64) -> (r: Self)
        ensures
            r.generator == generator,
            r.freq_mult == freq_mult,
            r.delay == delay,
    {
        Arpeggiation { generator, freq_mult, delay }
    }
}

impl<G> Arpeggiation<G> where G: Stream, G::Value: Mul<Output = G::Value> + Copy {
    /// The sample that leaves for the sample `s` of the stream.
    pub open spec fn steps(self, s: Sample<G::Value>, out: Sample<G::Value>) -> bool {
        if s.phase < self.delay {
            out == s
        } else {
            &&& out.phase == s.phase
            &&& call_ensures(G::Value::mul, (s.data, self.freq_mult), out.data)
        }
    }
}

impl<G> Stream for Arpeggiation<G> where G: Stream, G::Value: Mul<Output = G::Value> + Copy {
    type Value = G::Value;

    open spec fn ready(&self) -> bool {
        &&& self.generator.ready()
        &&& forall|a: G::Value, b: G::Value| #[trigger] a.mul_req(b)
    }

    /// The stream is pulled once; the filter yields exactly when the stream
    /// does, at the same phase.
    open spec fn pulls(pre: Self, post: Self, out: Option<Sample<G::Value>>) -> bool {
        &&& post.freq_mult == pre.freq_mult
        &&& post.delay == pre.delay
        &&& exists|dry: Option<Sample<G::Value>>| #[trigger]
            G::pulls(pre.generator, post.generator, dry) && match dry {
                None => out is None,
                Some(s) => out matches Some(o) && pre.steps(s, o),
            }
    }

    open spec fn seeks(pre: Self, pos: SeekFrom, post: Self, reached: u64) -> bool {
        &&& post.freq_mult == pre.freq_mult
        &&& post.delay == pre.delay
        &&& G::seeks(pre.generator, pos, post.generator, reached)
    }

    open spec fn copies(pre: Self, copy: Self) -> bool {
        &&& copy.freq_mult == pre.freq_mult
        &&& copy.delay == pre.delay
        &&& G::copies(pre.generator, copy.generator)
    }

    fn next(&mut self) -> (out: Option<Sample<G::Value>>) {
        let dry = self.generator.next();
        assert(G::pulls(old(self).generator, self.generator, dry));
        match dry {
            None => None,
            Some(s) => {
                if s.phase < self.delay {
                    Some(s)
                } else {
                    Some(Sample { data: s.data * self.freq_mult, phase: s.phase })
                }
            },
        }
    }

    fn seek(&mut self, pos: SeekFrom) -> (r: Result<u64, SeekError>) {
        self.generator.seek(pos)
    }

    fn duplicate(&self) -> (copy: Self) {
        Arpeggiation {
            generator: self.generator.duplicate(),
            freq_mult: self.freq_mult,
            delay: self.delay,
        }
    }
}

impl<G> Arpeggiation<G> where G: Stream, G::Value: Mul<Output = G::Value> + Copy {
    /// Where the phases of the stream never decrease from one pull to the
    /// next, those of the filter never do.
    pub proof fn lemma_steady()
        requires
            crate::stream::steady::<G>(),
        ensures
            crate::stream::steady::<Self>(),
    {
    }

    /// Where the stream yields the phase `p + 1` right after a move to `p`,
    /// the filter does.
    pub proof fn lemma_resumes_after()
        requires
            crate::stream::resumes_after::<G>(),
        ensures
            crate::stream::resumes_after::<Self>(),
    {
    }

    /// Where the stream yields nothing for good once it has yielded nothing,
    /// the filter does.
    pub proof fn lemma_ends_for_good()
        requires
            crate::stream::ends_for_good::<G>(),
        ensures
            crate::stream::ends_for_good::<Self>(),
    {
    }
}

} // verus!
