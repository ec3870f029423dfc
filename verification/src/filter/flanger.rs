use vstd::prelude::*;
use vstd::std_specs::ops::AddSpec;
use std::ops::Add;
use crate::sample::Sample;
use crate::seek::{SeekError, SeekFrom};
use crate::generator::ConstantFrequencyGenerator;
use crate::stream::{Formula, Stream};

verus! {

/// Adds to each sample of a stream a sample of the same stream taken at a
/// shifted phase.
///
/// Samples before the phase `offset` pass unchanged. From there on `sweep`
/// gives, for the phase of a sample, by how many samples the copy of the
/// stream is moved before it is pulled.
pub struct Flanger<G, F> {
    pub generator: G,
    pub offset: u64,
    pub sweep: F,
}

impl<G, F> Flanger<G, F> {
    /// A flanger over `generator` that sets in at the phase `offset`.
    pub fn new(generator: G, offset: u64, sweep: F) -> (r: Self)
        ensures
            r.generator == generator,
            r.offset == offset,
            r.sweep == sweep,
    {
        Flanger { generator, offset, sweep }
    }
}

impl<G, F> Flanger<G, F> where
    G: Stream,
    G::Value: Add<Output = G::Value> + Copy,
    F: Formula<u64, Out = i64> + Copy,
 {
    /// What a copy of `source` yields once it has been moved by what `sweep`
    /// gives for `phase`.
    pub open spec fn delayed(
        source: G,
        sweep: F,
        phase: u64,
        wet: Option<Sample<G::Value>>,
    ) -> bool {
        exists|copy: G, shift: i64, moved: G, reached: u64, spent: G|
            #![trigger G::seeks(copy, SeekFrom::Current(shift), moved, reached), G::pulls(moved, spent, wet)]
            {
                &&& G::copies(source, copy)
                &&& call_ensures(F::apply, (&sweep, phase), shift)
                &&& G::seeks(copy, SeekFrom::Current(shift), moved, reached)
                &&& G::pulls(moved, spent, wet)
            }
    }

    /// The sample that leaves the flanger for the sample `dry` of the stream
    /// and the sample `wet` of its shifted copy.
    pub open spec fn blends(
        dry: Sample<G::Value>,
        wet: Option<Sample<G::Value>>,
        out: Option<Sample<G::Value>>,
    ) -> bool {
        match wet {
            None => out is None,
            Some(w) => {
                &&& out matches Some(o)
                &&& o.phase == dry.phase
                &&& call_ensures(G::Value::add, (dry.data, w.data), o.data)
            },
        }
    }
}

impl<G, F> Stream for Flanger<G, F> where
    G: Stream,
    G::Value: Add<Output = G::Value> + Copy,
    F: Formula<u64, Out = i64> + Copy,
 {
    type Value = G::Value;

    open spec fn ready(&self) -> bool {
        &&& self.generator.ready()
        &&& forall|a: G::Value, b: G::Value| #[trigger] a.add_req(b)
    }

    /// The stream is pulled once. A sample before `offset` leaves as it
    /// came. A later one is added to what the shifted copy yields, and
    /// leaves with its own phase; where the copy yields nothing, the step
    /// has no sample.
    open spec fn pulls(pre: Self, post: Self, out: Option<Sample<G::Value>>) -> bool {
        &&& post.offset == pre.offset
        &&& post.sweep == pre.sweep
        &&& exists|dry: Option<Sample<G::Value>>| #[trigger]
            G::pulls(pre.generator, post.generator, dry) && match dry {
                None => out is None,
                Some(s) => if s.phase < pre.offset {
                    out == Some(s)
                } else {
                    exists|wet: Option<Sample<G::Value>>| #[trigger]
                        Self::delayed(post.generator, pre.sweep, s.phase, wet) && Self::blends(
                            s,
                            wet,
                            out,
                        )
                },
            }
    }

    open spec fn seeks(pre: Self, pos: SeekFrom, post: Self, reached: u64) -> bool {
        &&& post.offset == pre.offset
        &&& post.sweep == pre.sweep
        &&& G::seeks(pre.generator, pos, post.generator, reached)
    }

    open spec fn copies(pre: Self, copy: Self) -> bool {
        &&& copy.offset == pre.offset
        &&& copy.sweep == pre.sweep
        &&& G::copies(pre.generator, copy.generator)
    }

    fn next(&mut self) -> (out: Option<Sample<G::Value>>) {
        let dry = self.generator.next();
        assert(G::pulls(old(self).generator, self.generator, dry));
        match dry {
            None => None,
            Some(s) => {
                if s.phase < self.offset {
                    Some(s)
                } else {
                    let mut copy = self.generator.duplicate();
                    let shift = self.sweep.apply(s.phase);
                    let _ = copy.seek(SeekFrom::Current(shift));
                    let wet = copy.next();
                    let out = match wet {
                        None => None,
                        Some(w) => Some(Sample { data: s.data + w.data, phase: s.phase }),
                    };
                    proof {
                        assert(Self::delayed(self.generator, self.sweep, s.phase, wet));
                    }
                    out
                }
            },
        }
    }

    fn seek(&mut self, pos: SeekFrom) -> (r: Result<u64, SeekError>) {
        self.generator.seek(pos)
    }

    fn duplicate(&self) -> (copy: Self) {
        Flanger { generator: self.generator.duplicate(), offset: self.offset, sweep: self.sweep }
    }
}

impl<G, F> Flanger<G, F> where
    G: Stream,
    G::Value: Add<Output = G::Value> + Copy,
    F: Formula<u64, Out = i64> + Copy,
 {
    /// Where the phases of the stream never decrease from one pull to the
    /// next, those of the filter never do.
    pub proof fn lemma_steady()
        requires
            crate::stream::steady::<G>(),
        ensures
            crate::stream::steady::<Self>(),
    {
    }

    /// Where the stream yields the phase `p + 1` right after a move to `p`,
    /// the filter does.
    pub proof fn lemma_resumes_after()
        requires
            crate::stream::resumes_after::<G>(),
        ensures
            crate::stream::resumes_after::<Self>(),
    {
    }

    /// Before the offset the flanger is the identity: a sample of the
    /// stream whose phase lies below `offset` leaves as it came.
    pub proof fn lemma_identity_before_offset(
        pre: Self,
        post: Self,
        out: Option<Sample<G::Value>>,
    )
        requires
            Self::pulls(pre, post, out),
        ensures
            exists|dry: Option<Sample<G::Value>>| #[trigger]
                G::pulls(pre.generator, post.generator, dry) && (dry matches Some(s) && s.phase
                    < pre.offset ==> out == dry),
    {
    }
}

impl<T, F> Flanger<ConstantFrequencyGenerator<T>, F> where
    T: Add<Output = T> + Copy,
    F: Formula<u64, Out = i64> + Copy,
 {
    /// Over a generator the identity is plain to see: as long as the next
    /// phase lies below `offset`, a pull hands out what the generator
    /// yields, and advances the generator by one.
    pub proof fn lemma_identity_over_a_generator(pre: Self, post: Self, out: Option<Sample<T>>)
        requires
            Self::pulls(pre, post, out),
            pre.generator.phase + 1 < pre.offset,
        ensures
            out == Some(
                Sample {
                    data: pre.generator.frequency,
                    phase: (pre.generator.phase + 1) as u64,
                },
            ),
            post.generator.phase == pre.generator.phase + 1,
    {
    }
}

} // verus!
