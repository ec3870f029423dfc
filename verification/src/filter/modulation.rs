use vstd::prelude::*;
use vstd::std_specs::ops::AddSpec;
use std::ops::Add;
use crate::sample::Sample;
use crate::seek::{SeekError, SeekFrom};
use crate::stream::{Formula, Stream};

verus! {

/// Adds to each sample of a stream an offset that depends on its phase
/// alone: `offset` gives it for the phase.
pub struct Modulation<G, F> {
    pub generator: G,
    pub offset: F,
}

/// A glide of the frequency: the offset is the drift that has built up at a
/// phase.
pub type FrequencySlide<G, F> = Modulation<G, F>;

/// A periodic wobble of the frequency: the offset swings around zero.
pub type Vibrato<G, F> = Modulation<G, F>;

impl<G, F> Modulation<G, F> {
    /// A filter over `generator`.
    pub fn new(generator: G, offset: F) -> (r: Self)
        ensures
            r.generator == generator,
            r.offset == offset,
    {
        Modulation { generator, offset }
    }
}

impl<G, F> Modulation<G, F> where
    G: Stream,
    G::Value: Add<Output = G::Value> + Copy,
    F: Formula<u64, Out = G::Value> + Copy,
 {
    /// `out` is `s` with the offset of its phase added.
    pub open spec fn shifts(self, s: Sample<G::Value>, out: Sample<G::Value>) -> bool {
        &&& out.phase == s.phase
        &&& exists|shift: G::Value| #[trigger]
            call_ensures(F::apply, (&self.offset, s.phase), shift) && call_ensures(
                G::Value::add,
                (s.data, shift),
                out.data,
            )
    }
}

impl<G, F> Stream for Modulation<G, F> where
    G: Stream,
    G::Value: Add<Output = G::Value> + Copy,
    F: Formula<u64, Out = G::Value> + Copy,
 {
    type Value = G::Value;

    open spec fn ready(&self) -> bool {
        &&& self.generator.ready()
        &&& forall|a: G::Value, b: G::Value| #[trigger] a.add_req(b)
    }

    /// The stream is pulled once; the filter yields exactly when the stream
    /// does, at the same phase.
    open spec fn pulls(pre: Self, post: Self, out: Option<Sample<G::Value>>) -> bool {
        &&& post.offset == pre.offset
        &&& exists|dry: Option<Sample<G::Value>>| #[trigger]
            G::pulls(pre.generator, post.generator, dry) && match dry {
                None => out is None,
                Some(s) => out matches Some(o) && pre.shifts(s, o),
            }
    }

    open spec fn seeks(pre: Self, pos: SeekFrom, post: Self, reached: u64) -> bool {
        &&& post.offset == pre.offset
        &&& G::seeks(pre.generator, pos, post.generator, reached)
    }

    open spec fn copies(pre: Self, copy: Self) -> bool {
        &&& copy.offset == pre.offset
        &&& G::copies(pre.generator, copy.generator)
    }

    fn next(&mut self) -> (out: Option<Sample<G::Value>>) {
        let dry = self.generator.next();
        assert(G::pulls(old(self).generator, self.generator, dry));
        match dry {
            None => None,
            Some(s) => {
                let shift = self.offset.apply(s.phase);
                let out = Sample { data: s.data + shift, phase: s.phase };
                Some(out)
            },
        }
    }

    fn seek(&mut self, pos: SeekFrom) -> (r: Result<u64, SeekError>) {
        self.generator.seek(pos)
    }

    fn duplicate(&self) -> (copy: Self) {
        Modulation { generator: self.generator.duplicate(), offset: self.offset }
    }
}

impl<G, F> Modulation<G, F> where
    G: Stream,
    G::Value: Add<Output = G::Value> + Copy,
    F: Formula<u64, Out = G::Value> + Copy,
 {
    /// Where the phases of the stream never decrease from one pull to the
    /// next, those of the filter never do.
    pub proof fn lemma_steady()
        requires
            crate::stream::steady::<G>(),
        ensures
            crate::stream::steady::<Self>(),
    {
    }

    /// Where the stream yields the phase `p + 1` right after a move to `p`,
    /// the filter does.
    pub proof fn lemma_resumes_after()
        requires
            crate::stream::resumes_after::<G>(),
        ensures
            crate::stream::resumes_after::<Self>(),
    {
    }

    /// Where the stream yields nothing for good once it has yielded nothing,
    /// the filter does.
    pub proof fn lemma_ends_for_good()
        requires
            crate::stream::ends_for_good::<G>(),
        ensures
            crate::stream::ends_for_good::<Self>(),
    {
    }
}

} // verus!
