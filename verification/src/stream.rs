use vstd::prelude::*;
use crate::sample::Sample;
use crate::seek::{SeekError, SeekFrom};

verus! {

/// A producer of samples that can be pulled, repositioned and duplicated.
///
/// What a pull, a move or a duplication may do to a stream is given by
/// relations between the state before and the state after. A stream that
/// states none of them leaves every outcome open.
pub trait Stream: Sized {
    /// The payload of the samples.
    type Value;

    /// Whether the stream can be pulled: the operators that a pull applies
    /// to payloads accept whatever it hands them.
    open spec fn ready(&self) -> bool {
        true
    }

    /// One pull takes the stream from `pre` to `post` and hands out `out`.
    open spec fn pulls(pre: Self, post: Self, out: Option<Sample<Self::Value>>) -> bool {
        true
    }

    /// One successful move to `pos` takes the stream from `pre` to `post`
    /// and reports the phase `reached`.
    open spec fn seeks(pre: Self, pos: SeekFrom, post: Self, reached: u64) -> bool {
        true
    }

    /// `copy` is what duplicating the stream `pre` gives.
    open spec fn copies(pre: Self, copy: Self) -> bool {
        true
    }

    /// Advances the stream by one step. `None` says that the stream has no
    /// sample for this step; a later pull may yield again.
    fn next(&mut self) -> (out: Option<Sample<Self::Value>>)
        requires
            old(self).ready(),
        ensures
            Self::pulls(*old(self), *final(self), out),
            final(self).ready(),
    ;

    /// Moves the cursor and returns the phase reached. A move relative to
    /// the end fails and leaves the stream as it was; every other move
    /// succeeds.
    fn seek(&mut self, pos: SeekFrom) -> (r: Result<u64, SeekError>)
        ensures
            r is Err <==> pos is End,
            r is Err ==> *final(self) == *old(self),
            r matches Ok(reached) ==> Self::seeks(*old(self), pos, *final(self), reached),
            old(self).ready() ==> final(self).ready(),
    ;

    /// A second stream in the state of this one. From here on the two run
    /// apart: what is done to one leaves the other as it is.
    fn duplicate(&self) -> (copy: Self)
        ensures
            Self::copies(*self, copy),
            self.ready() ==> copy.ready(),
    ;
}

/// A formula that the owner of a stream supplies. The library applies it and
/// hands on what it gives; what that is, is for the formula to say.
pub trait Formula<In> {
    /// What the formula gives.
    type Out;

    /// What the formula gives for `input`.
    fn apply(&self, input: In) -> Self::Out;
}

/// `outs` is what a row of pulls hands out, one pull after the other, and
/// `states` is the stream before the first pull and after each.
pub open spec fn runs<S: Stream>(states: Seq<S>, outs: Seq<Option<Sample<S::Value>>>) -> bool {
    &&& states.len() == outs.len() + 1
    &&& forall|i: int|
        0 <= i < outs.len() ==> S::pulls(#[trigger] states[i], states[i + 1], outs[i])
}

/// Of two pulls in a row that both yield a sample, the second yields no
/// earlier phase than the first.
pub open spec fn steady<S: Stream>() -> bool {
    forall|a: S, b: S, c: S, x: Sample<S::Value>, y: Sample<S::Value>|
        #![trigger S::pulls(a, b, Some(x)), S::pulls(b, c, Some(y))]
        S::pulls(a, b, Some(x)) && S::pulls(b, c, Some(y)) ==> x.phase <= y.phase
}

/// A pull that follows a pull without a sample yields no sample either.
pub open spec fn ends_for_good<S: Stream>() -> bool {
    forall|a: S, b: S, c: S, y: Sample<S::Value>|
        #![trigger S::pulls(a, b, None), S::pulls(b, c, Some(y))]
        S::pulls(a, b, None) ==> !S::pulls(b, c, Some(y))
}

/// A sample pulled right after a move to the phase `p` has the phase
/// `p + 1`.
pub open spec fn resumes_after<S: Stream>() -> bool {
    forall|a: S, p: u64, b: S, reached: u64, c: S, x: Sample<S::Value>|
        #![trigger S::seeks(a, SeekFrom::Start(p), b, reached), S::pulls(b, c, Some(x))]
        S::seeks(a, SeekFrom::Start(p), b, reached) && S::pulls(b, c, Some(x)) ==> x.phase == p
            + 1
}

/// In a row of pulls of a stream that yields nothing for good once it has
/// yielded nothing, no pull yields a sample after one that yielded none.
pub proof fn lemma_nothing_after_the_end<S: Stream>(
    states: Seq<S>,
    outs: Seq<Option<Sample<S::Value>>>,
    i: int,
    j: int,
)
    requires
        ends_for_good::<S>(),
        runs::<S>(states, outs),
        0 <= i <= j < outs.len(),
        outs[i] is None,
    ensures
        outs[j] is None,
    decreases j - i,
{
    if i < j {
        lemma_nothing_after_the_end::<S>(states, outs, i, j - 1);
        if outs[j] is Some {
            assert(S::pulls(states[j - 1], states[j], None));
            assert(S::pulls(states[j], states[j + 1], Some(outs[j]->0)));
        }
    }
}

/// In a row of pulls of a steady stream that yields nothing for good once
/// it has yielded nothing, the phases never decrease: of any two samples
/// that the row yields, the later has no earlier phase.
pub proof fn lemma_phases_never_decrease<S: Stream>(
    states: Seq<S>,
    outs: Seq<Option<Sample<S::Value>>>,
    i: int,
    j: int,
)
    requires
        steady::<S>(),
        ends_for_good::<S>(),
        runs::<S>(states, outs),
        0 <= i <= j < outs.len(),
        outs[i] is Some,
        outs[j] is Some,
    ensures
        outs[i]->0.phase <= outs[j]->0.phase,
    decreases j - i,
{
    if i < j {
        if outs[j - 1] is None {
            lemma_nothing_after_the_end::<S>(states, outs, j - 1, j);
        }
        lemma_phases_never_decrease::<S>(states, outs, i, j - 1);
        assert(S::pulls(states[j - 1], states[j], Some(outs[j - 1]->0)));
    }
}

} // verus!
