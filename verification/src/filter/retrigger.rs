use vstd::prelude::*;
use vstd::std_specs::ops::AddSpec;
use std::ops::Add;
use crate::sample::Sample;
use crate::seek::{SeekError, SeekFrom};
use crate::stream::Stream;

verus! {

/// How often a sound is triggered again: `num / den` times a second.
#[derive(Clone, Copy, Debug, PartialEq, Eq, Structural)]
pub struct Rate {
    pub num: u64,
    pub den: u64,
}

impl Rate {
    /// Whether `phase * rate` exceeds `sample_rate * count`: whether the
    /// time elapsed at `phase`, multiplied by the rate, exceeds `count`.
    pub open spec fn exceeds(self, phase: u64, sample_rate: u64, count: nat) -> bool {
        phase * self.num > sample_rate * count * self.den
    }

    /// Decides [`Rate::exceeds`] without rounding.
    pub fn has_exceeded(self, phase: u64, sample_rate: u64, count: u64) -> (b: bool)
        ensures
            b == self.exceeds(phase, sample_rate, count as nat),
    {
        assert(phase * self.num <= 0xffff_ffff_ffff_ffff * 0xffff_ffff_ffff_ffff) by (nonlinear_arith)
            requires
                phase <= 0xffff_ffff_ffff_ffff,
                self.num <= 0xffff_ffff_ffff_ffff,
        ;
        assert(sample_rate * count <= 0xffff_ffff_ffff_ffff * 0xffff_ffff_ffff_ffff)
            by (nonlinear_arith)
            requires
                sample_rate <= 0xffff_ffff_ffff_ffff,
                count <= 0xffff_ffff_ffff_ffff,
        ;
        let elapsed: u128 = (phase as u128) * (self.num as u128);
        let seconds: u128 = (sample_rate as u128) * (count as u128);
        match seconds.checked_mul(self.den as u128) {
            Some(due) => elapsed > due,
            None => false,
        }
    }
}

/// Layers echoes over a stream: copies of the stream, each started again at
/// its origin, that sound together with it.
///
/// The first echo is added when the time elapsed, multiplied by the rate,
/// exceeds one, the next when it exceeds two, and so on until there are
/// `num_retriggers` of them. An echo is never removed.
pub struct Retrigger<G> {
    pub generator: G,
    pub rate: Rate,
    pub num_retriggers: u64,
    pub retriggers: Vec<G>,
    pub sample_rate: u64,
    pub phase: u64,
}

impl<G: Stream> Retrigger<G> {
    /// A retrigger at its origin, without echoes.
    pub fn new(generator: G, rate: Rate, num_retriggers: u64, sample_rate: u64) -> (r: Self)
        ensures
            r.generator == generator,
            r.rate == rate,
            r.num_retriggers == num_retriggers,
            r.retriggers@ == Seq::<G>::empty(),
            r.sample_rate == sample_rate,
            r.phase == 0,
            r.within_cap(),
    {
        Retrigger {
            generator,
            rate,
            num_retriggers,
            retriggers: Vec::new(),
            sample_rate,
            phase: 0,
        }
    }

    /// The retrigger holds no more echoes than `num_retriggers`. A new
    /// retrigger does, and no pull, move or duplication changes that.
    pub open spec fn within_cap(&self) -> bool {
        self.retriggers@.len() <= self.num_retriggers
    }

    /// The payloads of the results that hold a sample, in their order.
    pub open spec fn yielded(results: Seq<Option<Sample<G::Value>>>) -> Seq<G::Value>
        decreases results.len(),
    {
        if results.len() == 0 {
            Seq::empty()
        } else {
            match results.last() {
                Some(s) => Self::yielded(results.drop_last()).push(s.data),
                None => Self::yielded(results.drop_last()),
            }
        }
    }

    /// What one step mixes: what the echoes yielded, oldest echo first, then
    /// what the stream itself yielded.
    pub open spec fn layers(
        echoes: Seq<Option<Sample<G::Value>>>,
        primary: Option<Sample<G::Value>>,
    ) -> Seq<G::Value> {
        match primary {
            Some(s) => Self::yielded(echoes).push(s.data),
            None => Self::yielded(echoes),
        }
    }

    /// The phase of a step: that of the stream's own sample, or one more
    /// than the phase before where the stream yielded none. It stays where
    /// it is at the largest phase that `u64` holds.
    pub open spec fn stamp(before: u64, primary: Option<Sample<G::Value>>) -> u64 {
        match primary {
            Some(s) => s.phase,
            None => if before < u64::MAX {
                (before + 1) as u64
            } else {
                before
            },
        }
    }

    /// Whether a step that ends at `phase` with `echoes` echoes adds one.
    pub open spec fn spawns(self, phase: u64, echoes: nat) -> bool {
        &&& echoes < self.num_retriggers
        &&& self.rate.exceeds(phase, self.sample_rate, echoes + 1)
    }
}

impl<G: Stream> Retrigger<G> {
    /// `echo` is a duplicate of `source` that was moved to its origin.
    pub open spec fn echo_of(source: G, echo: G) -> bool {
        exists|copy: G, reached: u64|
            G::copies(source, copy) && #[trigger] G::seeks(
                copy,
                SeekFrom::Start(0),
                echo,
                reached,
            )
    }
}

impl<G> Retrigger<G> where G: Stream, G::Value: Add<Output = G::Value> {
    /// `total` is what adding up `parts` from left to right gives.
    pub open spec fn sums_to(parts: Seq<G::Value>, total: G::Value) -> bool
        decreases parts.len(),
    {
        if parts.len() == 0 {
            false
        } else if parts.len() == 1 {
            total == parts[0]
        } else {
            exists|sum: G::Value|
                #![trigger call_ensures(G::Value::add, (sum, parts.last()), total)]
                Self::sums_to(parts.drop_last(), sum) && call_ensures(
                    G::Value::add,
                    (sum, parts.last()),
                    total,
                )
        }
    }
}

impl<G> Retrigger<G> where G: Stream, G::Value: Add<Output = G::Value> + Copy {
    /// Adds `part` to what has been mixed so far.
    fn mix(so_far: Option<G::Value>, part: G::Value, Ghost(parts): Ghost<Seq<G::Value>>) -> (sum:
        G::Value)
        requires
            forall|a: G::Value, b: G::Value| #[trigger] a.add_req(b),
            so_far is None <==> parts.len() == 0,
            so_far matches Some(s) ==> Self::sums_to(parts, s),
        ensures
            Self::sums_to(parts.push(part), sum),
    {
        let ghost longer = parts.push(part);
        assert(longer.drop_last() == parts);
        match so_far {
            None => part,
            Some(s) => {
                let sum = s + part;
                assert(Self::sums_to(longer.drop_last(), s) && call_ensures(
                    G::Value::add,
                    (s, longer.last()),
                    sum,
                ));
                sum
            },
        }
    }
}

impl<G> Stream for Retrigger<G> where G: Stream, G::Value: Add<Output = G::Value> + Copy {
    type Value = G::Value;

    /// The stream and every echo are ready, and the sum of two payloads
    /// always exists.
    open spec fn ready(&self) -> bool {
        &&& self.generator.ready()
        &&& forall|i: int| 0 <= i < self.retriggers@.len() ==> (#[trigger] self.retriggers@[i]).ready()
        &&& forall|a: G::Value, b: G::Value| #[trigger] a.add_req(b)
    }

    /// The stream and every echo are pulled once. What they yield is added
    /// up into one sample; a step in which none of them yields has no
    /// sample. An echo that the step adds is not pulled in that step.
    open spec fn pulls(pre: Self, post: Self, out: Option<Sample<G::Value>>) -> bool {
        let n = pre.retriggers@.len();
        exists|primary: Option<Sample<G::Value>>, echoes: Seq<Option<Sample<G::Value>>>|
            #![trigger G::pulls(pre.generator, post.generator, primary), Self::yielded(echoes)]
            {
                &&& G::pulls(pre.generator, post.generator, primary)
                &&& echoes.len() == n
                &&& post.retriggers@.len() >= n
                &&& forall|i: int|
                    0 <= i < n ==> G::pulls(
                        #[trigger] pre.retriggers@[i],
                        post.retriggers@[i],
                        echoes[i],
                    )
                &&& post.rate == pre.rate
                &&& post.num_retriggers == pre.num_retriggers
                &&& post.sample_rate == pre.sample_rate
                &&& post.phase == Self::stamp(pre.phase, primary)
                &&& if pre.spawns(post.phase, n) {
                    &&& post.retriggers@.len() == n + 1
                    &&& Self::echo_of(post.generator, post.retriggers@[n as int])
                } else {
                    post.retriggers@.len() == n
                }
                &&& if Self::layers(echoes, primary).len() == 0 {
                    out is None
                } else {
                    &&& out matches Some(s)
                    &&& s.phase == post.phase
                    &&& Self::sums_to(Self::layers(echoes, primary), s.data)
                }
            }
    }

    /// Only the stream itself is moved: the echoes and the phase of the
    /// retrigger stay as they are.
    open spec fn seeks(pre: Self, pos: SeekFrom, post: Self, reached: u64) -> bool {
        &&& G::seeks(pre.generator, pos, post.generator, reached)
        &&& post.rate == pre.rate
        &&& post.num_retriggers == pre.num_retriggers
        &&& post.retriggers == pre.retriggers
        &&& post.sample_rate == pre.sample_rate
        &&& post.phase == pre.phase
    }

    /// The stream and every echo are duplicated, each in its place.
    open spec fn copies(pre: Self, copy: Self) -> bool {
        &&& G::copies(pre.generator, copy.generator)
        &&& copy.rate == pre.rate
        &&& copy.num_retriggers == pre.num_retriggers
        &&& copy.retriggers@.len() == pre.retriggers@.len()
        &&& forall|i: int|
            0 <= i < pre.retriggers@.len() ==> G::copies(
                #[trigger] pre.retriggers@[i],
                copy.retriggers@[i],
            )
        &&& copy.sample_rate == pre.sample_rate
        &&& copy.phase == pre.phase
    }

    fn next(&mut self) -> (out: Option<Sample<G::Value>>)
        ensures
            old(self).within_cap() ==> final(self).within_cap(),
    {
        let primary = self.generator.next();
        let ghost primed = self.generator;
        let n: usize = self.retriggers.len();
        let mut mixed: Option<G::Value> = None;
        let ghost mut echoes: Seq<Option<Sample<G::Value>>> = Seq::empty();
        let mut i: usize = 0;
        while i < n
            invariant
                forall|a: G::Value, b: G::Value| #[trigger] a.add_req(b),
                forall|j: int| 0 <= j < n ==> (#[trigger] self.retriggers@[j]).ready(),
                self.generator.ready(),
                i <= n,
                n == old(self).retriggers@.len(),
                n == self.retriggers@.len(),
                self.generator == primed,
                self.rate == old(self).rate,
                self.num_retriggers == old(self).num_retriggers,
                self.sample_rate == old(self).sample_rate,
                self.phase == old(self).phase,
                echoes.len() == i,
                forall|j: int|
                    0 <= j < i ==> G::pulls(
                        #[trigger] old(self).retriggers@[j],
                        self.retriggers@[j],
                        echoes[j],
                    ),
                forall|j: int| i <= j < n ==> self.retriggers@[j] == old(self).retriggers@[j],
                mixed is None <==> Self::yielded(echoes).len() == 0,
                mixed matches Some(s) ==> Self::sums_to(Self::yielded(echoes), s),
            decreases n - i,
        {
            let echo = self.retriggers[i].next();
            proof {
                assert(echoes.push(echo).drop_last() =~= echoes);
            }
            match echo {
                Some(s) => {
                    mixed = Some(Self::mix(mixed, s.data, Ghost(Self::yielded(echoes))));
                },
                None => {},
            }
            proof {
                echoes = echoes.push(echo);
            }
            i = i + 1;
        }
        match primary {
            Some(s) => {
                self.phase = s.phase;
                mixed = Some(Self::mix(mixed, s.data, Ghost(Self::yielded(echoes))));
            },
            None => {
                if self.phase < u64::MAX {
                    self.phase = self.phase + 1;
                }
            },
        }
        if (n as u64) < self.num_retriggers && self.rate.has_exceeded(
            self.phase,
            self.sample_rate,
            n as u64 + 1,
        ) {
            let mut echo = self.generator.duplicate();
            let _ = echo.seek(SeekFrom::Start(0));
            self.retriggers.push(echo);
        }
        let out = match mixed {
            Some(data) => Some(Sample { data, phase: self.phase }),
            None => None,
        };
        proof {
            assert(self.generator == primed);
        }
        out
    }

    fn seek(&mut self, pos: SeekFrom) -> (r: Result<u64, SeekError>)
        ensures
            old(self).within_cap() ==> final(self).within_cap(),
    {
        self.generator.seek(pos)
    }

    fn duplicate(&self) -> (copy: Self)
        ensures
            self.within_cap() ==> copy.within_cap(),
    {
        let n: usize = self.retriggers.len();
        let mut retriggers: Vec<G> = Vec::new();
        let mut i: usize = 0;
        while i < n
            invariant
                i <= n,
                n == self.retriggers@.len(),
                retriggers@.len() == i,
                forall|j: int|
                    0 <= j < i ==> G::copies(#[trigger] self.retriggers@[j], retriggers@[j]),
                forall|j: int|
                    0 <= j < i ==> ((#[trigger] self.retriggers@[j]).ready()
                        ==> retriggers@[j].ready()),
            decreases n - i,
        {
            let echo = self.retriggers[i].duplicate();
            retriggers.push(echo);
            i = i + 1;
        }
        proof {
            if self.ready() {
                assert forall|j: int| 0 <= j < n implies (#[trigger] retriggers@[j]).ready() by {
                    assert(self.retriggers@[j].ready());
                }
            }
        }
        Retrigger {
            generator: self.generator.duplicate(),
            rate: self.rate,
            num_retriggers: self.num_retriggers,
            retriggers,
            sample_rate: self.sample_rate,
            phase: self.phase,
        }
    }
}

impl<G> Retrigger<G> where G: Stream, G::Value: Add<Output = G::Value> + Copy {
    /// A step never removes an echo and adds at most one, and only below
    /// the cap: a retrigger that holds no more than `num_retriggers` echoes
    /// never holds more, however long it runs.
    pub proof fn lemma_echoes_bounded(pre: Self, post: Self, out: Option<Sample<G::Value>>)
        requires
            Self::pulls(pre, post, out),
        ensures
            pre.retriggers@.len() <= post.retriggers@.len() <= pre.retriggers@.len() + 1,
            post.retriggers@.len() == pre.retriggers@.len() + 1 <==> pre.spawns(
                post.phase,
                pre.retriggers@.len(),
            ),
            pre.retriggers@.len() <= pre.num_retriggers ==> post.retriggers@.len()
                <= post.num_retriggers,
    {
    }

    /// However long a retrigger runs, it holds no echo less than before and
    /// never more than `num_retriggers`, once it holds no more than that.
    pub proof fn lemma_echoes_never_exceed_cap(
        states: Seq<Self>,
        outs: Seq<Option<Sample<G::Value>>>,
        i: int,
    )
        requires
            crate::stream::runs::<Self>(states, outs),
            0 <= i <= outs.len(),
            states[0].within_cap(),
        ensures
            states[i].num_retriggers == states[0].num_retriggers,
            states[0].retriggers@.len() <= states[i].retriggers@.len() <= states[0].num_retriggers,
        decreases i,
    {
        if i > 0 {
            Self::lemma_echoes_never_exceed_cap(states, outs, i - 1);
            Self::lemma_echoes_bounded(states[i - 1], states[i], outs[i - 1]);
        }
    }

    /// A sample that leaves carries the phase that the retrigger has after
    /// the step.
    pub proof fn lemma_stamped(pre: Self, post: Self, out: Sample<G::Value>)
        requires
            Self::pulls(pre, post, Some(out)),
        ensures
            out.phase == post.phase,
    {
    }

    /// Where the stream yields the phase `p + 1` right after a move to `p`,
    /// so does the retrigger in every step in which the stream yields. (In
    /// a step in which only echoes yield, the phase is the retrigger's own.)
    pub proof fn lemma_resumes_with_the_stream(
        pre: Self,
        p: u64,
        moved: Self,
        reached: u64,
        post: Self,
        out: Sample<G::Value>,
    )
        requires
            crate::stream::resumes_after::<G>(),
            Self::seeks(pre, SeekFrom::Start(p), moved, reached),
            Self::pulls(moved, post, Some(out)),
        ensures
            exists|primary: Option<Sample<G::Value>>| #[trigger]
                G::pulls(moved.generator, post.generator, primary) && (primary is Some
                    ==> out.phase == p + 1),
    {
    }

    /// Where the phases of the stream never decrease from one pull to the
    /// next, and the stream yields nothing for good once it has yielded
    /// nothing, the phases of the retrigger never decrease.
    pub proof fn lemma_steady()
        requires
            crate::stream::steady::<G>(),
            crate::stream::ends_for_good::<G>(),
        ensures
            crate::stream::steady::<Self>(),
    {
    }

    /// Under the same two conditions the phase of the retrigger itself
    /// never falls from the second pull on, whether the pulls yield or not.
    pub proof fn lemma_phase_never_falls(
        pre: Self,
        between: Self,
        post: Self,
        first: Option<Sample<G::Value>>,
        second: Option<Sample<G::Value>>,
    )
        requires
            crate::stream::steady::<G>(),
            crate::stream::ends_for_good::<G>(),
            Self::pulls(pre, between, first),
            Self::pulls(between, post, second),
        ensures
            between.phase <= post.phase,
    {
    }

    /// Under the same two conditions the phases of a retrigger never
    /// decrease, however long it runs and however many pulls without a
    /// sample lie between two that yield.
    pub proof fn lemma_phases_never_decrease(
        states: Seq<Self>,
        outs: Seq<Option<Sample<G::Value>>>,
        i: int,
        j: int,
    )
        requires
            crate::stream::steady::<G>(),
            crate::stream::ends_for_good::<G>(),
            crate::stream::runs::<Self>(states, outs),
            0 <= i <= j < outs.len(),
            outs[i] is Some,
            outs[j] is Some,
        ensures
            outs[i]->0.phase <= outs[j]->0.phase,
    {
        Self::lemma_phases_of_states(states, outs, i, j);
        assert(Self::pulls(states[i], states[i + 1], outs[i]));
        assert(Self::pulls(states[j], states[j + 1], outs[j]));
    }

    /// Under the same two conditions the phase after pull `i` is no later
    /// than the phase after any later pull `j`.
    pub proof fn lemma_phases_of_states(
        states: Seq<Self>,
        outs: Seq<Option<Sample<G::Value>>>,
        i: int,
        j: int,
    )
        requires
            crate::stream::steady::<G>(),
            crate::stream::ends_for_good::<G>(),
            crate::stream::runs::<Self>(states, outs),
            0 <= i <= j < outs.len(),
        ensures
            states[i + 1].phase <= states[j + 1].phase,
        decreases j - i,
    {
        if i < j {
            Self::lemma_phases_of_states(states, outs, i, j - 1);
            Self::lemma_phase_never_falls(
                states[j - 1],
                states[j],
                states[j + 1],
                outs[j - 1],
                outs[j],
            );
        }
    }
}

} // verus!
