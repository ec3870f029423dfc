use rsfxr::filter::{MinCutoff, Modulation};
use rsfxr::{ConstantFrequencyGenerator, Formula, Sample, SeekError, SeekFrom, Stream};

#[derive(Clone, Copy)]
struct By<F>(F);

impl<In, Out, F: Fn(In) -> Out> Formula<In> for By<F> {
    type Out = Out;

    fn apply(&self, input: In) -> Out {
        (self.0)(input)
    }
}


#[derive(Clone)]
struct Script {
    values: Vec<f64>,
    phase: u64,
}

impl Stream for Script {
    type Value = f64;

    fn next(&mut self) -> Option<Sample<f64>> {
        let at = self.phase as usize;
        if at < self.values.len() {
            self.phase += 1;
            Some(Sample { data: self.values[at], phase: self.phase })
        } else {
            None
        }
    }

    fn seek(&mut self, pos: SeekFrom) -> Result<u64, SeekError> {
        let p = pos.resolve(self.phase)?;
        self.phase = p;
        Ok(p)
    }

    fn duplicate(&self) -> Self {
        self.clone()
    }
}

#[test]
fn falling_frequency_yields_until_it_crosses_the_threshold() {
    // 1000, 990, 980, ... : the sample at step k = 50 is the first below 505.
    let falling = Modulation::new(
        ConstantFrequencyGenerator::new(1010.0f64),
        By(|phase: u64| -10.0 * phase as f64),
    );
    let mut filter = MinCutoff::new(falling, 505.0);
    for step in 0..50u64 {
        let s = filter.next().unwrap();
        assert_eq!(s.phase, step + 1);
        assert_eq!(s.data, 1010.0 - 10.0 * (step + 1) as f64);
        assert!(!filter.terminated);
    }
    for _ in 0..200 {
        assert_eq!(filter.next(), None);
        assert!(filter.terminated);
    }
}

#[test]
fn a_sample_at_the_threshold_passes() {
    let mut filter = MinCutoff::new(Script { values: vec![3.0, 2.0, 1.0], phase: 0 }, 2.0);
    assert_eq!(filter.next(), Some(Sample { data: 3.0, phase: 1 }));
    assert_eq!(filter.next(), Some(Sample { data: 2.0, phase: 2 }));
    assert_eq!(filter.next(), None);
}

#[test]
fn the_filter_does_not_open_again() {
    let script = Script { values: vec![5.0, 1.0, 9.0, 9.0], phase: 0 };
    let mut filter = MinCutoff::new(script, 2.0);
    assert_eq!(filter.next(), Some(Sample { data: 5.0, phase: 1 }));
    assert_eq!(filter.next(), None);
    assert!(filter.terminated);
    assert_eq!(filter.next(), None);
    assert_eq!(filter.next(), None);
    // A terminated filter pulls nothing.
    assert_eq!(filter.generator.phase, 2);
    // Moving the cursor does not open it either.
    assert_eq!(filter.seek(SeekFrom::Start(0)), Ok(0));
    assert_eq!(filter.next(), None);
}

#[test]
fn an_exhausted_stream_leaves_the_filter_open() {
    let mut filter = MinCutoff::new(Script { values: vec![5.0], phase: 0 }, 2.0);
    assert_eq!(filter.next(), Some(Sample { data: 5.0, phase: 1 }));
    assert_eq!(filter.next(), None);
    assert!(!filter.terminated);
    assert_eq!(filter.seek(SeekFrom::Start(0)), Ok(0));
    assert_eq!(filter.next(), Some(Sample { data: 5.0, phase: 1 }));
}

#[test]
fn judge_follows_the_verdict() {
    let mut filter = MinCutoff::new(ConstantFrequencyGenerator::new(0.0f64), 1.0);
    let s = Sample { data: 4.0, phase: 7 };
    assert_eq!(filter.judge(s, false), Some(s));
    assert!(!filter.terminated);
    assert_eq!(filter.judge(s, true), None);
    assert!(filter.terminated);
    assert_eq!(filter.judge(s, false), None);
    assert!(filter.terminated);
}

#[test]
fn a_value_without_order_is_not_below_the_threshold() {
    let mut filter = MinCutoff::new(Script { values: vec![f64::NAN, 1.0], phase: 0 }, 2.0);
    let s = filter.next().unwrap();
    assert!(s.data.is_nan());
    assert_eq!(filter.next(), None);
    assert!(filter.terminated);
}
