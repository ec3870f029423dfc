use rsfxr::filter::{Arpeggiation, FrequencySlide, Highpass, Lowpass, Vibrato};
use rsfxr::{ConstantFrequencyGenerator, Formula, Sample, SeekError, SeekFrom, Stream};

#[derive(Clone, Copy)]
struct By<F>(F);

impl<In, Out, F: Fn(In) -> Out> Formula<In> for By<F> {
    type Out = Out;

    fn apply(&self, input: In) -> Out {
        (self.0)(input)
    }
}


#[derive(Clone)]
struct Script {
    values: Vec<f64>,
    phase: u64,
}

impl Stream for Script {
    type Value = f64;

    fn next(&mut self) -> Option<Sample<f64>> {
        let at = self.phase as usize;
        if at < self.values.len() {
            self.phase += 1;
            Some(Sample { data: self.values[at], phase: self.phase })
        } else {
            None
        }
    }

    fn seek(&mut self, pos: SeekFrom) -> Result<u64, SeekError> {
        let p = pos.resolve(self.phase)?;
        self.phase = p;
        Ok(p)
    }

    fn duplicate(&self) -> Self {
        self.clone()
    }
}

#[test]
fn arpeggiation_steps_the_pitch_once() {
    let mut a = Arpeggiation::new(ConstantFrequencyGenerator::new(440.0f64), 1.5, 50);
    for phase in 1..50u64 {
        assert_eq!(a.next(), Some(Sample { data: 440.0, phase }));
    }
    for phase in 50..200u64 {
        assert_eq!(a.next(), Some(Sample { data: 660.0, phase }));
    }
}

#[test]
fn arpeggiation_without_delay_steps_at_once() {
    let mut a = Arpeggiation::new(ConstantFrequencyGenerator::new(100.0f64), 0.5, 0);
    assert_eq!(a.next(), Some(Sample { data: 50.0, phase: 1 }));
    assert_eq!(a.seek(SeekFrom::Start(7)), Ok(7));
    assert_eq!(a.next(), Some(Sample { data: 50.0, phase: 8 }));
}

#[test]
fn arpeggiation_ends_with_its_stream() {
    let mut a = Arpeggiation::new(Script { values: vec![1.0, 2.0], phase: 0 }, 3.0, 2);
    assert_eq!(a.next(), Some(Sample { data: 1.0, phase: 1 }));
    assert_eq!(a.next(), Some(Sample { data: 6.0, phase: 2 }));
    assert_eq!(a.next(), None);
}

#[test]
fn slide_adds_the_drift_of_the_phase() {
    let slide = 2.0f64;
    let delta = 0.5f64;
    let drift = By(move |phase: u64| (slide + delta * phase as f64) * phase as f64);
    let mut s = FrequencySlide::new(ConstantFrequencyGenerator::new(100.0f64), drift);
    assert_eq!(s.next(), Some(Sample { data: 100.0 + 2.5, phase: 1 }));
    assert_eq!(s.next(), Some(Sample { data: 100.0 + 6.0, phase: 2 }));
    assert_eq!(s.next(), Some(Sample { data: 100.0 + 10.5, phase: 3 }));
    assert_eq!(s.seek(SeekFrom::Start(9)), Ok(9));
    assert_eq!(s.next(), Some(Sample { data: 100.0 + 70.0, phase: 10 }));
}

#[test]
fn vibrato_swings_around_the_frequency() {
    let wobble = By(|phase: u64| 10.0 * (2.0 * phase as f64 / 8.0 * std::f64::consts::TAU).sin());
    let mut v = Vibrato::new(ConstantFrequencyGenerator::new(440.0f64), wobble);
    let first = v.next().unwrap();
    assert_eq!(first.phase, 1);
    assert!((first.data - 450.0).abs() < 1e-9);
    let second = v.next().unwrap();
    assert!((second.data - 440.0).abs() < 1e-9);
    let third = v.next().unwrap();
    assert!((third.data - 430.0).abs() < 1e-9);
}

#[test]
fn lowpass_blends_with_the_sample_before() {
    let sf = 0.25f64;
    let mut l = Lowpass::new(Script { values: vec![8.0, 4.0, -4.0], phase: 0 }, sf, 1.0 - sf, 0.0);
    assert_eq!(l.next(), Some(Sample { data: 8.0 * 0.25 + 0.0 * 0.75, phase: 1 }));
    assert_eq!(l.prev_sample, Sample { data: 8.0, phase: 1 });
    assert_eq!(l.next(), Some(Sample { data: 4.0 * 0.25 + 8.0 * 0.75, phase: 2 }));
    assert_eq!(l.next(), Some(Sample { data: -4.0 * 0.25 + 4.0 * 0.75, phase: 3 }));
    assert_eq!(l.next(), None);
    assert_eq!(l.prev_sample, Sample { data: -4.0, phase: 3 });
}

#[test]
fn highpass_feeds_its_output_back() {
    let sf = 0.5f64;
    let mut h = Highpass::new(Script { values: vec![8.0, 4.0, -4.0], phase: 0 }, sf, 0.0);
    assert_eq!(h.next(), Some(Sample { data: 4.0, phase: 1 }));
    assert_eq!(h.next(), Some(Sample { data: 4.0 * 0.5 + 0.5 * 4.0, phase: 2 }));
    assert_eq!(h.next(), Some(Sample { data: 4.0 * 0.5 + 0.5 * -4.0, phase: 3 }));
    assert_eq!(h.prev_output_sample, Sample { data: 0.0, phase: 3 });
    // No sample of the stream takes the place of the one set at the start.
    assert_eq!(h.prev_sample, Sample { data: 0.0, phase: 0 });
    assert_eq!(h.next(), None);
}

#[test]
fn highpass_keeps_its_first_previous_sample() {
    let mut h = Highpass::new(ConstantFrequencyGenerator::new(1.0f64), 0.5, 0.25);
    // 0.25 * 0.5 + 0.5 * (1.0 - 0.25)
    assert_eq!(h.next(), Some(Sample { data: 0.5, phase: 1 }));
    // 0.5 * 0.5 + 0.5 * (1.0 - 0.25)
    assert_eq!(h.next(), Some(Sample { data: 0.625, phase: 2 }));
    assert_eq!(h.prev_sample, Sample { data: 0.25, phase: 0 });
}

#[test]
fn phases_never_decrease_through_a_chain() {
    let source = ConstantFrequencyGenerator::new(1.0f64);
    let slid = FrequencySlide::new(source, By(|phase: u64| phase as f64));
    let stepped = Arpeggiation::new(slid, 2.0, 10);
    let mut smooth = Lowpass::new(stepped, 0.5, 0.5, 0.0);
    let mut last = 0;
    for _ in 0..500 {
        let s = smooth.next().unwrap();
        assert!(s.phase >= last);
        assert_eq!(s.phase, last + 1);
        last = s.phase;
    }
    assert_eq!(smooth.seek(SeekFrom::Start(41)), Ok(41));
    assert_eq!(smooth.next().unwrap().phase, 42);
}
