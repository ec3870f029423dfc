use rsfxr::filter::{Envelope, EnvelopeStage};
use rsfxr::{ConstantFrequencyGenerator, Formula, SeekFrom, Stream};

#[derive(Clone, Copy)]
struct By<F>(F);

impl<In, Out, F: Fn(In) -> Out> Formula<In> for By<F> {
    type Out = Out;

    fn apply(&self, input: In) -> Out {
        (self.0)(input)
    }
}


const RATE: f64 = 100.0;
const ATTACK: f64 = 1.0;
const SUSTAIN: f64 = 1.0;
const PUNCH: f64 = 0.5;
const DECAY: f64 = 1.0;

fn gain((stage, phase): (EnvelopeStage, u64)) -> f64 {
    match stage {
        EnvelopeStage::Attack => phase as f64 / (RATE * ATTACK),
        EnvelopeStage::Sustain => PUNCH,
        EnvelopeStage::Decay => {
            1.0 - (phase as f64 - (ATTACK + SUSTAIN) * RATE) / (DECAY * RATE)
        }
        EnvelopeStage::Finished => 0.0,
    }
}

type Gain = By<fn((EnvelopeStage, u64)) -> f64>;

fn envelope() -> Envelope<ConstantFrequencyGenerator<f64>, Gain> {
    Envelope::new(ConstantFrequencyGenerator::new(1.0), 100, 200, 300, By(gain))
}

fn sample_at(phase: u64) -> Option<f64> {
    let mut e = envelope();
    e.seek(SeekFrom::Start(phase - 1)).unwrap();
    let s = e.next()?;
    assert_eq!(s.phase, phase);
    Some(s.data)
}

#[test]
fn envelope_boundaries() {
    assert!((sample_at(50).unwrap() - 0.5).abs() < 1e-12);
    assert_eq!(sample_at(150), Some(0.5));
    assert!((sample_at(250).unwrap() - 0.5).abs() < 1e-12);
    assert!(sample_at(299).unwrap().abs() < 0.011);
    assert_eq!(sample_at(300), None);
    assert_eq!(sample_at(301), None);
}

#[test]
fn envelope_runs_through_its_stages_and_ends() {
    let mut e = envelope();
    let mut produced = 0u64;
    let mut last = 0.0;
    while let Some(s) = e.next() {
        produced += 1;
        assert_eq!(s.phase, produced);
        if s.phase < 100 {
            assert!(s.data >= last);
        }
        if (100..200).contains(&s.phase) {
            assert_eq!(s.data, 0.5);
        }
        if s.phase > 200 {
            assert!(s.data <= last);
        }
        last = s.data;
    }
    assert_eq!(produced, 299);
    assert_eq!(e.generator.phase, 300);
}

#[test]
fn stage_is_the_first_bound_above_the_phase() {
    let e = envelope();
    assert_eq!(e.stage(0), EnvelopeStage::Attack);
    assert_eq!(e.stage(99), EnvelopeStage::Attack);
    assert_eq!(e.stage(100), EnvelopeStage::Sustain);
    assert_eq!(e.stage(199), EnvelopeStage::Sustain);
    assert_eq!(e.stage(200), EnvelopeStage::Decay);
    assert_eq!(e.stage(299), EnvelopeStage::Decay);
    assert_eq!(e.stage(300), EnvelopeStage::Finished);
    assert_eq!(e.stage(u64::MAX), EnvelopeStage::Finished);
}

#[test]
fn an_envelope_without_attack_starts_in_sustain() {
    let e = Envelope::new(ConstantFrequencyGenerator::new(1.0f64), 0, 10, 20, By(gain));
    assert_eq!(e.stage(0), EnvelopeStage::Sustain);
    assert_eq!(e.stage(10), EnvelopeStage::Decay);
    assert_eq!(e.stage(20), EnvelopeStage::Finished);
}

#[test]
fn stages_never_come_back_whatever_the_bounds() {
    let e = Envelope::new(ConstantFrequencyGenerator::new(1.0f64), 30, 10, 20, By(gain));
    let rank = |s: EnvelopeStage| match s {
        EnvelopeStage::Attack => 0,
        EnvelopeStage::Sustain => 1,
        EnvelopeStage::Decay => 2,
        EnvelopeStage::Finished => 3,
    };
    let mut last = 0;
    for phase in 0..100u64 {
        let now = rank(e.stage(phase));
        assert!(now >= last);
        last = now;
    }
    assert_eq!(e.stage(29), EnvelopeStage::Attack);
    assert_eq!(e.stage(30), EnvelopeStage::Finished);
}

#[test]
fn an_envelope_ends_with_its_stream() {
    let mut source = ConstantFrequencyGenerator::new(1.0f64);
    source.seek(SeekFrom::Start(u64::MAX)).unwrap();
    let mut e = Envelope::new(source, u64::MAX, u64::MAX, u64::MAX, By(gain));
    assert_eq!(e.next(), None);
}
