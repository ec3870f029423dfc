use rsfxr::{
    ConstantFrequencyGenerator, Formula, Sample, SeekError, SeekFrom, Stream, WhiteNoiseGenerator,
};

#[derive(Clone, Copy)]
struct By<F>(F);

impl<In, Out, F: Fn(In) -> Out> Formula<In> for By<F> {
    type Out = Out;

    fn apply(&self, input: In) -> Out {
        (self.0)(input)
    }
}


#[test]
fn fresh_generator_starts_at_phase_one() {
    let mut g = ConstantFrequencyGenerator::new(440.0f64);
    assert_eq!(g.phase, 0);
    assert_eq!(g.next(), Some(Sample { data: 440.0, phase: 1 }));
}

#[test]
fn generator_phases_grow_by_one() {
    let mut g = ConstantFrequencyGenerator::new(100.0f64);
    let mut last = 0;
    for _ in 0..1000 {
        let s = g.next().unwrap();
        assert_eq!(s.phase, last + 1);
        assert_eq!(s.data, 100.0);
        last = s.phase;
    }
    assert_eq!(g.phase, 1000);
}

#[test]
fn seek_to_start_then_pull_yields_the_next_phase() {
    for p in [0u64, 1, 41, 44_100, u64::MAX - 1] {
        let mut g = ConstantFrequencyGenerator::new(7.5f64);
        g.next();
        assert_eq!(g.seek(SeekFrom::Start(p)), Ok(p));
        assert_eq!(g.next(), Some(Sample { data: 7.5, phase: p + 1 }));
    }
}

#[test]
fn generator_ends_at_the_largest_phase() {
    let mut g = ConstantFrequencyGenerator::new(1.0f64);
    assert_eq!(g.seek(SeekFrom::Start(u64::MAX)), Ok(u64::MAX));
    assert_eq!(g.next(), None);
    assert_eq!(g.next(), None);
    assert_eq!(g.phase, u64::MAX);
}

#[test]
fn seek_relative_moves_both_ways() {
    let mut g = ConstantFrequencyGenerator::new(1.0f64);
    assert_eq!(g.seek(SeekFrom::Current(10)), Ok(10));
    assert_eq!(g.seek(SeekFrom::Current(-4)), Ok(6));
    assert_eq!(g.seek(SeekFrom::Current(0)), Ok(6));
    assert_eq!(g.next(), Some(Sample { data: 1.0, phase: 7 }));
}

#[test]
fn seek_relative_wraps_around() {
    let mut g = ConstantFrequencyGenerator::new(1.0f64);
    assert_eq!(g.seek(SeekFrom::Current(-1)), Ok(u64::MAX));
    assert_eq!(g.seek(SeekFrom::Current(2)), Ok(1));
    assert_eq!(g.seek(SeekFrom::Start(1 << 63)), Ok(1 << 63));
    assert_eq!(g.seek(SeekFrom::Current(i64::MIN)), Ok(0));
    assert_eq!(g.seek(SeekFrom::Start((1 << 63) - 1)), Ok((1 << 63) - 1));
    assert_eq!(g.seek(SeekFrom::Current(1)), Ok(1 << 63));
}

#[test]
fn seek_from_end_is_invalid_input_and_moves_nothing() {
    let mut g = ConstantFrequencyGenerator::new(1u8);
    g.next();
    g.next();
    assert_eq!(g.seek(SeekFrom::End(0)), Err(SeekError::InvalidInput));
    assert_eq!(g.seek(SeekFrom::End(-5)), Err(SeekError::InvalidInput));
    assert_eq!(g.phase, 2);
    assert_eq!(g.next(), Some(Sample { data: 1, phase: 3 }));
}

#[test]
fn resolve_gives_the_target_phase() {
    assert_eq!(SeekFrom::Start(9).resolve(100), Ok(9));
    assert_eq!(SeekFrom::Current(9).resolve(100), Ok(109));
    assert_eq!(SeekFrom::Current(-100).resolve(100), Ok(0));
    assert_eq!(SeekFrom::Current(-101).resolve(100), Ok(u64::MAX));
    assert_eq!(SeekFrom::Current(1).resolve(u64::MAX), Ok(0));
    assert_eq!(SeekFrom::End(9).resolve(100), Err(SeekError::InvalidInput));
}

#[test]
fn a_duplicate_runs_on_its_own() {
    let mut g = ConstantFrequencyGenerator::new(3.0f64);
    g.next();
    let mut copy = g.duplicate();
    copy.next();
    copy.next();
    assert_eq!(g.phase, 1);
    assert_eq!(copy.phase, 3);
    assert_eq!(g.next(), Some(Sample { data: 3.0, phase: 2 }));
}

#[test]
fn white_noise_stamps_what_was_drawn() {
    let mut n = WhiteNoiseGenerator::new(By(|_: ()| 0.25f64));
    assert_eq!(n.phase, 0);
    assert_eq!(n.next(), Some(Sample { data: 0.25, phase: 1 }));
    assert_eq!(n.next(), Some(Sample { data: 0.25, phase: 2 }));
    assert_eq!(n.seek(SeekFrom::Start(10)), Ok(10));
    assert_eq!(n.next(), Some(Sample { data: 0.25, phase: 11 }));
    assert_eq!(n.seek(SeekFrom::Current(-11)), Ok(0));
    assert_eq!(n.next(), Some(Sample { data: 0.25, phase: 1 }));
    assert_eq!(n.seek(SeekFrom::End(0)), Err(SeekError::InvalidInput));
    assert_eq!(n.phase, 1);
}

#[test]
fn white_noise_draws_anew_for_each_pull() {
    let mut n = WhiteNoiseGenerator::new(By(|_: ()| rand::random::<f64>()));
    let mut seen = Vec::new();
    for i in 0..64u64 {
        let s = n.next().unwrap();
        assert_eq!(s.phase, i + 1);
        assert!(0.0 <= s.data && s.data < 1.0);
        seen.push(s.data);
    }
    assert!(seen.iter().any(|v| *v != seen[0]));
}

#[test]
fn white_noise_ends_at_the_largest_phase() {
    let mut n = WhiteNoiseGenerator::new(By(|_: ()| 1u8));
    assert_eq!(n.seek(SeekFrom::Start(u64::MAX - 1)), Ok(u64::MAX - 1));
    assert_eq!(n.next(), Some(Sample { data: 1, phase: u64::MAX }));
    assert_eq!(n.next(), None);
}

#[test]
fn pull_number_i_yields_the_phase_i_plus_one_above_the_start() {
    let mut g = ConstantFrequencyGenerator::new(2.0f64);
    g.seek(SeekFrom::Start(1000)).unwrap();
    for i in 0..100u64 {
        assert_eq!(g.next(), Some(Sample { data: 2.0, phase: 1000 + i + 1 }));
    }
}
