use music::amplitude::{
    is_valid_amplitude, AmplitudeConst, AmplitudeDecayExp, FadeLinear, ProgressMode, Tremolo,
};
use music::buffer::check_buffer_sizes;
use music::error::Error;
use music::timer::Timer;

fn in_range(a: f64) -> bool {
    (0.0..=1.0).contains(&a)
}

fn times(x: f64, y: f64) -> f64 {
    x * y
}

fn close(a: f64, b: f64) -> bool {
    (a - b).abs() < 1e-9
}

#[test]
fn valid_amplitude_range() {
    assert_eq!(is_valid_amplitude(0.0, &in_range), Ok(()));
    assert_eq!(is_valid_amplitude(1.0, &in_range), Ok(()));
    assert_eq!(is_valid_amplitude(0.5, &in_range), Ok(()));
    assert_eq!(is_valid_amplitude(-0.1, &in_range), Err(Error::AmplitudeInvalid));
    assert_eq!(is_valid_amplitude(1.1, &in_range), Err(Error::AmplitudeInvalid));
}

#[test]
fn timer_reports_boundary() {
    let mut t = Timer::with_duration(5);
    assert_eq!(t.jump_by_time(3), Ok(()));
    assert_eq!(t.elapsed, 3);
    assert_eq!(t.jump_by_time(4), Err(Error::ItemsCompleted(2)));
    assert_eq!(t.elapsed, 5);
    t.restart();
    assert_eq!(t.elapsed, 0);
    assert_eq!(t.jump_by_time(5), Ok(()));
    let mut endless = Timer::new();
    assert_eq!(endless.jump_by_time(1000), Ok(()));
    t.set(Some(2));
    assert_eq!(t.elapsed, 2);
}

#[test]
fn const_join_then_apply() {
    let mut g = AmplitudeConst::new(1.0);
    assert_eq!(g.get_amplitude(), 1.0);
    assert_eq!(g.set_amplitude_start(0.25, &in_range), Ok(()));
    assert_eq!(g.get_amplitude(), 0.25);
    assert_eq!(g.get_max(), 0.25);
    let mut samples = vec![2.0, 4.0, -1.0];
    assert_eq!(g.apply(&mut samples, &times), Ok(()));
    assert_eq!(samples, vec![0.5, 1.0, -0.25]);
}

#[test]
fn const_rejects_invalid_start() {
    let mut g = AmplitudeConst::new(1.0);
    assert_eq!(g.set_amplitude_start(1.5, &in_range), Err(Error::AmplitudeInvalid));
    assert_eq!(g.get_amplitude(), 1.0);
    assert_eq!(g.set_amplitude_start(-0.5, &in_range), Err(Error::AmplitudeInvalid));
    assert_eq!(g.get_amplitude(), 1.0);
}

#[test]
fn const_partial_completion() {
    let mut g = AmplitudeConst::new(1.0);
    assert_eq!(g.set_timing(Some(3)), Ok(()));
    assert_eq!(g.set_amplitude_start(0.5, &in_range), Ok(()));
    let mut samples = vec![1.0, 2.0, 3.0, 4.0, 5.0];
    assert_eq!(g.apply(&mut samples, &times), Err(Error::ItemsCompleted(3)));
    assert_eq!(samples, vec![0.5, 1.0, 1.5, 4.0, 5.0]);
    let mut more = vec![7.0];
    assert_eq!(g.apply(&mut more, &times), Err(Error::ItemsCompleted(0)));
    assert_eq!(more, vec![7.0]);
}

#[test]
fn rhythmic_buffer_size_mismatch() {
    assert_eq!(check_buffer_sizes(2, 3), Err(Error::BufferSize));
    assert_eq!(check_buffer_sizes(0, 1), Err(Error::BufferSize));
    assert_eq!(check_buffer_sizes(1, 0), Err(Error::BufferSize));
    assert_eq!(check_buffer_sizes(4, 4), Ok(()));
    let g = AmplitudeConst::new(0.5);
    let mut samples = vec![1.0, 1.0, 1.0];
    assert_eq!(g.apply_rhythmic(&vec![2.0, 2.0], &mut samples, Ok(()), &times), Err(Error::BufferSize));
    assert_eq!(samples, vec![1.0, 1.0, 1.0]);
    let mut empty: Vec<f64> = Vec::new();
    assert_eq!(g.apply_rhythmic(&vec![2.0], &mut empty, Ok(()), &times), Err(Error::BufferSize));
    let mut d = AmplitudeDecayExp::new(1.0, 0.5);
    assert_eq!(d.apply_rhythmic(&Vec::new(), &mut samples, Ok(()), &times), Err(Error::BufferSize));
    assert_eq!(d.get_amplitude(), 1.0);
    let t = Tremolo::new(ProgressMode::Tempo, 2.0, &|r: f64| r > 1.0, &|r: f64| 1.0 / r).unwrap();
    assert_eq!(t.apply_rhythmic(&vec![1.0], &mut samples, &vec![1.0], &times), Err(Error::BufferSize));
    let mut f = FadeLinear::new(ProgressMode::Tempo, 0.0, 1.0, &in_range).unwrap();
    assert_eq!(f.apply_rhythmic(&vec![1.0; 4], &mut samples, &vec![0.5], &times), Err(Error::BufferSize));
    assert_eq!(samples, vec![1.0, 1.0, 1.0]);
}

#[test]
fn const_rhythmic_follows_timer() {
    let g = AmplitudeConst::new(0.5);
    let mut samples = vec![2.0, 2.0, 2.0];
    let tempo = vec![1.0, 1.0, 1.0];
    assert_eq!(g.apply_rhythmic(&tempo, &mut samples, Err(Error::ItemsCompleted(1)), &times), Err(Error::ItemsCompleted(1)));
    assert_eq!(samples, vec![1.0, 2.0, 2.0]);
    assert_eq!(g.apply_rhythmic(&tempo, &mut samples, Ok(()), &times), Ok(()));
    assert_eq!(samples, vec![0.5, 1.0, 1.0]);
}

#[test]
fn decay_exp_half_life() {
    let sample_rate = 1000.0;
    let half_life = 1.0;
    let multiplier = 0.5f64.powf((1.0 / sample_rate) / half_life);
    assert!((multiplier - 0.999307).abs() < 1e-6);
    let mut g = AmplitudeDecayExp::new(1.0, multiplier);
    for _ in 0..1000 {
        let mut samples = vec![1.0];
        assert_eq!(g.apply(&mut samples, &times), Ok(()));
        assert!(close(samples[0], g.get_amplitude()));
    }
    assert!((g.get_amplitude() - 0.5).abs() < 1e-9);
    assert_eq!(g.get_max(), g.get_amplitude());
}

#[test]
fn decay_exp_steps_once_per_sample() {
    let mut g = AmplitudeDecayExp::new(1.0, 0.5);
    let mut samples = vec![1.0, 1.0, 1.0];
    assert_eq!(g.apply(&mut samples, &times), Ok(()));
    assert_eq!(samples, vec![0.5, 0.25, 0.125]);
    assert_eq!(g.get_amplitude(), 0.125);
}

#[test]
fn decay_exp_partial_completion() {
    let mut g = AmplitudeDecayExp::new(1.0, 0.5);
    assert_eq!(g.set_timing(Some(2)), Ok(()));
    let mut samples = vec![4.0, 4.0, 4.0, 4.0];
    assert_eq!(g.apply(&mut samples, &times), Err(Error::ItemsCompleted(2)));
    assert_eq!(samples, vec![2.0, 1.0, 4.0, 4.0]);
    assert_eq!(g.get_amplitude(), 0.25);
    assert_eq!(g.set_amplitude_start(0.8, &in_range), Ok(()));
    assert_eq!(g.get_amplitude(), 0.8);
    let mut again = vec![1.0, 1.0, 1.0];
    assert_eq!(g.apply(&mut again, &times), Err(Error::ItemsCompleted(2)));
    assert_eq!(again, vec![0.4, 0.2, 1.0]);
    assert_eq!(g.set_amplitude_start(2.0, &in_range), Err(Error::AmplitudeInvalid));
}

#[test]
fn tremolo_multiplier() {
    let gain = |n: f64, e: f64, phase: f64| n * e.powf(phase.sin());
    let t = Tremolo::new(ProgressMode::Time, 2.0, &|r: f64| r > 1.0, &|r: f64| 1.0 / r).unwrap();
    assert!(close(t.multiplier(0.0, &gain), 0.5));
    assert!(close(t.multiplier(std::f64::consts::FRAC_PI_2, &gain), 1.0));
    assert!(close(t.multiplier(-std::f64::consts::FRAC_PI_2, &gain), 0.25));
}

#[test]
fn tremolo_rejects_small_extent() {
    let above_one = |r: f64| r > 1.0;
    let reciprocal = |r: f64| 1.0 / r;
    assert!(matches!(Tremolo::new(ProgressMode::Time, 1.0, &above_one, &reciprocal), Err(Error::AmplitudeInvalid)));
    assert!(matches!(Tremolo::new(ProgressMode::Time, 0.5, &above_one, &reciprocal), Err(Error::AmplitudeInvalid)));
}

#[test]
fn tremolo_apply_and_mode() {
    let t = Tremolo::new(ProgressMode::Time, 2.0, &|r: f64| r > 1.0, &|r: f64| 1.0 / r).unwrap();
    let mut samples = vec![1.0, 1.0, 1.0];
    assert_eq!(t.apply(&mut samples, &vec![0.5, 1.0], &times), Err(Error::ItemsCompleted(2)));
    assert_eq!(samples, vec![0.5, 1.0, 1.0]);
    let tempo = vec![1.0, 1.0, 1.0];
    assert_eq!(t.apply_rhythmic(&tempo, &mut samples, &vec![0.5], &times), Err(Error::ProgressInvalid));
    assert_eq!(samples, vec![0.5, 1.0, 1.0]);
}

#[test]
fn fade_linear_splice() {
    let mut a = FadeLinear::new(ProgressMode::Time, 0.0, 1.0, &in_range).unwrap();
    assert_eq!(a.get_amplitude(), 0.0);
    let mut samples = vec![1.0, 1.0];
    assert_eq!(a.apply(&mut samples, &vec![0.2, 0.4], &times), Ok(()));
    assert_eq!(samples, vec![0.2, 0.4]);
    let x = a.get_amplitude();
    assert_eq!(x, 0.4);
    let mut b = FadeLinear::new(ProgressMode::Time, 0.0, 0.0, &in_range).unwrap();
    assert_eq!(b.set_amplitude_start(x, &in_range), Ok(()));
    assert_eq!(b.get_amplitude(), x);
    assert_eq!(b.get_max(&f64::max), 0.4);
}

#[test]
fn fade_linear_errors() {
    assert!(matches!(FadeLinear::new(ProgressMode::Time, 0.0, 1.2, &in_range), Err(Error::AmplitudeInvalid)));
    let mut f = FadeLinear::new(ProgressMode::Tempo, 0.0, 0.8, &in_range).unwrap();
    assert_eq!(f.get_max(&f64::max), 0.8);
    let mut samples = vec![1.0, 1.0, 1.0];
    assert_eq!(f.apply(&mut samples, &vec![0.5], &times), Err(Error::ProgressInvalid));
    assert_eq!(samples, vec![1.0, 1.0, 1.0]);
    let tempo = vec![2.0, 2.0, 2.0];
    assert_eq!(f.apply_rhythmic(&tempo, &mut samples, &vec![0.1, 0.2], &times), Err(Error::ItemsCompleted(2)));
    assert_eq!(samples, vec![0.1, 0.2, 1.0]);
    assert_eq!(f.get_amplitude(), 0.2);
    assert_eq!(f.set_amplitude_start(-0.1, &in_range), Err(Error::AmplitudeInvalid));
    assert_eq!(f.get_amplitude(), 0.2);
}
