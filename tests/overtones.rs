use music::amplitude_overtones::{AmplitudeConstOvertones, AmplitudeDecayExpOvertones};
use music::error::Error;

fn is_negative(a: f64) -> bool {
    a < 0.0
}

fn plus(x: f64, y: f64) -> f64 {
    x + y
}

fn is_zero(a: f64) -> bool {
    a == 0.0
}

fn divide(x: f64, y: f64) -> f64 {
    x / y
}

fn times(x: f64, y: f64) -> f64 {
    x * y
}

fn in_range(a: f64) -> bool {
    (0.0..=1.0).contains(&a)
}

fn sum_ok(s: f64) -> bool {
    s > 0.0 && s <= 1.0
}

fn constant(count: usize, amplitude: &[f64]) -> Result<AmplitudeConstOvertones<f64>, Error> {
    AmplitudeConstOvertones::new(count, &amplitude.to_vec(), 0.0, &is_negative, &plus, &is_zero, &divide)
}

fn decaying(count: usize, amplitude: &[f64], half_life: &[f64]) -> Result<AmplitudeDecayExpOvertones<f64>, Error> {
    let sample_time = 1.0 / 1000.0;
    let to_multiplier = move |hl: f64| 0.5f64.powf(sample_time / hl);
    AmplitudeDecayExpOvertones::new(
        count,
        &amplitude.to_vec(),
        &half_life.to_vec(),
        0.0,
        &is_negative,
        &plus,
        &is_zero,
        &divide,
        &|hl: f64| hl > 0.0,
        &to_multiplier,
    )
}

fn values(g: &AmplitudeConstOvertones<f64>, slots: usize) -> Vec<f64> {
    (0..slots)
        .map(|o| {
            let mut r = vec![9.0];
            g.get(o, &mut r, 0.0).unwrap();
            r[0]
        })
        .collect()
}

#[test]
fn const_overtones_normalized() {
    let g = constant(1, &[1.0, 0.5]).unwrap();
    let mut r = vec![1.0, 1.0];
    assert_eq!(g.get(0, &mut r, 0.0), Ok(()));
    assert!((r[0] - 2.0 / 3.0).abs() < 1e-12 && (r[1] - 2.0 / 3.0).abs() < 1e-12);
    let mut r1 = vec![1.0];
    assert_eq!(g.get(1, &mut r1, 0.0), Ok(()));
    assert!((r1[0] - 1.0 / 3.0).abs() < 1e-12);
    let mut out = vec![1.0];
    assert_eq!(g.get(2, &mut out, 0.0), Ok(()));
    assert_eq!(out, vec![0.0]);
}

#[test]
fn const_overtones_sum_to_one() {
    let g = constant(3, &[3.0, 1.0, 4.0, 1.0, 5.0]).unwrap();
    let v = values(&g, 4);
    assert!((v.iter().sum::<f64>() - 1.0).abs() < 1e-12);
    assert_eq!(v[2], 0.4444444444444444);
    let short = constant(3, &[2.0, 2.0]).unwrap();
    assert_eq!(values(&short, 5), vec![0.5, 0.5, 0.0, 0.0, 0.0]);
}

#[test]
fn const_overtones_invalid() {
    assert!(matches!(constant(2, &[0.0, 0.0, 0.0]), Err(Error::AmplitudeInvalid)));
    assert!(matches!(constant(2, &[1.0, -0.5, 1.0]), Err(Error::AmplitudeInvalid)));
    assert!(matches!(constant(2, &[]), Err(Error::AmplitudeInvalid)));
    assert!(constant(0, &[1.0, -0.5]).is_ok());
}

#[test]
fn const_overtones_apply() {
    let g = constant(1, &[3.0, 1.0]).unwrap();
    let mut s = vec![2.0, 4.0];
    assert_eq!(g.apply(1, &mut s, 0.0, &times), Ok(()));
    assert_eq!(s, vec![0.5, 1.0]);
    let mut t = vec![2.0, 4.0];
    assert_eq!(g.apply(5, &mut t, 0.0, &times), Ok(()));
    assert_eq!(t, vec![0.0, 0.0]);
    g.restart();
    assert_eq!(values(&g, 2), vec![0.75, 0.25]);
}

#[test]
fn const_overtones_join() {
    let mut g = constant(2, &[1.0, 1.0, 1.0]).unwrap();
    assert_eq!(g.set_amplitude_start(&vec![0.1, 0.1, 0.1, 0.1], 0.0, &in_range, &plus, &sum_ok), Err(Error::OvertoneCountInvalid));
    assert_eq!(g.set_amplitude_start(&vec![1.5], 0.0, &in_range, &plus, &sum_ok), Err(Error::AmplitudeInvalid));
    assert_eq!(g.set_amplitude_start(&vec![0.6, 0.6], 0.0, &in_range, &plus, &sum_ok), Err(Error::AmplitudeInvalid));
    assert_eq!(g.set_amplitude_start(&vec![0.0, 0.0], 0.0, &in_range, &plus, &sum_ok), Err(Error::AmplitudeInvalid));
    assert_eq!(g.set_amplitude_start(&vec![0.5, 0.25], 0.0, &in_range, &plus, &sum_ok), Ok(()));
    assert_eq!(values(&g, 3), vec![0.5, 0.25, 0.0]);
}

#[test]
fn decay_overtones_rate_invalid() {
    assert!(matches!(decaying(1, &[1.0, 1.0], &[1.0, 0.0]), Err(Error::AmplitudeRateInvalid)));
    assert!(matches!(decaying(1, &[1.0, 1.0], &[-1.0]), Err(Error::AmplitudeRateInvalid)));
    assert!(matches!(decaying(1, &[0.0, 0.0], &[0.0]), Err(Error::AmplitudeInvalid)));
}

#[test]
fn decay_overtones_monotonic() {
    let mut g = decaying(1, &[1.0, 1.0], &[0.01, 0.001]).unwrap();
    let mut last = [0.5, 0.5];
    for _ in 0..10 {
        for (o, prev) in last.iter_mut().enumerate() {
            let mut r = vec![0.0; 4];
            assert_eq!(g.get(o, &mut r, 0.0, &times), Ok(()));
            for v in &r {
                assert!(*v <= *prev);
                *prev = *v;
            }
        }
    }
    assert!(last[1] < last[0]);
}

#[test]
fn decay_overtones_apply_and_restart() {
    let mut g = decaying(1, &[1.0, 3.0], &[0.001]).unwrap();
    let m = 0.5f64.powf(1.0);
    let mut s = vec![2.0, 2.0];
    assert_eq!(g.apply(0, &mut s, 0.0, &times), Ok(()));
    assert!((s[0] - 2.0 * 0.25 * m).abs() < 1e-12);
    assert!((s[1] - 2.0 * 0.25 * m * m).abs() < 1e-12);
    let mut gone = vec![2.0];
    assert_eq!(g.apply(1, &mut gone, 0.0, &times), Ok(()));
    assert_eq!(gone, vec![0.0]);
    let mut out = vec![2.0];
    assert_eq!(g.apply(7, &mut out, 0.0, &times), Ok(()));
    assert_eq!(out, vec![0.0]);
    g.restart();
    let mut r = vec![0.0];
    assert_eq!(g.get(0, &mut r, 0.0, &times), Ok(()));
    assert!((r[0] - 0.25 * m).abs() < 1e-12);
}

#[test]
fn decay_overtones_join() {
    let mut g = decaying(1, &[1.0, 1.0], &[1.0, 1.0]).unwrap();
    assert_eq!(g.set_amplitude_start(&vec![0.5, 0.2, 0.1], 0.0, &in_range, &plus, &sum_ok), Err(Error::OvertoneCountInvalid));
    assert_eq!(g.set_amplitude_start(&vec![0.7, 0.4], 0.0, &in_range, &plus, &sum_ok), Err(Error::AmplitudeInvalid));
    assert_eq!(g.set_amplitude_start(&vec![0.8], 0.0, &in_range, &plus, &sum_ok), Ok(()));
    let mut r = vec![0.0];
    assert_eq!(g.get(1, &mut r, 0.0, &times), Ok(()));
    assert_eq!(r, vec![0.0]);
    g.restart();
    assert_eq!(g.get(1, &mut r, 0.0, &times), Ok(()));
    assert!(r[0] > 0.49 && r[0] < 0.5);
}
