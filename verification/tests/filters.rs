use noise_generator::arithmetic::Arithmetic;
use noise_generator::bass_boost::{BassBoost, BiquadExt};
use noise_generator::biquad::Biquad;
use noise_generator::channel::integrate;
use noise_generator::single::Single;

struct Ieee;

fn s(x: f32) -> Single {
    Single::from_bits(x.to_bits())
}

fn f(x: Single) -> f32 {
    f32::from_bits(x.to_bits())
}

impl Arithmetic for Ieee {
    fn sum(&self, a: Single, b: Single) -> Single {
        s(f(a) + f(b))
    }
    fn difference(&self, a: Single, b: Single) -> Single {
        s(f(a) - f(b))
    }
    fn product(&self, a: Single, b: Single) -> Single {
        s(f(a) * f(b))
    }
    fn quotient(&self, a: Single, b: Single) -> Single {
        s(f(a) / f(b))
    }
    fn square_root(&self, a: Single) -> Single {
        s(f(a).sqrt())
    }
    fn sine(&self, a: Single) -> Single {
        s(f(a).sin())
    }
    fn cosine(&self, a: Single) -> Single {
        s(f(a).cos())
    }
    fn power(&self, base: Single, exponent: Single) -> Single {
        s(f(base).powf(f(exponent)))
    }
}

/// The bandpass design written out in machine arithmetic: b0, b1, b2, a1, a2.
fn bandpass_by_hand(sample_rate: f32, low_hz: f32, high_hz: f32) -> [f32; 5] {
    let center = (low_hz * high_hz).sqrt();
    let omega = 2.0 * std::f32::consts::PI * center / sample_rate;
    let sin_w = omega.sin();
    let alpha = sin_w / (2.0 * (center / (high_hz - low_hz)));
    let cos_w = omega.cos();
    let skirt = sin_w / 2.0;
    let inv = 1.0 / (1.0 + alpha);
    [skirt * inv, 0.0 * inv, -skirt * inv, (-2.0 * cos_w) * inv, (1.0 - alpha) * inv]
}

/// The low-shelf design written out in machine arithmetic: b0, b1, b2, a1, a2.
fn lowshelf_by_hand(sample_rate: f32, freq: f32, gain_db: f32) -> [f32; 5] {
    let a = 10.0_f32.powf(gain_db / 40.0);
    let omega = 2.0 * std::f32::consts::PI * freq / sample_rate;
    let sin_w = omega.sin();
    let cos_w = omega.cos();
    let beta = (2.0 * a).sqrt();
    let b0 = a * ((a + 1.0) - (a - 1.0) * cos_w + beta * sin_w);
    let b1 = 2.0 * a * ((a - 1.0) - (a + 1.0) * cos_w);
    let b2 = a * ((a + 1.0) - (a - 1.0) * cos_w - beta * sin_w);
    let a0 = (a + 1.0) + (a - 1.0) * cos_w + beta * sin_w;
    let a1 = -2.0 * ((a - 1.0) + (a + 1.0) * cos_w);
    let a2 = (a + 1.0) + (a - 1.0) * cos_w - beta * sin_w;
    [b0 / a0, b1 / a0, b2 / a0, a1 / a0, a2 / a0]
}

/// The gain that a section settles at under a constant input.
fn settled_gain(q: &mut Biquad) -> f32 {
    let mut out = 0.0;
    for _ in 0..48000 {
        out = f(q.process(&Ieee, s(1.0)));
    }
    out
}

/// The gain of a section for a sine of `hz`: output over input, root mean
/// square, after the start has died away.
fn gain_at(q: &mut Biquad, hz: f32) -> f32 {
    let mut input = 0.0f64;
    let mut output = 0.0f64;
    for n in 0..96000 {
        let x = (2.0 * std::f64::consts::PI * (hz as f64) * (n as f64) / 48000.0).sin() as f32;
        let y = f(q.process(&Ieee, s(x)));
        if n >= 48000 {
            input += (x as f64) * (x as f64);
            output += (y as f64) * (y as f64);
        }
    }
    (output / input).sqrt() as f32
}

fn coefficients(q: &Biquad) -> [u32; 5] {
    [q.b0.to_bits(), q.b1.to_bits(), q.b2.to_bits(), q.a1.to_bits(), q.a2.to_bits()]
}

fn patterns(c: [f32; 5]) -> [u32; 5] {
    [c[0].to_bits(), c[1].to_bits(), c[2].to_bits(), c[3].to_bits(), c[4].to_bits()]
}

fn history(q: &Biquad) -> [u32; 4] {
    [q.x1.to_bits(), q.x2.to_bits(), q.y1.to_bits(), q.y2.to_bits()]
}

#[test]
fn new_biquad_is_the_identity_at_rest() {
    let mut q = Biquad::new();
    assert_eq!(f(q.a0), 1.0);
    assert_eq!(f(q.b0), 1.0);
    assert_eq!(coefficients(&q)[1..], [0, 0, 0, 0]);
    assert_eq!(history(&q), [0, 0, 0, 0]);
    for x in [0.5f32, -0.25, 0.0, 1.0, -1.0, 0.125] {
        assert_eq!(f(q.process(&Ieee, s(x))), x);
    }
}

#[test]
fn bandpass_is_normalized_for_valid_bounds() {
    let bounds = [
        (10.0f32, 500.0f32),
        (60.0, 1000.0),
        (100.0, 10000.0),
        (1.0, 2.0),
        (1.0, 1000.0),
        (999.0, 1000.0),
        (5000.0, 10000.0),
    ];
    for (lo, hi) in bounds {
        let mut q = Biquad::new();
        q.update_bandpass(&Ieee, s(48000.0), s(lo), s(hi));
        assert_eq!(q.a0.to_bits(), 1.0f32.to_bits(), "a0 for [{lo}, {hi}]");
        let first = f(q.process(&Ieee, s(1.0)));
        assert_eq!(first, f(q.b0));
        let mut last = first;
        for _ in 0..64 {
            last = f(q.process(&Ieee, s(0.0)));
            assert!(last.is_finite());
        }
        assert!(last.abs() <= 1.0);
        assert_eq!(q.a0.to_bits(), 1.0f32.to_bits());
    }
}

#[test]
fn bandpass_coefficients_have_their_exact_values() {
    for (lo, hi) in [(10.0f32, 500.0f32), (60.0, 1000.0), (100.0, 10000.0)] {
        let mut q = Biquad::new();
        q.update_bandpass(&Ieee, s(48000.0), s(lo), s(hi));
        assert_eq!(coefficients(&q), patterns(bandpass_by_hand(48000.0, lo, hi)));
    }
    let mut q = Biquad::new();
    q.update_bandpass(&Ieee, s(48000.0), s(100.0), s(10000.0));
    assert!(f(q.b0) > 0.0);
    assert_eq!(f(q.b1), 0.0);
    assert_eq!(f(q.b2), -f(q.b0));
}

#[test]
fn update_bandpass_keeps_the_history() {
    let mut q = Biquad::new();
    q.update_bandpass(&Ieee, s(48000.0), s(60.0), s(1000.0));
    q.process(&Ieee, s(0.5));
    q.process(&Ieee, s(-0.25));
    let before = history(&q);
    q.update_bandpass(&Ieee, s(48000.0), s(100.0), s(10000.0));
    assert_eq!(history(&q), before);
}

#[test]
fn normalize_divides_through_by_a0() {
    let mut q = Biquad::new();
    q.a0 = s(4.0);
    q.b0 = s(2.0);
    q.b1 = s(-1.0);
    q.b2 = s(8.0);
    q.a1 = s(0.5);
    q.a2 = s(-6.0);
    q.normalize(&Ieee);
    assert_eq!(f(q.a0), 1.0);
    assert_eq!(f(q.b0), 0.5);
    assert_eq!(f(q.b1), -0.25);
    assert_eq!(f(q.b2), 2.0);
    assert_eq!(f(q.a1), 0.125);
    assert_eq!(f(q.a2), -1.5);
}

#[test]
fn process_evaluates_the_difference_equation() {
    let mut q = Biquad::new();
    q.b0 = s(0.5);
    q.b1 = s(0.25);
    q.b2 = s(-0.5);
    q.a1 = s(0.5);
    q.a2 = s(-0.25);
    // y0 = 0.5*1
    assert_eq!(f(q.process(&Ieee, s(1.0))), 0.5);
    // y1 = 0.5*2 + 0.25*1 - 0.5*0.5
    assert_eq!(f(q.process(&Ieee, s(2.0))), 1.0);
    // y2 = 0.5*4 + 0.25*2 - 0.5*1 - 0.5*1.0 + 0.25*0.5
    assert_eq!(f(q.process(&Ieee, s(4.0))), 1.625);
    assert_eq!(history(&q), [4.0f32.to_bits(), 2.0f32.to_bits(), 1.625f32.to_bits(), 1.0f32.to_bits()]);
}

#[test]
fn process_matches_machine_arithmetic_sample_for_sample() {
    let c = bandpass_by_hand(48000.0, 60.0, 1000.0);
    let mut q = Biquad::new();
    q.update_bandpass(&Ieee, s(48000.0), s(60.0), s(1000.0));
    let (mut x1, mut x2, mut y1, mut y2) = (0.0f32, 0.0f32, 0.0f32, 0.0f32);
    let mut input = 0.37f32;
    for _ in 0..200 {
        let want = c[0] * input + c[1] * x1 + c[2] * x2 - c[3] * y1 - c[4] * y2;
        x2 = x1;
        x1 = input;
        y2 = y1;
        y1 = want;
        let got = q.process(&Ieee, s(input));
        assert_eq!(got.to_bits(), want.to_bits());
        input = -input * 0.97 + 0.01;
    }
}

#[test]
fn lowshelf_coefficients_have_their_exact_values() {
    for gain in [0.0f32, 3.0, 6.0, 10.0, -3.0, -6.0, -10.0] {
        let mut q = Biquad::new();
        q.update_lowshelf(&Ieee, s(48000.0), s(100.0), s(gain));
        assert_eq!(q.a0.to_bits(), 1.0f32.to_bits());
        assert_eq!(coefficients(&q), patterns(lowshelf_by_hand(48000.0, 100.0, gain)));
    }
}

#[test]
fn lowshelf_without_gain_has_unit_leading_coefficient() {
    let mut q = Biquad::new();
    q.update_lowshelf(&Ieee, s(48000.0), s(100.0), s(0.0));
    assert_eq!(f(q.b0), 1.0);
    assert_eq!(f(q.b1), f(q.a1));
    assert_eq!(f(q.b2), f(q.a2));
}

#[test]
fn new_bass_boost_has_no_gain() {
    let b = BassBoost::new(&Ieee, s(48000.0));
    assert_eq!(b.gain_db.to_bits(), 0);
    assert_eq!(f(b.sample_rate), 48000.0);
    assert!(b.is_bypassed());
    assert_eq!(history(&b.low_shelf), [0, 0, 0, 0]);
    assert_eq!(coefficients(&b.low_shelf), patterns(lowshelf_by_hand(48000.0, 100.0, 0.0)));
}

#[test]
fn bass_boost_without_gain_reproduces_its_input() {
    let mut b = BassBoost::new(&Ieee, s(48000.0));
    b.set_boost(&Ieee, s(0.0));
    let before = b;
    let inputs = [0.5f32, -0.5, 0.25, -0.25, 1.0, -1.0, 0.0, -0.0, 3.5e-12, 7.0e20, f32::INFINITY];
    for x in inputs {
        let y = b.process(&Ieee, s(x));
        assert_eq!(y.to_bits(), x.to_bits());
    }
    let y = b.process(&Ieee, s(f32::NAN));
    assert_eq!(y.to_bits(), f32::NAN.to_bits());
    assert_eq!(b, before);
}

#[test]
fn bass_boost_bypass_threshold() {
    let mut b = BassBoost::new(&Ieee, s(48000.0));
    b.set_boost(&Ieee, s(9.0e-7));
    assert!(b.is_bypassed());
    b.set_boost(&Ieee, s(-9.0e-7));
    assert!(b.is_bypassed());
    b.set_boost(&Ieee, s(-0.0));
    assert!(b.is_bypassed());
    b.set_boost(&Ieee, s(1.0e-6));
    assert!(!b.is_bypassed());
    b.set_boost(&Ieee, s(6.0));
    assert!(!b.is_bypassed());
    b.set_boost(&Ieee, s(f32::NAN));
    assert!(!b.is_bypassed());
}

#[test]
fn set_boost_stores_the_gain_and_designs_the_shelf() {
    let mut b = BassBoost::new(&Ieee, s(48000.0));
    b.set_boost(&Ieee, s(6.0));
    assert_eq!(f(b.gain_db), 6.0);
    assert_eq!(f(b.sample_rate), 48000.0);
    assert_eq!(coefficients(&b.low_shelf), patterns(lowshelf_by_hand(48000.0, 100.0, 6.0)));
    assert_eq!(b.low_shelf.a0.to_bits(), 1.0f32.to_bits());
}

#[test]
fn bass_boost_with_gain_filters() {
    let c = lowshelf_by_hand(48000.0, 100.0, 6.0);
    let mut b = BassBoost::new(&Ieee, s(48000.0));
    b.set_boost(&Ieee, s(6.0));
    let y = b.process(&Ieee, s(1.0));
    assert_eq!(y.to_bits(), (c[0] * 1.0 + c[1] * 0.0 + c[2] * 0.0 - c[3] * 0.0 - c[4] * 0.0).to_bits());
    assert_ne!(f(y), 1.0);
    assert_eq!(f(b.low_shelf.x1), 1.0);
    assert_eq!(b.low_shelf.y1, y);
}

#[test]
fn bass_boost_with_gain_settles_on_silence() {
    for gain in [1.0f32, 3.0, 6.0, 10.0, -1.0, -3.0, -6.0, -10.0, 1.0e-6, -1.0e-6] {
        let mut b = BassBoost::new(&Ieee, s(48000.0));
        b.set_boost(&Ieee, s(gain));
        for x in [1.0f32, -1.0, 0.5, 0.75] {
            b.process(&Ieee, s(x));
        }
        let start = f(b.low_shelf.y1).abs().max(f(b.low_shelf.y2).abs());
        assert!(start > 0.1);
        for _ in 0..48000 {
            let y = f(b.process(&Ieee, s(0.0)));
            assert!(y.is_finite());
        }
        let h = b.low_shelf;
        assert_eq!(f(h.x1), 0.0);
        assert_eq!(f(h.x2), 0.0);
        assert!(f(h.y1).abs() < 1e-6, "gain {gain}: y1 = {}", f(h.y1));
        assert!(f(h.y2).abs() < 1e-6, "gain {gain}: y2 = {}", f(h.y2));
    }
}

#[test]
fn integrator_first_step_has_its_exact_value() {
    let y = integrate(&Ieee, s(0.996), s(1.0), s(0.0));
    assert_eq!(y.to_bits(), ((1.0f32 - 0.996) * 1.0 + 0.996 * 0.0).to_bits());
    let z = integrate(&Ieee, s(0.5), s(1.0), s(0.5));
    assert_eq!(f(z), 0.75);
}

#[test]
fn integrator_approaches_a_constant_input_without_overshoot() {
    let mut brown = 0.0f32;
    for n in 0..20000 {
        let next = f(integrate(&Ieee, s(0.996), s(1.0), s(brown)));
        assert!(next >= brown, "step {n} fell from {brown} to {next}");
        assert!(next <= 1.0, "step {n} overshot to {next}");
        brown = next;
    }
    assert!(brown > 0.999);
}

#[test]
fn bandpass_has_its_skirt_gain() {
    // b0 before normalization is sin(omega) / 2, whatever the bandwidth.
    for (lo, hi) in [(10.0f32, 500.0f32), (60.0, 1000.0), (100.0, 10000.0)] {
        let mut q = Biquad::new();
        q.update_bandpass(&Ieee, s(48000.0), s(lo), s(hi));
        let center = (lo * hi).sqrt();
        let omega = 2.0 * std::f32::consts::PI * center / 48000.0;
        let alpha = omega.sin() / (2.0 * (center / (hi - lo)));
        let a0 = 1.0 + alpha;
        assert!((f(q.b0) * a0 - omega.sin() / 2.0).abs() < 1e-6, "[{lo}, {hi}]");
        assert_eq!(f(q.b1), 0.0);
        assert_eq!(f(q.b2), -f(q.b0));
    }
    let mut q = Biquad::new();
    q.update_bandpass(&Ieee, s(48000.0), s(10.0), s(500.0));
    assert!((f(q.b0) - 0.0045).abs() < 0.0002, "b0 = {}", f(q.b0));
}

#[test]
fn bandpass_peaks_at_its_centre_with_gain_q() {
    let (lo, hi) = (500.0f32, 2000.0f32);
    let center = (lo * hi).sqrt();
    let quality = center / (hi - lo);
    let mut q = Biquad::new();
    q.update_bandpass(&Ieee, s(48000.0), s(lo), s(hi));
    let at_centre = gain_at(&mut q, center);
    assert!((at_centre - quality).abs() < 0.02 * quality, "peak {at_centre}, q {quality}");
    let mut below = Biquad::new();
    below.update_bandpass(&Ieee, s(48000.0), s(lo), s(hi));
    assert!(gain_at(&mut below, 50.0) < 0.2 * at_centre);
    let mut above = Biquad::new();
    above.update_bandpass(&Ieee, s(48000.0), s(lo), s(hi));
    assert!(gain_at(&mut above, 15000.0) < 0.2 * at_centre);
}

#[test]
fn zero_width_band_is_not_refused() {
    let mut q = Biquad::new();
    q.update_bandpass(&Ieee, s(48000.0), s(500.0), s(500.0));
    assert_eq!(q.a0.to_bits(), 1.0f32.to_bits());
    assert_eq!(coefficients(&q), patterns(bandpass_by_hand(48000.0, 500.0, 500.0)));
    // The centre over a bandwidth of zero is infinite, so `alpha` is zero
    // and nothing damps the section.
    assert_eq!(f(q.a2), 1.0);
    assert!(f(q.b0) > 0.0);
}

#[test]
fn inverted_band_goes_through_the_same_equations() {
    let mut q = Biquad::new();
    q.update_bandpass(&Ieee, s(48000.0), s(1000.0), s(60.0));
    assert_eq!(q.a0.to_bits(), 1.0f32.to_bits());
    assert_eq!(coefficients(&q), patterns(bandpass_by_hand(48000.0, 1000.0, 60.0)));
    assert!(f(q.a2) > 1.0);
}

#[test]
fn negative_bound_gives_nan_coefficients_under_a_unit_a0() {
    let mut q = Biquad::new();
    q.update_bandpass(&Ieee, s(48000.0), s(-10.0), s(500.0));
    assert_eq!(q.a0.to_bits(), 1.0f32.to_bits());
    assert!(f(q.b0).is_nan());
    assert!(f(q.a1).is_nan());
    assert!(q.b0.is_nan());
    assert!(f(q.process(&Ieee, s(1.0))).is_nan());
}

#[test]
fn shelf_is_finite_for_a_cut_and_for_a_boost() {
    for gain in [-40.0f32, -10.0, -6.0, -1.0, -1.0e-6, 0.0, 1.0e-6, 1.0, 6.0, 10.0, 40.0] {
        let mut b = BassBoost::new(&Ieee, s(48000.0));
        b.set_boost(&Ieee, s(gain));
        assert_eq!(f(b.gain_db), gain);
        assert_eq!(b.low_shelf.a0.to_bits(), 1.0f32.to_bits());
        for c in coefficients(&b.low_shelf) {
            assert!(f32::from_bits(c).is_finite(), "gain {gain}");
            assert!(Single::from_bits(c).is_finite());
        }
    }
}

#[test]
fn shelf_lifts_or_lowers_the_bass_by_its_gain() {
    for gain in [-10.0f32, -6.0, -3.0, 3.0, 6.0, 10.0] {
        let mut b = BassBoost::new(&Ieee, s(48000.0));
        b.set_boost(&Ieee, s(gain));
        let want = 10.0f32.powf(gain / 20.0);
        let got = settled_gain(&mut b.low_shelf);
        assert!((got - want).abs() < 0.02 * want, "gain {gain}: {got} for {want}");
        let mut high = BassBoost::new(&Ieee, s(48000.0));
        high.set_boost(&Ieee, s(gain));
        let up = gain_at(&mut high.low_shelf, 8000.0);
        assert!((up - 1.0).abs() < 0.02, "gain {gain}: {up} at 8 kHz");
    }
}

#[test]
fn shelf_with_a_cut_filters_and_settles() {
    let c = lowshelf_by_hand(48000.0, 100.0, -6.0);
    let mut b = BassBoost::new(&Ieee, s(48000.0));
    b.set_boost(&Ieee, s(-6.0));
    assert!(!b.is_bypassed());
    let y = b.process(&Ieee, s(1.0));
    assert_eq!(y.to_bits(), (c[0] * 1.0 + c[1] * 0.0 + c[2] * 0.0 - c[3] * 0.0 - c[4] * 0.0).to_bits());
    assert!(f(y) < 1.0 && f(y) > 0.9);
    for _ in 0..48000 {
        assert!(f(b.process(&Ieee, s(0.0))).is_finite());
    }
    assert!(f(b.low_shelf.y1).abs() < 1e-6);
}
