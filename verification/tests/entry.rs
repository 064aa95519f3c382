use noise_generator::config::Config;
use noise_generator::dsp::{BUFFER_FRAMES, CHANNELS, SAMPLE_RATE, SAMPLE_RATE_BITS};
use noise_generator::entry::{split_unit, Parted, Setting, SEED_CEILING_BITS};
use noise_generator::single::Single;

fn s(x: f32) -> Single {
    Single::from_bits(x.to_bits())
}

fn f(x: Single) -> f32 {
    f32::from_bits(x.to_bits())
}

fn chars(text: &str) -> Vec<char> {
    text.chars().collect()
}

fn split(text: &str) -> Option<(String, bool)> {
    let t = chars(text);
    split_unit(&t).map(|p| (t[..p.digits].iter().collect(), p.kilo))
}

const ALL: [Setting; 13] = [
    Setting::Volume,
    Setting::Alpha,
    Setting::BandLowLo,
    Setting::BandLowHi,
    Setting::BandMidLo,
    Setting::BandMidHi,
    Setting::BandHighLo,
    Setting::BandHighHi,
    Setting::BandVolumeLow,
    Setting::BandVolumeMid,
    Setting::BandVolumeHigh,
    Setting::BassBoost,
    Setting::Seed,
];

#[test]
fn stream_constants() {
    assert_eq!(CHANNELS, 2);
    assert_eq!(SAMPLE_RATE, 48000);
    assert_eq!(SAMPLE_RATE_BITS, 48000.0f32.to_bits());
    assert_eq!(BUFFER_FRAMES, 1024);
    assert_eq!(SEED_CEILING_BITS, 65535.0f32.to_bits());
}

#[test]
fn limits_of_each_setting() {
    let want = [
        (0.0f32, 1.0f32),
        (0.9, 0.9999),
        (1.0, 1000.0),
        (1.0, 1000.0),
        (1.0, 5000.0),
        (1.0, 5000.0),
        (1.0, 10000.0),
        (1.0, 10000.0),
        (0.0, 10.0),
        (0.0, 10.0),
        (0.0, 10.0),
        (0.0, 10.0),
        (0.0, 65535.0),
    ];
    for (setting, (lo, hi)) in ALL.iter().zip(want) {
        let (a, b) = setting.limits();
        assert_eq!((f(a), f(b)), (lo, hi), "{setting:?}");
    }
}

#[test]
fn confine_agrees_with_machine_clamp() {
    let values = [-5.0f32, -0.0, 0.0, 0.5, 0.95, 1.0, 7.0, 10.0, 999.0, 1000.0, 4000.0, 9000.0, 65535.0, 70000.0, f32::NAN];
    for setting in ALL {
        let (lo, hi) = setting.limits();
        for x in values {
            let got = setting.confine(s(x));
            assert_eq!(got.to_bits(), x.clamp(f(lo), f(hi)).to_bits(), "{setting:?} {x:?}");
        }
    }
}

#[test]
fn confine_examples() {
    assert_eq!(f(Setting::Volume.confine(s(1.5))), 1.0);
    assert_eq!(f(Setting::Alpha.confine(s(0.5))), 0.9);
    assert_eq!(f(Setting::BandLowHi.confine(s(2000.0))), 1000.0);
    assert_eq!(f(Setting::BandMidLo.confine(s(0.0))), 1.0);
    assert_eq!(f(Setting::BandHighHi.confine(s(12000.0))), 10000.0);
    assert_eq!(f(Setting::BassBoost.confine(s(-1.0))), 0.0);
    assert_eq!(f(Setting::Seed.confine(s(1.0e6))), 65535.0);
    assert_eq!(f(Setting::Seed.confine(s(42.0))), 42.0);
}

#[test]
fn empty_text_has_no_number() {
    assert_eq!(split_unit(&[]), None);
}

#[test]
fn plain_number_keeps_all_characters() {
    assert_eq!(split("440"), Some(("440".to_string(), false)));
    assert_eq!(split("0.5"), Some(("0.5".to_string(), false)));
    assert_eq!(split_unit(&chars("12.5")), Some(Parted { digits: 4, kilo: false }));
}

#[test]
fn percent_sign_is_dropped() {
    assert_eq!(split("75%"), Some(("75".to_string(), false)));
    assert_eq!(split("%"), Some(("".to_string(), false)));
    assert_eq!(split("5%%"), Some(("5%".to_string(), false)));
}

#[test]
fn kilo_units_are_understood() {
    assert_eq!(split("2k"), Some(("2".to_string(), true)));
    assert_eq!(split("2khz"), Some(("2".to_string(), true)));
    assert_eq!(split("1.5 khz"), Some(("1.5 ".to_string(), true)));
    assert_eq!(split("k"), Some(("".to_string(), true)));
    assert_eq!(split("khz"), Some(("".to_string(), true)));
    assert_eq!(split("2k%"), Some(("2".to_string(), true)));
    assert_eq!(split("2khz%"), Some(("2".to_string(), true)));
}

#[test]
fn other_units_stay_in_the_number() {
    assert_eq!(split("2hz"), Some(("2hz".to_string(), false)));
    assert_eq!(split("2kh"), Some(("2kh".to_string(), false)));
    assert_eq!(split("2%k"), Some(("2%".to_string(), true)));
    assert_eq!(split("hz"), Some(("hz".to_string(), false)));
    assert_eq!(split("2kk"), Some(("2k".to_string(), true)));
}

#[test]
fn absorb_takes_the_seed_only_when_fixed() {
    let mut held = Config::default();
    held.seed = 11;
    let mut entered = Config::default();
    entered.random = true;
    entered.seed = 99;
    entered.volume = s(0.5);
    held.absorb(&entered);
    assert_eq!(held.seed, 11);
    assert!(held.random);
    assert_eq!(f(held.volume), 0.5);

    entered.random = false;
    held.absorb(&entered);
    assert_eq!(held.seed, 99);
    assert!(!held.random);

    entered.seed = 1_000_000;
    held.absorb(&entered);
    assert_eq!(held.seed, 65535);
}

#[test]
fn absorb_sanitizes_what_it_takes() {
    let mut held = Config::default();
    let mut entered = Config::default();
    entered.volume = s(3.0);
    entered.alpha = s(0.1);
    entered.enable_mid = false;
    entered.band_low = [s(900.0), s(5.0)];
    entered.band_mid = [s(100.0), s(200.0)];
    entered.band_high = [s(8000.0), s(20000.0)];
    entered.bass_boost = s(11.0);
    held.absorb(&entered);
    assert_eq!(f(held.volume), 1.0);
    assert_eq!(f(held.alpha), 0.9);
    assert!(!held.enable_mid);
    assert_eq!([f(held.band_low[0]), f(held.band_low[1])], [5.0, 900.0]);
    assert_eq!([f(held.band_mid[0]), f(held.band_mid[1])], [900.0, 900.0]);
    assert_eq!([f(held.band_high[0]), f(held.band_high[1])], [8000.0, 10000.0]);
    assert_eq!(f(held.bass_boost), 10.0);
}
