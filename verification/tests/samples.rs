use web_audio_osc::binary32::{
    is_nan_pattern, less_than, magnitude_of, negate, POS_INFINITY, SIGN_BIT,
};
use web_audio_osc::node::{
    detune_options, frequency_options, AutomationRate, DEFAULT_FREQUENCY,
};
use web_audio_osc::normalization::{peak, peak_index};

fn values() -> Vec<f32> {
    vec![
        0.0,
        -0.0,
        1.0,
        -1.0,
        0.5,
        -0.5,
        1.1,
        -1.1,
        440.0,
        22050.0,
        -22050.0,
        f32::MIN_POSITIVE,
        -f32::MIN_POSITIVE,
        1e-45,
        -1e-45,
        f32::MAX,
        f32::MIN,
        f32::INFINITY,
        f32::NEG_INFINITY,
        f32::NAN,
        -f32::NAN,
    ]
}

fn bits(values: &[f32]) -> Vec<u32> {
    values.iter().map(|v| v.to_bits()).collect()
}

#[test]
fn single_precision_constants_are_the_patterns_they_name() {
    assert_eq!(POS_INFINITY, f32::INFINITY.to_bits());
    assert_eq!(SIGN_BIT, (-0.0f32).to_bits());
}

#[test]
fn single_precision_order_agrees_with_the_hardware() {
    for a in values() {
        for b in values() {
            assert_eq!(less_than(a.to_bits(), b.to_bits()), a < b, "{} < {}", a, b);
        }
    }
}

#[test]
fn single_precision_nans_are_recognized() {
    for v in values() {
        assert_eq!(is_nan_pattern(v.to_bits()), v.is_nan());
        assert_eq!(magnitude_of(v.to_bits()), v.abs().to_bits());
    }
}

#[test]
fn negate_flips_the_sign() {
    for v in values() {
        assert_eq!(negate(v.to_bits()), (-v).to_bits());
        assert_eq!(negate(negate(v.to_bits())), v.to_bits());
    }
    assert_eq!(f32::from_bits(negate(22050.0f32.to_bits())), -22050.0);
    assert_eq!(negate(0), SIGN_BIT);
    assert_eq!(negate(SIGN_BIT), 0);
}

#[test]
fn peak_of_nothing_is_nothing() {
    assert_eq!(peak(&Vec::new()), None);
    assert_eq!(peak_index(&Vec::new()), None);
}

#[test]
fn peak_is_the_largest_sample() {
    assert_eq!(peak(&bits(&[0.25])), Some(0.25f32.to_bits()));
    assert_eq!(peak(&bits(&[0., 0.5, 1., 0.5, 0., -0.5, -1.])), Some(1.0f32.to_bits()));
    assert_eq!(peak_index(&bits(&[0., 0.5, 1., 0.5, 0., -0.5, -1.])), Some(2));
    assert_eq!(peak(&bits(&[-3., -2., -5.])), Some((-2.0f32).to_bits()));
    assert_eq!(peak_index(&bits(&[-3., -2., -5.])), Some(1));
    assert_eq!(peak(&bits(&[1., f32::INFINITY, 2.])), Some(f32::INFINITY.to_bits()));
    assert_eq!(peak(&bits(&[f32::NEG_INFINITY])), Some(f32::NEG_INFINITY.to_bits()));
}

#[test]
fn peak_agrees_with_the_hardware() {
    let tables: Vec<Vec<f32>> = vec![
        vec![0.1, 0.7, -0.3, 0.69],
        vec![-1., -1.1, -0.9],
        vec![1e-45, 0., -1e-45],
        vec![f32::MAX, 1., f32::MIN],
        vec![f32::NAN, 0.5, f32::NAN, 0.75, 0.1],
        vec![0.5, f32::NAN],
        (0..2048).map(|i| (i as f32 * 0.37).sin()).collect(),
    ];
    for table in tables {
        let expected = table.iter().copied().reduce(f32::max).unwrap();
        let found = f32::from_bits(peak(&bits(&table)).unwrap());
        assert_eq!(found, expected);
        let k = peak_index(&bits(&table)).unwrap();
        assert_eq!(table[k], expected);
        assert!(table[..k].iter().all(|v| v.is_nan() || *v < expected));
    }
}

#[test]
fn peak_sets_nans_aside() {
    assert_eq!(peak_index(&bits(&[f32::NAN, 1., f32::NAN, 3., 2.])), Some(3));
    assert_eq!(peak_index(&bits(&[f32::NAN, -1.])), Some(1));
    assert_eq!(peak_index(&bits(&[-1., f32::NAN])), Some(0));
    let all_nan = vec![0x7FC0_0001u32, 0x7FC0_0002, 0xFFC0_0003];
    assert_eq!(peak_index(&all_nan), Some(0));
    assert_eq!(peak(&all_nan), Some(0x7FC0_0001));
}

#[test]
fn peak_is_the_first_among_equals() {
    assert_eq!(peak_index(&bits(&[1., 2., 2., 1.])), Some(1));
    assert_eq!(peak_index(&bits(&[-0., 0., -0.])), Some(0));
    assert_eq!(peak(&bits(&[-0., 0.])), Some((-0.0f32).to_bits()));
    assert_eq!(peak(&bits(&[0., -0.])), Some(0.0f32.to_bits()));
}

#[test]
fn frequency_parameter_spans_the_nyquist_band() {
    let o = frequency_options(22050.0f32.to_bits());
    assert_eq!(f32::from_bits(o.min_value), -22050.0);
    assert_eq!(f32::from_bits(o.max_value), 22050.0);
    assert_eq!(f32::from_bits(o.default_value), 440.0);
    assert_eq!(o.default_value, DEFAULT_FREQUENCY);
    assert_eq!(o.automation_rate, AutomationRate::A);
    let p = frequency_options(24000.0f32.to_bits());
    assert_eq!(f32::from_bits(p.min_value), -24000.0);
    assert_eq!(f32::from_bits(p.max_value), 24000.0);
}

#[test]
fn detune_parameter_spans_128_octaves() {
    let o = detune_options();
    assert_eq!(f32::from_bits(o.min_value), -153600.0);
    assert_eq!(f32::from_bits(o.max_value), 153600.0);
    assert_eq!(f32::from_bits(o.default_value), 0.0);
    assert_eq!(o.automation_rate, AutomationRate::A);
}
