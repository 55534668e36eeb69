use web_audio_osc::control::{window_active, AtomicF64, Controller, Scheduler};
use web_audio_osc::binary64::{
    at_least, is_nan_pattern, less_than, magnitude_of, MAX_FINITE, POS_INFINITY, POS_ZERO,
    SIGN_BIT,
};

fn samples() -> Vec<f64> {
    vec![
        0.0,
        -0.0,
        1.0,
        -1.0,
        2.5,
        -2.5,
        128.0 / 44100.0,
        f64::MIN_POSITIVE,
        -f64::MIN_POSITIVE,
        5e-324,
        -5e-324,
        f64::MAX,
        f64::MIN,
        f64::INFINITY,
        f64::NEG_INFINITY,
        f64::NAN,
        -f64::NAN,
        f64::EPSILON,
        1e300,
        -1e300,
    ]
}

#[test]
fn test_atomic_f64() {
    let f = AtomicF64::new(2.0f64.to_bits());
    assert_eq!(f64::from_bits(f.load()), 2.0);
    f.store(3.0f64.to_bits());
    assert_eq!(f64::from_bits(f.load()), 3.0);
}

#[test]
fn atomic_slot_returns_every_pattern() {
    for v in samples() {
        let f = AtomicF64::new(v.to_bits());
        assert_eq!(f.load(), v.to_bits());
        if !v.is_nan() {
            assert_eq!(f64::from_bits(f.load()), v);
        }
        let g = AtomicF64::new(0);
        g.store(v.to_bits());
        assert_eq!(g.load(), v.to_bits());
    }
}

#[test]
fn constants_are_the_patterns_they_name() {
    assert_eq!(POS_INFINITY, f64::INFINITY.to_bits());
    assert_eq!(MAX_FINITE, f64::MAX.to_bits());
    assert_eq!(POS_ZERO, 0.0f64.to_bits());
    assert_eq!(SIGN_BIT, (-0.0f64).to_bits());
}

#[test]
fn magnitude_is_the_absolute_value() {
    for v in samples() {
        assert_eq!(magnitude_of(v.to_bits()), v.abs().to_bits());
    }
}

#[test]
fn nan_patterns_are_recognized() {
    for v in samples() {
        assert_eq!(is_nan_pattern(v.to_bits()), v.is_nan());
    }
    assert!(is_nan_pattern(0x7FF0_0000_0000_0001));
    assert!(is_nan_pattern(0xFFFF_FFFF_FFFF_FFFF));
    assert!(!is_nan_pattern(0xFFF0_0000_0000_0000));
}

#[test]
fn less_than_agrees_with_the_hardware() {
    for a in samples() {
        for b in samples() {
            assert_eq!(less_than(a.to_bits(), b.to_bits()), a < b, "{} < {}", a, b);
        }
    }
}

#[test]
fn at_least_agrees_with_the_hardware() {
    for a in samples() {
        for b in samples() {
            assert_eq!(at_least(a.to_bits(), b.to_bits()), a >= b, "{} >= {}", a, b);
        }
    }
}

#[test]
fn zeros_are_level() {
    assert!(!less_than(SIGN_BIT, POS_ZERO));
    assert!(!less_than(POS_ZERO, SIGN_BIT));
    assert!(at_least(SIGN_BIT, POS_ZERO));
    assert!(at_least(POS_ZERO, SIGN_BIT));
}

#[test]
fn window_is_half_open() {
    let start = 1.0f64.to_bits();
    let stop = 2.0f64.to_bits();
    assert!(!window_active(start, stop, 0.5f64.to_bits()));
    assert!(!window_active(start, stop, 0.9999999f64.to_bits()));
    assert!(window_active(start, stop, 1.0f64.to_bits()));
    assert!(window_active(start, stop, 1.5f64.to_bits()));
    assert!(window_active(start, stop, 1.9999999f64.to_bits()));
    assert!(!window_active(start, stop, 2.0f64.to_bits()));
    assert!(!window_active(start, stop, 3.0f64.to_bits()));
    assert!(!window_active(start, stop, f64::NAN.to_bits()));
    assert!(!window_active(f64::NAN.to_bits(), stop, 1.5f64.to_bits()));
    assert!(!window_active(start, f64::NAN.to_bits(), 1.5f64.to_bits()));
}

#[test]
fn window_agrees_with_the_hardware() {
    for start in samples() {
        for stop in samples() {
            for ts in samples() {
                assert_eq!(
                    window_active(start.to_bits(), stop.to_bits(), ts.to_bits()),
                    ts >= start && ts < stop
                );
            }
        }
    }
}

#[test]
fn empty_window_is_never_active() {
    let start = 2.0f64.to_bits();
    let stop = 1.0f64.to_bits();
    for ts in samples() {
        assert!(!window_active(start, stop, ts.to_bits()));
    }
}

#[test]
fn new_scheduler_is_inactive() {
    let s = Scheduler::new();
    for ts in samples() {
        assert!(!s.is_active(ts.to_bits()));
    }
    let d = Scheduler::default();
    assert!(!d.is_active(0.0f64.to_bits()));
}

#[test]
fn scheduler_follows_start_and_stop() {
    let s = Scheduler::new();
    s.start_at(1.0f64.to_bits());
    assert!(!s.is_active(0.0f64.to_bits()));
    assert!(s.is_active(1.0f64.to_bits()));
    assert!(s.is_active(1e9f64.to_bits()));
    assert!(!s.is_active(f64::INFINITY.to_bits()));
    assert!(!s.is_active(f64::NAN.to_bits()));
    s.stop_at(2.0f64.to_bits());
    assert!(s.is_active(1.0f64.to_bits()));
    assert!(s.is_active(1.5f64.to_bits()));
    assert!(!s.is_active(2.0f64.to_bits()));
    assert!(!s.is_active(2.5f64.to_bits()));
}

#[test]
fn scheduler_clones_share_their_state() {
    let s = Scheduler::new();
    let t = s.clone();
    s.start_at(0.0f64.to_bits());
    assert!(t.is_active(0.0f64.to_bits()));
    t.stop_at(0.0f64.to_bits());
    assert!(!s.is_active(0.0f64.to_bits()));
}

#[test]
fn controller_can_be_built_and_cloned() {
    let c = Controller::new();
    let d = c.clone();
    let e = Controller::default();
    assert!(format!("{:?}", d).contains("Controller"));
    assert!(format!("{:?}", e).contains("scheduler"));
}
