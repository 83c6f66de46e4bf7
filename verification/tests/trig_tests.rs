use flight_dynamics::trig::{asin, atan2, cos, sin, HALF_PI};
use flight_dynamics::util::PI;

fn fx(v: f64) -> i64 {
    (v * 1e6).round() as i64
}

fn fl(v: i64) -> f64 {
    v as f64 / 1e6
}

#[test]
fn sine_at_the_quarter_turns() {
    assert_eq!(sin(0), 0);
    assert_eq!(sin(HALF_PI), 1_000_000);
    assert_eq!(sin(-HALF_PI), -1_000_000);
    assert!(sin(PI).abs() <= 2);
}

#[test]
fn cosine_at_the_quarter_turns() {
    assert_eq!(cos(0), 1_000_000);
    assert!(cos(HALF_PI).abs() <= 2);
    assert_eq!(cos(PI), -1_000_000);
}

#[test]
fn sine_and_cosine_track_floating_point() {
    let mut x = -20.0f64;
    while x < 20.0 {
        assert!((fl(sin(fx(x))) - x.sin()).abs() < 2e-5, "sin {x}");
        assert!((fl(cos(fx(x))) - x.cos()).abs() < 2e-5, "cos {x}");
        x += 0.0173;
    }
}

#[test]
fn sine_and_cosine_within_a_turn_are_accurate_to_a_few_millionths() {
    let mut x = -3.14f64;
    while x < 3.14 {
        assert!((fl(sin(fx(x))) - x.sin()).abs() < 4e-6, "sin {x}");
        assert!((fl(cos(fx(x))) - x.cos()).abs() < 4e-6, "cos {x}");
        x += 0.0037;
    }
}

#[test]
fn sine_stays_within_one_at_the_ends_of_the_number_range() {
    for x in [i64::MIN, i64::MIN + 1, -1, 1, i64::MAX - 1, i64::MAX] {
        assert!(sin(x).abs() <= 1_000_000);
        assert!(cos(x).abs() <= 1_000_000);
    }
}

#[test]
fn arctangent_on_the_axes() {
    assert_eq!(atan2(0, 0), 0);
    assert_eq!(atan2(0, 1_000_000), 0);
    assert_eq!(atan2(1_000_000, 0), 1_570_796);
    assert_eq!(atan2(0, -1_000_000), 3_141_593);
    assert_eq!(atan2(-1_000_000, 0), -1_570_796);
    assert_eq!(atan2(1_000_000, 1_000_000), 785_398);
}

#[test]
fn arctangent_tracks_floating_point_in_every_quadrant() {
    let mut a = -3.1f64;
    while a < 3.1 {
        for r in [0.01f64, 1.0, 200.0, 30000.0] {
            let y = r * a.sin();
            let x = r * a.cos();
            let got = fl(atan2(fx(y), fx(x)));
            assert!((got - y.atan2(x)).abs() < 2e-4 / r.min(1.0), "{a} {r}");
        }
        a += 0.0101;
    }
}

#[test]
fn arcsine_tracks_floating_point() {
    let mut v = -1.0f64;
    while v <= 1.0 {
        assert!((fl(asin(fx(v))) - v.asin()).abs() < 2e-3, "{v}");
        v += 0.001;
    }
    assert_eq!(asin(0), 0);
    assert_eq!(asin(1_000_000), 1_570_796);
    assert_eq!(asin(5_000_000), 1_570_796);
    assert_eq!(asin(-5_000_000), -1_570_796);
}

#[test]
fn sine_and_cosine_agree_at_an_eighth_of_a_turn() {
    assert_eq!(sin(785_398), 707_107);
    assert_eq!(cos(785_398), 707_107);
    assert_eq!(cos(-785_398), 707_107);
    assert_eq!(cos(HALF_PI), 0);
    assert_eq!(cos(-HALF_PI), 0);
    assert_eq!(cos(2_356_194), -sin(785_398));
}
