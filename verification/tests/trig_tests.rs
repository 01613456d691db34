use endless_trial::trig::{atan2_deg, cos_mil, sin_mil};

#[test]
fn sine_at_quarter_turns() {
    assert_eq!(sin_mil(0), 0);
    assert_eq!(sin_mil(90), 1000);
    assert_eq!(sin_mil(180), 0);
    assert_eq!(sin_mil(270), -1000);
    assert_eq!(sin_mil(360), 0);
}

#[test]
fn sine_at_diagonals() {
    assert_eq!(sin_mil(45), 707);
    assert_eq!(sin_mil(135), 707);
    assert_eq!(sin_mil(225), -707);
    assert_eq!(sin_mil(315), -707);
}

#[test]
fn sine_at_thirty_degrees_is_exactly_half() {
    assert_eq!(sin_mil(30), 500);
    assert_eq!(sin_mil(150), 500);
    assert_eq!(sin_mil(210), -500);
}

#[test]
fn sine_of_negative_headings_wraps() {
    assert_eq!(sin_mil(-90), -1000);
    assert_eq!(sin_mil(-45), -707);
    assert_eq!(sin_mil(-360), 0);
}

#[test]
fn cosine_at_quarter_turns() {
    assert_eq!(cos_mil(0), 1000);
    assert_eq!(cos_mil(90), 0);
    assert_eq!(cos_mil(180), -1000);
    assert_eq!(cos_mil(270), 0);
    assert_eq!(cos_mil(45), 707);
}

#[test]
fn arctangent_on_the_axes() {
    assert_eq!(atan2_deg(0, 5000), 0);
    assert_eq!(atan2_deg(5000, 0), 90);
    assert_eq!(atan2_deg(0, -5000), 180);
    assert_eq!(atan2_deg(-5000, 0), -90);
    assert_eq!(atan2_deg(0, 0), 0);
}

#[test]
fn arctangent_on_the_diagonals() {
    assert_eq!(atan2_deg(1000, 1000), 45);
    assert_eq!(atan2_deg(1000, -1000), 135);
    assert_eq!(atan2_deg(-1000, -1000), -135);
    assert_eq!(atan2_deg(-1000, 1000), -45);
}

#[test]
fn arctangent_stays_within_half_turn() {
    let samples: Vec<(i64, i64)> = vec![
        (3, 4),
        (-3, 4),
        (3, -4),
        (-3, -4),
        (123_456, -654_321),
        (1, 1_000_000),
        (-1_000_000, 1),
    ];
    for (dy, dx) in samples {
        let a = atan2_deg(dy, dx);
        assert!(-180 <= a && a <= 180);
    }
}
