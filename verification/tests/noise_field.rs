use tileworld::noise_field::{NoiseField, NoiseValue, NOISE_MAX_MILLIS, NOISE_MIN_MILLIS};

#[test]
fn clamped_keeps_values_in_range() {
    assert_eq!(NoiseValue::clamped(500).millis, 500);
    assert_eq!(NoiseValue::clamped(0).millis, 0);
    assert_eq!(NoiseValue::clamped(1000).millis, 1000);
    assert_eq!(NoiseValue::clamped(-1000).millis, -1000);
    assert_eq!(NoiseValue::clamped(2000).millis, NOISE_MAX_MILLIS);
    assert_eq!(NoiseValue::clamped(-2000).millis, NOISE_MIN_MILLIS);
    assert_eq!(NoiseValue::clamped(i32::MAX).millis, NOISE_MAX_MILLIS);
    assert_eq!(NoiseValue::clamped(i32::MIN).millis, NOISE_MIN_MILLIS);
}

#[test]
fn abs_is_the_magnitude() {
    assert_eq!(NoiseValue::new(-500).abs(), 500);
    assert_eq!(NoiseValue::new(500).abs(), 500);
    assert_eq!(NoiseValue::new(0).abs(), 0);
    assert_eq!(NoiseValue::new(-1000).abs(), 1000);
}

#[test]
fn new_field_is_all_zero() {
    let field = NoiseField::new(3, 2);
    assert_eq!(field.size(), (3, 2));
    for x in 0..3 {
        for y in 0..2 {
            assert_eq!(field.get_value(x, y).millis, 0);
        }
    }
}

#[test]
fn set_value_changes_one_cell_only() {
    let mut field = NoiseField::new(4, 3);
    field.set_value(2, 1, NoiseValue::new(250));
    field.set_value(0, 2, NoiseValue::new(-750));
    for x in 0..4 {
        for y in 0..3 {
            let expected = if (x, y) == (2, 1) {
                250
            } else if (x, y) == (0, 2) {
                -750
            } else {
                0
            };
            assert_eq!(field.get_value(x, y).millis, expected);
        }
    }
}

#[test]
fn set_value_overwrites() {
    let mut field = NoiseField::new(2, 2);
    field.set_value(1, 1, NoiseValue::new(100));
    field.set_value(1, 1, NoiseValue::new(-100));
    assert_eq!(field.get_value(1, 1).millis, -100);
}

#[test]
fn empty_field_has_no_cells() {
    let field = NoiseField::new(0, 0);
    assert_eq!(field.size(), (0, 0));
}
