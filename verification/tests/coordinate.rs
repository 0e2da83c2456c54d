use geo_to_3d::coordinate::{
    Coordinate, Location, UNITS_PER_DEGREE, UNITS_PER_MINUTE, UNITS_PER_SECOND,
};

fn units(deg: i32, min: i32, hundredths: i32) -> i32 {
    deg * UNITS_PER_DEGREE + min * UNITS_PER_MINUTE + hundredths
}

#[test]
fn units_are_hundredths_of_an_arc_second() {
    assert_eq!(UNITS_PER_SECOND, 100);
    assert_eq!(UNITS_PER_MINUTE, 60 * UNITS_PER_SECOND);
    assert_eq!(UNITS_PER_DEGREE, 60 * UNITS_PER_MINUTE);
}

#[test]
fn new_splits_forty_five_and_a_half_degrees() {
    let c = Coordinate::new(&16_380_000);
    assert_eq!(c, Coordinate { deg: 45, min: 30, sec: 0 });
}

#[test]
fn new_splits_six_and_a_half_degrees() {
    let c = Coordinate::new(&2_340_000);
    assert_eq!(c, Coordinate { deg: 6, min: 30, sec: 0 });
}

#[test]
fn new_keeps_fractions_of_a_second() {
    let c = Coordinate::new(&units(45, 30, 1_525));
    assert_eq!(c, Coordinate { deg: 45, min: 30, sec: 1_525 });
}

#[test]
fn new_of_zero_is_all_zero() {
    assert_eq!(Coordinate::new(&0), Coordinate { deg: 0, min: 0, sec: 0 });
}

#[test]
fn new_of_one_unit_below_a_degree() {
    let c = Coordinate::new(&(UNITS_PER_DEGREE - 1));
    assert_eq!(c, Coordinate { deg: 0, min: 59, sec: 5_999 });
}

#[test]
fn new_of_whole_degrees_at_the_limits_of_longitude() {
    assert_eq!(Coordinate::new(&64_800_000), Coordinate { deg: 180, min: 0, sec: 0 });
    assert_eq!(Coordinate::new(&-64_800_000), Coordinate { deg: -180, min: 0, sec: 0 });
    assert_eq!(Coordinate::new(&32_400_000), Coordinate { deg: 90, min: 0, sec: 0 });
}

#[test]
fn new_truncates_negative_degrees_toward_zero() {
    let c = Coordinate::new(&-2_340_000);
    assert_eq!(c, Coordinate { deg: -6, min: 30, sec: 0 });
    let d = Coordinate::new(&-(units(6, 59, 5_999)));
    assert_eq!(d, Coordinate { deg: -6, min: 59, sec: 5_999 });
    let e = Coordinate::new(&-1);
    assert_eq!(e, Coordinate { deg: 0, min: 0, sec: 1 });
}

#[test]
fn new_of_the_extreme_inputs() {
    // 2^31 - 1 = 5965 * 360000 + 83647 units.
    assert_eq!(Coordinate::new(&i32::MAX), Coordinate { deg: 5_965, min: 13, sec: 5_647 });
    // 2^31 = 5965 * 360000 + 83648 units.
    assert_eq!(Coordinate::new(&i32::MIN), Coordinate { deg: -5_965, min: 13, sec: 5_648 });
}

#[test]
fn minutes_and_seconds_are_always_a_base_sixty_remainder() {
    let mut val: i64 = i32::MIN as i64;
    while val <= i32::MAX as i64 {
        let c = Coordinate::new(&(val as i32));
        assert!(0 <= c.min && c.min < 60, "minutes of {val}");
        assert!(0 <= c.sec && c.sec < UNITS_PER_MINUTE, "seconds of {val}");
        val += 7_919_113;
    }
}

#[test]
fn to_decimal_adds_the_three_fields() {
    let c = Coordinate { deg: 45, min: 30, sec: 1_525 };
    assert_eq!(c.to_decimal(), 16_381_525);
    let d = Coordinate { deg: -6, min: 30, sec: 0 };
    assert_eq!(d.to_decimal(), -1_980_000);
    let e = Coordinate { deg: 1, min: -15, sec: -50 };
    assert_eq!(e.to_decimal(), 360_000 - 90_000 - 50);
}

#[test]
fn to_decimal_of_the_extreme_fields_does_not_overflow() {
    let top = Coordinate { deg: i16::MAX, min: i8::MAX, sec: i32::MAX };
    assert_eq!(top.to_decimal(), 32_767 * 360_000 + 127 * 6_000 + 2_147_483_647);
    let bottom = Coordinate { deg: i16::MIN, min: i8::MIN, sec: i32::MIN };
    assert_eq!(bottom.to_decimal(), -32_768 * 360_000 - 128 * 6_000 - 2_147_483_648);
}

#[test]
fn round_trip_is_exact_for_angles_that_are_not_negative() {
    let mut val: i32 = 0;
    while val <= 64_800_000 {
        assert_eq!(Coordinate::new(&val).to_decimal(), val as i64);
        val += 4_999;
    }
    assert_eq!(Coordinate::new(&64_800_000).to_decimal(), 64_800_000);
    assert_eq!(Coordinate::new(&i32::MAX).to_decimal(), i32::MAX as i64);
}

#[test]
fn round_trip_stays_within_one_second_for_small_negative_remainders() {
    for deg in [-180, -90, -45, -1, 0] {
        for rest in 0..50 {
            let val = deg * UNITS_PER_DEGREE - rest;
            let back = Coordinate::new(&val).to_decimal();
            assert!((back - val as i64).abs() < UNITS_PER_SECOND as i64);
            assert_eq!(back - val as i64, 2 * rest as i64);
        }
    }
}

#[test]
fn round_trip_of_a_negative_angle_is_off_by_twice_its_remainder() {
    // -6.5 degrees comes back as -5.5 degrees.
    assert_eq!(Coordinate::new(&-2_340_000).to_decimal(), -1_980_000);
    assert_eq!(Coordinate::new(&-50).to_decimal(), 50);
}

#[test]
fn add_is_field_by_field() {
    let a = Coordinate { deg: 45, min: 30, sec: 1_500 };
    let b = Coordinate { deg: 6, min: 45, sec: 5_000 };
    assert_eq!(a + b, Coordinate { deg: 51, min: 75, sec: 6_500 });
}

#[test]
fn sub_is_field_by_field() {
    let a = Coordinate { deg: 45, min: 30, sec: 1_500 };
    let b = Coordinate { deg: 6, min: 45, sec: 5_000 };
    assert_eq!(a - b, Coordinate { deg: 39, min: -15, sec: -3_500 });
}

#[test]
fn add_and_sub_keep_the_angle() {
    let a = Coordinate::new(&16_381_525);
    let b = Coordinate::new(&2_345_678);
    assert_eq!((a + b).to_decimal(), a.to_decimal() + b.to_decimal());
    assert_eq!((a - b).to_decimal(), a.to_decimal() - b.to_decimal());
    assert_eq!((a + b) - b, a);
}

#[test]
fn add_saturates_each_field_on_its_own() {
    let a = Coordinate { deg: i16::MAX, min: 100, sec: i32::MAX };
    let b = Coordinate { deg: 1, min: 100, sec: 1 };
    assert_eq!(a + b, Coordinate { deg: i16::MAX, min: i8::MAX, sec: i32::MAX });
    let c = Coordinate { deg: i16::MIN, min: -100, sec: i32::MIN };
    let d = Coordinate { deg: -1, min: -100, sec: -1 };
    assert_eq!(c + d, Coordinate { deg: i16::MIN, min: i8::MIN, sec: i32::MIN });
    let e = Coordinate { deg: i16::MAX, min: 1, sec: 2 };
    assert_eq!(e + Coordinate { deg: 5, min: 1, sec: 2 }, Coordinate { deg: i16::MAX, min: 2, sec: 4 });
}

#[test]
fn sub_saturates_each_field_on_its_own() {
    let a = Coordinate { deg: i16::MIN, min: -100, sec: i32::MIN };
    let b = Coordinate { deg: 1, min: 100, sec: 1 };
    assert_eq!(a - b, Coordinate { deg: i16::MIN, min: i8::MIN, sec: i32::MIN });
    assert_eq!(b - a, Coordinate { deg: i16::MAX, min: i8::MAX, sec: i32::MAX });
}

#[test]
fn render_pads_degrees_minutes_and_seconds() {
    assert_eq!(Coordinate { deg: 45, min: 30, sec: 0 }.render(), "45° 30'   0.00\"");
    assert_eq!(Coordinate { deg: 6, min: 5, sec: 1_525 }.render(), " 6°  5'  15.25\"");
    assert_eq!(Coordinate { deg: 0, min: 0, sec: 100 }.render(), " 0°  0'   1.00\"");
    assert_eq!(Coordinate { deg: 0, min: 0, sec: 5 }.render(), " 0°  0'   0.05\"");
}

#[test]
fn render_of_wide_and_negative_fields() {
    assert_eq!(Coordinate { deg: -6, min: 30, sec: 0 }.render(), "-6° 30'   0.00\"");
    assert_eq!(Coordinate { deg: 180, min: 0, sec: 5_999 }.render(), "180°  0'  59.99\"");
    assert_eq!(Coordinate { deg: -180, min: -15, sec: -5 }.render(), "-180° -15'  -0.05\"");
    assert_eq!(
        Coordinate { deg: i16::MIN, min: i8::MIN, sec: i32::MIN }.render(),
        "-32768° -128' -21474836.48\""
    );
    assert_eq!(
        Coordinate { deg: i16::MAX, min: i8::MAX, sec: i32::MAX }.render(),
        "32767° 127' 21474836.47\""
    );
}

#[test]
fn render_of_a_location() {
    let loc = Location { lat: Coordinate::new(&16_380_000), lon: Coordinate::new(&2_340_000) };
    assert_eq!(loc.render(), "Lat: 45° 30'   0.00\" // Lon:  6° 30'   0.00\"");
}
