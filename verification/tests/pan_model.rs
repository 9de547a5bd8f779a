use mechsync::pan::{note_distance, pan_time_nanos, string_ratio, tuning, FRETS, MAX_PAN_NANOS};

#[test]
fn tuning_is_highest_string_first() {
    assert_eq!(tuning(0), 43);
    assert_eq!(tuning(1), 38);
    assert_eq!(tuning(2), 33);
    assert_eq!(tuning(3), 28);
    assert_eq!(FRETS, 13);
}

#[test]
fn string_ratios_tabulate_equal_temperament() {
    assert_eq!(string_ratio(0), 1_000_000_000);
    assert_eq!(string_ratio(12), 500_000_000);
    assert_eq!(string_ratio(13), 471_937_156);
}

#[test]
fn string_ratios_decrease_strictly() {
    for k in 1..=13u8 {
        assert!(string_ratio(k) < string_ratio(k - 1));
    }
}

#[test]
fn note_distance_is_zero_on_the_spot() {
    for k in 0..=13u8 {
        assert_eq!(note_distance(k, k), 0);
    }
}

#[test]
fn note_distance_is_symmetric() {
    for a in 0..=13u8 {
        for b in 0..=13u8 {
            assert_eq!(note_distance(a, b), note_distance(b, a));
        }
    }
}

#[test]
fn note_distance_octave_is_half_string() {
    assert_eq!(note_distance(0, 12), 500_000_000);
}

#[test]
fn note_distance_grows_with_the_span() {
    for a in 0..=13u8 {
        for b in a..13u8 {
            assert!(note_distance(a, b) <= note_distance(a, b + 1));
        }
    }
}

#[test]
fn pan_time_is_zero_on_the_spot_and_symmetric() {
    for a in 0..=13u8 {
        assert_eq!(pan_time_nanos(a, a), 0);
        for b in 0..=13u8 {
            assert_eq!(pan_time_nanos(a, b), pan_time_nanos(b, a));
        }
    }
}

#[test]
fn pan_time_full_travel_is_the_maximum() {
    assert_eq!(pan_time_nanos(0, 13), MAX_PAN_NANOS);
    assert_eq!(MAX_PAN_NANOS, 406_172_581);
    for a in 0..=13u8 {
        for b in 0..=13u8 {
            assert!(pan_time_nanos(a, b) <= MAX_PAN_NANOS);
        }
    }
}

#[test]
fn pan_time_one_fret_from_the_nut() {
    assert_eq!(pan_time_nanos(0, 1), 117_147_617);
}

#[test]
fn pan_time_grows_with_the_span() {
    for a in 0..=13u8 {
        for b in a..13u8 {
            assert!(pan_time_nanos(a, b) <= pan_time_nanos(a, b + 1));
        }
    }
}
