use typing_speed::speed::{compute_wpm_milli, SpeedSample, CHARS_PER_WORD, MIN_ELAPSED_MILLIS};

#[test]
fn constants_follow_the_convention() {
    assert_eq!(CHARS_PER_WORD, 5);
    assert_eq!(MIN_ELAPSED_MILLIS, 1_000);
}

#[test]
fn wpm_formula_exact_values() {
    assert_eq!(compute_wpm_milli(25, 60_000), 5_000);
    assert_eq!(compute_wpm_milli(5, 60_000), 1_000);
    assert_eq!(compute_wpm_milli(300, 60_000), 60_000);
    assert_eq!(compute_wpm_milli(50, 30_000), 20_000);
    assert_eq!(compute_wpm_milli(0, 60_000), 0);
}

#[test]
fn wpm_floor_at_one_second() {
    assert_eq!(compute_wpm_milli(5, 200), 60_000);
    assert_eq!(compute_wpm_milli(5, 0), 60_000);
    assert_eq!(compute_wpm_milli(5, 999), 60_000);
    assert_eq!(compute_wpm_milli(5, 1_000), 60_000);
    assert_eq!(compute_wpm_milli(5, 1_001), 59_940);
}

#[test]
fn wpm_never_exceeds_twelve_per_character() {
    for chars in [0usize, 1, 7, 100, 12_345] {
        for millis in [0u64, 1, 500, 1_000, 1_500, 60_000, u64::MAX] {
            assert!(compute_wpm_milli(chars, millis) <= 12_000 * chars as u128);
        }
    }
}

#[test]
fn wpm_of_largest_inputs_does_not_overflow() {
    assert_eq!(
        compute_wpm_milli(usize::MAX, 0),
        usize::MAX as u128 * 12_000
    );
    assert_eq!(compute_wpm_milli(1, u64::MAX), 0);
}

#[test]
fn speed_samples_compare_by_fields() {
    let a = SpeedSample { elapsed_millis: 500, wpm_milli: 12_000 };
    let b = SpeedSample { elapsed_millis: 500, wpm_milli: 12_000 };
    let c = SpeedSample { elapsed_millis: 501, wpm_milli: 12_000 };
    assert_eq!(a, b);
    assert_ne!(a, c);
}
