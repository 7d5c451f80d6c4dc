use reed_speedo::digits::{digit_codes, speed_codes};
use reed_speedo::frame::{build_frame, lit_digits, render, Polarity, DECIMAL_POINT};
use reed_speedo::glyph::{glyph, BLANK, DASH};

fn reassemble(codes: [u8; 4]) -> u32 {
    codes.iter().fold(0u32, |acc, &c| acc * 10 + if c <= 9 { c as u32 } else { 0 })
}

#[test]
fn magnitude_seven_blanks_integer_zeros() {
    assert_eq!(digit_codes(false, 7, 2), [BLANK, BLANK, 0, 7]);
}

#[test]
fn magnitude_zero_keeps_fractional_zeros() {
    assert_eq!(digit_codes(false, 0, 2), [BLANK, BLANK, 0, 0]);
}

#[test]
fn unit_digit_never_blanked() {
    assert_eq!(digit_codes(false, 0, 0), [BLANK, BLANK, BLANK, 0]);
    assert_eq!(digit_codes(false, 0, 1), [BLANK, BLANK, BLANK, 0]);
}

#[test]
fn no_suppression_past_decimal_place() {
    assert_eq!(digit_codes(false, 7, 4), [0, 0, 0, 7]);
    assert_eq!(digit_codes(false, 7, 3), [BLANK, 0, 0, 7]);
}

#[test]
fn suppression_stops_at_first_nonzero() {
    assert_eq!(digit_codes(false, 1005, 0), [1, 0, 0, 5]);
    assert_eq!(digit_codes(false, 45, 0), [BLANK, BLANK, 4, 5]);
}

#[test]
fn unsigned_overflow_shows_dashes() {
    assert_eq!(digit_codes(false, 12345, 2), [DASH; 4]);
    assert_eq!(digit_codes(false, 10000, 2), [DASH; 4]);
    assert_eq!(digit_codes(false, 9999, 2), [9, 9, 9, 9]);
}

#[test]
fn signed_values_reserve_the_sign() {
    assert_eq!(digit_codes(true, 5, 0), [DASH, BLANK, BLANK, 5]);
    assert_eq!(digit_codes(true, 5, 2), [DASH, BLANK, 0, 5]);
    assert_eq!(digit_codes(true, 999, 2), [DASH, 9, 9, 9]);
    assert_eq!(digit_codes(true, 1000, 2), [DASH; 4]);
}

#[test]
fn decompose_and_reassemble() {
    for dp in 0..5usize {
        for m in 0..=9999u32 {
            assert_eq!(reassemble(digit_codes(false, m, dp)), m);
        }
        for m in 0..=999u32 {
            assert_eq!(reassemble(digit_codes(true, m, dp)), m);
        }
    }
}

#[test]
fn speed_of_four_fifty_hundredths() {
    let codes = speed_codes(4_500_000, 2);
    assert_eq!(codes, [BLANK, 4, 5, 0]);
    let frame = render(4_500_000, 2);
    for d in 0..4 {
        assert_eq!(frame[d][DECIMAL_POINT], 4 - 1 - d == 2);
    }
    assert!(frame[1][DECIMAL_POINT]);
}

#[test]
fn speed_forty_five_whole_units() {
    assert_eq!(speed_codes(450_000, 2), [BLANK, BLANK, 4, 5]);
}

#[test]
fn speed_truncates_fraction() {
    assert_eq!(speed_codes(99_999, 0), [BLANK, BLANK, BLANK, 9]);
    assert_eq!(speed_codes(51_681, 2), [BLANK, BLANK, 0, 5]);
}

#[test]
fn speed_range_uses_exact_value() {
    assert_eq!(speed_codes(99_990_000, 2), [9, 9, 9, 9]);
    assert_eq!(speed_codes(99_995_000, 2), [DASH; 4]);
    assert_eq!(speed_codes(-9_990_000, 2), [DASH, 9, 9, 9]);
    assert_eq!(speed_codes(-9_990_001, 2), [DASH; 4]);
    assert_eq!(speed_codes(i64::MIN, 2), [DASH; 4]);
    assert_eq!(speed_codes(i64::MAX, 2), [DASH; 4]);
}

#[test]
fn negative_speed() {
    assert_eq!(speed_codes(-53_000, 2), [DASH, BLANK, 0, 5]);
    assert_eq!(speed_codes(-1_230_000, 0), [DASH, 1, 2, 3]);
}

#[test]
fn glyph_table_shapes() {
    assert_eq!(glyph(0), [true, true, true, true, true, true, false]);
    assert_eq!(glyph(1), [false, true, true, false, false, false, false]);
    assert_eq!(glyph(8), [true; 7]);
    assert_eq!(glyph(BLANK), [false; 7]);
    assert_eq!(glyph(DASH), [false, false, false, false, false, false, true]);
}

#[test]
fn glyph_table_distinct_and_error() {
    let known: Vec<u8> = (0..=9).chain([BLANK, DASH]).collect();
    let error = glyph(10);
    assert_eq!(error, [false, false, true, true, true, false, true]);
    for (i, &a) in known.iter().enumerate() {
        assert_ne!(glyph(a), error);
        for &b in &known[i + 1..] {
            assert_ne!(glyph(a), glyph(b));
        }
    }
    for c in 0..=255u8 {
        if !known.contains(&c) {
            assert_eq!(glyph(c), error);
        }
    }
}

#[test]
fn frame_rows_follow_codes() {
    let frame = build_frame([BLANK, 4, 5, 0], 2);
    assert_eq!(frame[0], [false; 8]);
    assert_eq!(frame[1], [false, true, true, false, false, true, true, true]);
    assert_eq!(frame[2], [true, false, true, true, false, true, true, false]);
    assert_eq!(frame[3], [true, true, true, true, true, true, false, false]);
}

#[test]
fn frame_without_decimal_point() {
    let frame = build_frame([1, 2, 3, 4], 7);
    for d in 0..4 {
        assert!(!frame[d][DECIMAL_POINT]);
    }
}

#[test]
fn scan_selects_lit_digits() {
    let frame = build_frame([BLANK, 4, 5, 0], 2);
    assert_eq!(lit_digits(&frame, 0), [false, false, true, true]);
    assert_eq!(lit_digits(&frame, 6), [false, true, true, false]);
    assert_eq!(lit_digits(&frame, DECIMAL_POINT), [false, true, false, false]);
}

#[test]
fn polarity_levels() {
    let cc = Polarity::CommonCathode;
    assert!(!cc.digit_level(true));
    assert!(cc.digit_level(false));
    assert!(cc.segment_level(true));
    assert!(!cc.segment_level(false));
    let ca = Polarity::CommonAnode;
    assert!(ca.digit_level(true));
    assert!(!ca.digit_level(false));
    assert!(!ca.segment_level(true));
    assert!(ca.segment_level(false));
}
