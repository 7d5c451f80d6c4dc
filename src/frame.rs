//! The display frame that one rendering pass lights, and the drive levels
//! of the multiplex scan that shows it.
use vstd::prelude::*;
use crate::digits::{NUM_DIGITS, speed_codes, speed_codes_of};
use crate::glyph::{glyph, glyph_of};

verus! {

/// Segment lines per digit: a to g, then the decimal point.
pub const NUM_SEGMENTS: usize = 8;

/// Index of the decimal-point segment.
pub const DECIMAL_POINT: usize = 7;

/// Whether segment `s` of the digit at position `d` (from the left) is lit
/// when that digit shows `code` and the decimal place is `dec_place`: a
/// glyph segment follows the glyph table; the decimal point is lit exactly
/// on the position whose distance from the right equals the decimal place.
pub open spec fn lit(code: u8, dec_place: nat, d: int, s: int) -> bool {
    if s == DECIMAL_POINT {
        NUM_DIGITS - 1 - d == dec_place
    } else {
        glyph_of(code)[s]
    }
}

/// The frame `f` shows `codes` with the decimal point at `dec_place`.
pub open spec fn frame_shows(f: [[bool; 8]; 4], codes: Seq<u8>, dec_place: nat) -> bool {
    forall|d: int, s: int|
        0 <= d < NUM_DIGITS && 0 <= s < NUM_SEGMENTS ==> #[trigger] f[d][s] == lit(
            codes[d],
            dec_place,
            d,
            s,
        )
}

/// The segments of one digit position: its glyph and its decimal point.
fn digit_row(code: u8, dec_place: usize, d: usize) -> (r: [bool; 8])
    requires
        d < NUM_DIGITS,
    ensures
        forall|s: int| 0 <= s < NUM_SEGMENTS ==> #[trigger] r[s] == lit(code, dec_place as nat, d as int, s),
{
    let g = glyph(code);
    let point = NUM_DIGITS - 1 - d == dec_place;
    [g[0], g[1], g[2], g[3], g[4], g[5], g[6], point]
}

/// Builds the frame that shows four digit codes with the decimal point at
/// `dec_place`, rebuilt from nothing but its arguments.
pub fn build_frame(codes: [u8; 4], dec_place: usize) -> (r: [[bool; 8]; 4])
    ensures
        frame_shows(r, codes@, dec_place as nat),
{
    let r: [[bool; 8]; 4] = [
        digit_row(codes[0], dec_place, 0),
        digit_row(codes[1], dec_place, 1),
        digit_row(codes[2], dec_place, 2),
        digit_row(codes[3], dec_place, 3),
    ];
    assert forall|d: int, s: int| 0 <= d < NUM_DIGITS && 0 <= s < NUM_SEGMENTS implies #[trigger] r[d][s]
        == lit(codes@[d], dec_place as nat, d, s) by {
        if d == 0 {
            assert(r[0][s] == lit(codes[0], dec_place as nat, 0, s));
        } else if d == 1 {
            assert(r[1][s] == lit(codes[1], dec_place as nat, 1, s));
        } else if d == 2 {
            assert(r[2][s] == lit(codes[2], dec_place as nat, 2, s));
        } else {
            assert(r[3][s] == lit(codes[3], dec_place as nat, 3, s));
        }
    }
    r
}

/// One rendering pass: the frame that shows `value`, a speed in
/// ten-thousandths of a km/h, with the decimal point at `dec_place`.
pub fn render(value: i64, dec_place: usize) -> (r: [[bool; 8]; 4])
    ensures
        frame_shows(r, speed_codes_of(value as int, dec_place as nat), dec_place as nat),
{
    let codes = speed_codes(value, dec_place);
    build_frame(codes, dec_place)
}

/// The digit positions that the scan switches on while segment line `s`
/// is driven: those whose frame lights that segment.
pub fn lit_digits(frame: &[[bool; 8]; 4], s: usize) -> (r: [bool; 4])
    requires
        s < NUM_SEGMENTS,
    ensures
        forall|d: int| 0 <= d < NUM_DIGITS ==> #[trigger] r[d] == frame[d][s as int],
{
    [frame[0][s], frame[1][s], frame[2][s], frame[3][s]]
}

/// Electrical polarity of the display, chosen once at start-up.
#[derive(Clone, Copy, Debug, PartialEq, Eq, Structural)]
pub enum Polarity {
    /// Digit commons are switched on low, segments on high.
    CommonCathode,
    /// Digit commons are switched on high, segments on low.
    CommonAnode,
}

impl Polarity {
    /// The pin level (true = high) that drives a digit common line on or off.
    pub fn digit_level(self, on: bool) -> (high: bool)
        ensures
            high == match self {
                Polarity::CommonCathode => !on,
                Polarity::CommonAnode => on,
            },
    {
        match self {
            Polarity::CommonCathode => !on,
            Polarity::CommonAnode => on,
        }
    }

    /// The pin level (true = high) that drives a segment line on or off.
    pub fn segment_level(self, on: bool) -> (high: bool)
        ensures
            high == match self {
                Polarity::CommonCathode => on,
                Polarity::CommonAnode => !on,
            },
    {
        match self {
            Polarity::CommonCathode => on,
            Polarity::CommonAnode => !on,
        }
    }
}

} // verus!
