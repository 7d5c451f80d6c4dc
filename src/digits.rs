//! Decomposition of a speed into the four digit codes of the display:
//! sign, range policy, decimal digits and leading-zero suppression.
use vstd::prelude::*;
use crate::glyph::{BLANK, DASH};
use crate::pulse::SPEED_SCALE;

verus! {

/// Number of digit positions on the display.
pub const NUM_DIGITS: usize = 4;

/// Largest magnitude shown without a sign.
pub const MAX_UNSIGNED: u32 = 9999;

/// Largest magnitude shown with a sign, which takes the leftmost position.
pub const MAX_SIGNED: u32 = 999;

/// Place value of position `i`, counted from the left.
pub open spec fn place(i: int) -> nat {
    if i == 0 {
        1000
    } else if i == 1 {
        100
    } else if i == 2 {
        10
    } else {
        1
    }
}

/// Whether a magnitude is too large for the display.
pub open spec fn out_of_range(negative: bool, magnitude: nat) -> bool {
    if negative {
        magnitude > MAX_SIGNED
    } else {
        magnitude > MAX_UNSIGNED
    }
}

/// Position `i` holds a suppressed leading zero: it is a digit position
/// (not the sign, not the unit), its distance from the right is at least
/// the decimal place, and the digits up to and including it are all zero.
pub open spec fn is_leading_blank(negative: bool, magnitude: nat, dec_place: nat, i: int) -> bool {
    &&& (if negative { 1int } else { 0int }) <= i < 3
    &&& dec_place <= 3 - i
    &&& magnitude < place(i)
}

/// The code shown at position `i`.
pub open spec fn code_at(negative: bool, magnitude: nat, dec_place: nat, i: int) -> u8 {
    if out_of_range(negative, magnitude) {
        DASH
    } else if negative && i == 0 {
        DASH
    } else if is_leading_blank(negative, magnitude, dec_place, i) {
        BLANK
    } else {
        ((magnitude / place(i)) % 10) as u8
    }
}

/// The four codes of a magnitude, left to right.
pub open spec fn codes_of(negative: bool, magnitude: nat, dec_place: nat) -> Seq<u8> {
    Seq::new(NUM_DIGITS as nat, |i: int| code_at(negative, magnitude, dec_place, i))
}

/// Decomposes the integer `magnitude` (with its sign) into four digit codes,
/// left to right: all dashes when out of range, else a dash for the sign,
/// the decimal digits, and leading zeros blanked.
pub fn digit_codes(negative: bool, magnitude: u32, dec_place: usize) -> (r: [u8; 4])
    ensures
        r@ == codes_of(negative, magnitude as nat, dec_place as nat),
{
    if (!negative && magnitude > MAX_UNSIGNED) || (negative && magnitude > MAX_SIGNED) {
        let r: [u8; 4] = [DASH, DASH, DASH, DASH];
        assert(r@ =~= codes_of(negative, magnitude as nat, dec_place as nat));
        return r;
    }
    let d0: u8 = if negative {
        DASH
    } else {
        (magnitude / 1000) as u8
    };
    let d1: u8 = ((magnitude / 100) % 10) as u8;
    let d2: u8 = ((magnitude / 10) % 10) as u8;
    let d3: u8 = (magnitude % 10) as u8;
    let mut c0 = d0;
    let mut c1 = d1;
    let mut c2 = d2;
    if !negative {
        if d0 == 0 && dec_place <= 3 {
            c0 = BLANK;
            if d1 == 0 && dec_place <= 2 {
                c1 = BLANK;
                if d2 == 0 && dec_place <= 1 {
                    c2 = BLANK;
                }
            }
        }
    } else {
        if d1 == 0 && dec_place <= 2 {
            c1 = BLANK;
            if d2 == 0 && dec_place <= 1 {
                c2 = BLANK;
            }
        }
    }
    let r: [u8; 4] = [c0, c1, c2, d3];
    assert(r@ =~= codes_of(negative, magnitude as nat, dec_place as nat));
    r
}

/// The value a code stands for when the codes are read back as a number:
/// a digit is itself, a blank or a dash counts as zero.
pub open spec fn code_value(c: u8) -> nat {
    if c <= 9 {
        c as nat
    } else {
        0
    }
}

/// The number that four codes spell, left to right.
pub open spec fn assemble(codes: Seq<u8>) -> nat {
    1000 * code_value(codes[0]) + 100 * code_value(codes[1]) + 10 * code_value(codes[2])
        + code_value(codes[3])
}

/// Decomposing a magnitude that the display can show into codes and reading
/// the codes back, blanks and the sign counted as zero, gives the magnitude.
pub proof fn lemma_decompose_assemble(negative: bool, magnitude: nat, dec_place: nat)
    requires
        !out_of_range(negative, magnitude),
    ensures
        assemble(codes_of(negative, magnitude, dec_place)) == magnitude,
{
    let m = magnitude;
    let c = codes_of(negative, m, dec_place);
    assert(m == 1000 * (m / 1000) + 100 * ((m / 100) % 10) + 10 * ((m / 10) % 10) + m % 10)
        by (nonlinear_arith)
        requires
            m <= 9999,
    ;
    assert(code_value(c[0]) == (m / 1000) % 10);
    assert(code_value(c[1]) == (m / 100) % 10);
    assert(code_value(c[2]) == (m / 10) % 10);
    assert(code_value(c[3]) == m % 10);
}

/// Whether a speed, in ten-thousandths of a km/h, is too large to show.
pub open spec fn speed_out_of_range(value: int) -> bool {
    if value < 0 {
        -value > MAX_SIGNED * SPEED_SCALE
    } else {
        value > MAX_UNSIGNED * SPEED_SCALE
    }
}

/// The codes that show a speed given in ten-thousandths of a km/h: dashes
/// when it exceeds the range, else the codes of its magnitude truncated to
/// a whole number.
pub open spec fn speed_codes_of(value: int, dec_place: nat) -> Seq<u8> {
    if speed_out_of_range(value) {
        Seq::new(NUM_DIGITS as nat, |i: int| DASH)
    } else {
        codes_of(value < 0, (if value < 0 { -value } else { value }) as nat / SPEED_SCALE as nat, dec_place)
    }
}

/// The four digit codes that show `value`, a speed in ten-thousandths of a
/// km/h: sign extraction, the range policy on the exact value, then the
/// decomposition of its whole part.
pub fn speed_codes(value: i64, dec_place: usize) -> (r: [u8; 4])
    ensures
        r@ == speed_codes_of(value as int, dec_place as nat),
{
    let negative = value < 0;
    assert(MAX_UNSIGNED == 9999 && MAX_SIGNED == 999 && SPEED_SCALE == 10000);
    let magnitude: u64 = if negative {
        ((-(value + 1)) as u64) + 1
    } else {
        value as u64
    };
    let scale = SPEED_SCALE as u64;
    let limit: u64 = if negative {
        MAX_SIGNED as u64 * scale
    } else {
        MAX_UNSIGNED as u64 * scale
    };
    if magnitude > limit {
        let r: [u8; 4] = [DASH, DASH, DASH, DASH];
        assert(r@ =~= speed_codes_of(value as int, dec_place as nat));
        return r;
    }
    let whole = (magnitude / scale) as u32;
    digit_codes(negative, whole, dec_place)
}

} // verus!
