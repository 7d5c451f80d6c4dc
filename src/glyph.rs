//! Digit codes and the seven-segment glyph table.
use vstd::prelude::*;

verus! {

/// Digit code of the blank glyph (all segments off).
pub const BLANK: u8 = 20;

/// Digit code of the dash glyph (only the middle segment on): a minus
/// sign, or, on all four positions, an out-of-range value.
pub const DASH: u8 = 21;

/// Number of segments of a glyph (a to g), without the decimal point.
pub const GLYPH_SEGMENTS: usize = 7;

/// Whether `code` is one of the codes that the table knows.
pub open spec fn is_known_code(code: u8) -> bool {
    code <= 9 || code == BLANK || code == DASH
}

/// The conventional shape of each code, segments a, b, c, d, e, f, g in order;
/// every code outside the known set shows the error glyph.
pub open spec fn glyph_of(code: u8) -> Seq<bool> {
    if code == 0 {
        seq![true, true, true, true, true, true, false]
    } else if code == 1 {
        seq![false, true, true, false, false, false, false]
    } else if code == 2 {
        seq![true, true, false, true, true, false, true]
    } else if code == 3 {
        seq![true, true, true, true, false, false, true]
    } else if code == 4 {
        seq![false, true, true, false, false, true, true]
    } else if code == 5 {
        seq![true, false, true, true, false, true, true]
    } else if code == 6 {
        seq![true, false, true, true, true, true, true]
    } else if code == 7 {
        seq![true, true, true, false, false, false, false]
    } else if code == 8 {
        seq![true, true, true, true, true, true, true]
    } else if code == 9 {
        seq![true, true, true, true, false, true, true]
    } else if code == BLANK {
        seq![false, false, false, false, false, false, false]
    } else if code == DASH {
        seq![false, false, false, false, false, false, true]
    } else {
        error_glyph()
    }
}

/// The error glyph: segments c, d, e and g, a small "o" with a bar.
pub open spec fn error_glyph() -> Seq<bool> {
    seq![false, false, true, true, true, false, true]
}

/// Segment pattern (a to g) that lights the glyph of `code`.
pub fn glyph(code: u8) -> (r: [bool; 7])
    ensures
        r@ == glyph_of(code),
{
    let r: [bool; 7] = match code {
        0 => [true, true, true, true, true, true, false],
        1 => [false, true, true, false, false, false, false],
        2 => [true, true, false, true, true, false, true],
        3 => [true, true, true, true, false, false, true],
        4 => [false, true, true, false, false, true, true],
        5 => [true, false, true, true, false, true, true],
        6 => [true, false, true, true, true, true, true],
        7 => [true, true, true, false, false, false, false],
        8 => [true, true, true, true, true, true, true],
        9 => [true, true, true, true, false, true, true],
        BLANK => [false, false, false, false, false, false, false],
        DASH => [false, false, false, false, false, false, true],
        _ => [false, false, true, true, true, false, true],
    };
    assert(r@ =~= glyph_of(code));
    r
}

/// Every known code has its own glyph: two different known codes never
/// light the same segments, and none of them lights the error glyph, which
/// every unknown code shows.
pub proof fn lemma_glyphs_distinct(a: u8, b: u8)
    ensures
        is_known_code(a) && is_known_code(b) && a != b ==> glyph_of(a) != glyph_of(b),
        is_known_code(a) ==> glyph_of(a) != error_glyph(),
        !is_known_code(a) ==> glyph_of(a) == error_glyph(),
{
    if is_known_code(a) && is_known_code(b) && glyph_of(a) == glyph_of(b) {
        assert(glyph_of(a)[0] == glyph_of(b)[0]);
        assert(glyph_of(a)[1] == glyph_of(b)[1]);
        assert(glyph_of(a)[2] == glyph_of(b)[2]);
        assert(glyph_of(a)[3] == glyph_of(b)[3]);
        assert(glyph_of(a)[4] == glyph_of(b)[4]);
        assert(glyph_of(a)[5] == glyph_of(b)[5]);
        assert(glyph_of(a)[6] == glyph_of(b)[6]);
    }
    if is_known_code(a) && glyph_of(a) == error_glyph() {
        assert(glyph_of(a)[0] == error_glyph()[0]);
        assert(glyph_of(a)[1] == error_glyph()[1]);
        assert(glyph_of(a)[4] == error_glyph()[4]);
        assert(glyph_of(a)[5] == error_glyph()[5]);
        assert(glyph_of(a)[6] == error_glyph()[6]);
    }
}

} // verus!
