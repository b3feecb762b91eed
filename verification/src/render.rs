//! Digit rendering onto the 5x5 pixel grid.
//!
//! Each digit occupies one column as a 5-bit vertical bar code: bit `b` of the
//! digit (least-significant first) maps to row `4 - b`, so a set bit lights a
//! pixel and the bottom row carries the lowest bit. Hours use columns 0-1,
//! minutes columns 3-4; column 2 is reserved for the blinking colon.

use vstd::prelude::*;

verus! {

/// Bit `b` of `digit`, least-significant first, as a pixel value 0 or 1.
pub open spec fn digit_bit(digit: u32, b: u32) -> u8 {
    if (digit >> b) & 1 == 1 {
        1u8
    } else {
        0u8
    }
}

/// Pixel value 0 or 1 of bit `bit` of `digit`.
pub fn get_bit(digit: u32, bit: i32) -> (r: u8)
    requires
        0 <= bit < 8,
    ensures
        r == digit_bit(digit, bit as u32),
{
    let b: u32 = bit as u32;
    let masked: u32 = digit & (0x01u32 << b);
    proof {
        assert((digit & (0x01u32 << b) > 0) == ((digit >> b) & 1 == 1)) by (bit_vector)
            requires
                b < 8,
        ;
    }
    if masked > 0 {
        1
    } else {
        0
    }
}

/// Column `col` of `leds` carries the 5-bit bar code of `digit`: bit `b` of
/// the digit stands in row `4 - b`, so the bottom row holds the lowest bit.
pub open spec fn encodes_digit(leds: [[u8; 5]; 5], col: int, digit: u32) -> bool {
    forall|b: u32| b < 5 ==> leds[4 - b][col] == #[trigger] digit_bit(digit, b)
}

/// The value read back from the bar code in column `col`: each row's pixel
/// weighted by its bit position, bottom row least significant.
pub open spec fn column_code(leds: [[u8; 5]; 5], col: int) -> u32 {
    (16 * leds[0][col] + 8 * leds[1][col] + 4 * leds[2][col] + 2 * leds[3][col]
        + leds[4][col]) as u32
}

/// Writes the 5-bit bar code of `digit` into column `col`, leaving every
/// other column untouched. Only the five lowest bits of `digit` are drawn;
/// the digits produced by a time value (0-9) always fit.
pub fn set_column(col: usize, digit: u32, leds: &mut [[u8; 5]; 5])
    requires
        col < 5,
    ensures
        encodes_digit(*final(leds), col as int, digit),
        forall|r: int, c: int|
            0 <= r < 5 && 0 <= c < 5 && c != col ==> final(leds)[r][c] == old(leds)[r][c],
{
    let bit_0 = get_bit(digit, 0);
    let bit_1 = get_bit(digit, 1);
    let bit_2 = get_bit(digit, 2);
    let bit_3 = get_bit(digit, 3);
    let bit_4 = get_bit(digit, 4);
    leds[4][col] = bit_0;
    leds[3][col] = bit_1;
    leds[2][col] = bit_2;
    leds[1][col] = bit_3;
    leds[0][col] = bit_4;
}

/// Reads the bar code of column `col` back as a binary value.
pub fn column_value(leds: &[[u8; 5]; 5], col: usize) -> (r: u32)
    requires
        col < 5,
    ensures
        r == column_code(*leds, col as int),
{
    16 * (leds[0][col] as u32) + 8 * (leds[1][col] as u32) + 4 * (leds[2][col] as u32) + 2 * (
    leds[3][col] as u32) + (leds[4][col] as u32)
}

/// A bar code read back from a rendered column recovers the digit exactly,
/// for every digit the five bits can carry.
pub proof fn lemma_column_round_trip(leds: [[u8; 5]; 5], col: int, digit: u32)
    requires
        0 <= col < 5,
        digit < 32,
        encodes_digit(leds, col, digit),
    ensures
        column_code(leds, col) == digit,
{
    assert(leds[4][col] == digit_bit(digit, 0));
    assert(leds[3][col] == digit_bit(digit, 1));
    assert(leds[2][col] == digit_bit(digit, 2));
    assert(leds[1][col] == digit_bit(digit, 3));
    assert(leds[0][col] == digit_bit(digit, 4));
    assert(16 * digit_bit(digit, 4) + 8 * digit_bit(digit, 3) + 4 * digit_bit(digit, 2) + 2
        * digit_bit(digit, 1) + digit_bit(digit, 0) == digit) by (bit_vector)
        requires
            digit < 32,
    ;
}

/// Renders an hours/minutes pair into the four digit columns: hours tens and
/// units into columns 0 and 1, minutes tens and units into columns 3 and 4.
/// Column 2, the colon column, is left untouched.
pub fn set_time(hours: u32, minutes: u32, leds: &mut [[u8; 5]; 5])
    requires
        hours < 100,
        minutes < 100,
    ensures
        encodes_digit(*final(leds), 0, hours / 10),
        encodes_digit(*final(leds), 1, hours % 10),
        encodes_digit(*final(leds), 3, minutes / 10),
        encodes_digit(*final(leds), 4, minutes % 10),
        forall|r: int| 0 <= r < 5 ==> final(leds)[r][2] == old(leds)[r][2],
{
    let first_digit = hours / 10;
    let second_digit = hours % 10;
    let third_digit = minutes / 10;
    let fourth_digit = minutes % 10;
    set_column(0, first_digit, leds);
    set_column(1, second_digit, leds);
    set_column(3, third_digit, leds);
    set_column(4, fourth_digit, leds);
}

/// Rendering a time and then reading the four digit columns back recovers the
/// hours from columns 0-1 and the minutes from columns 3-4, for every time of
/// day.
pub proof fn lemma_time_round_trip(leds: [[u8; 5]; 5], hours: u32, minutes: u32)
    requires
        hours < 24,
        minutes < 60,
        encodes_digit(leds, 0, hours / 10),
        encodes_digit(leds, 1, hours % 10),
        encodes_digit(leds, 3, minutes / 10),
        encodes_digit(leds, 4, minutes % 10),
    ensures
        10 * column_code(leds, 0) + column_code(leds, 1) == hours,
        10 * column_code(leds, 3) + column_code(leds, 4) == minutes,
{
    lemma_column_round_trip(leds, 0, hours / 10);
    lemma_column_round_trip(leds, 1, hours % 10);
    lemma_column_round_trip(leds, 3, minutes / 10);
    lemma_column_round_trip(leds, 4, minutes % 10);
}

/// Pixel value of the colon cells for a given colon state.
pub open spec fn colon_pixel(state: bool) -> u8 {
    if state {
        1u8
    } else {
        0u8
    }
}

/// `post` is `pre` with the colon (cells `[3][2]` and `[4][2]`) set to the
/// given state and every other cell untouched.
pub open spec fn colon_set(pre: [[u8; 5]; 5], post: [[u8; 5]; 5], state: bool) -> bool {
    &&& post[3][2] == colon_pixel(state)
    &&& post[4][2] == colon_pixel(state)
    &&& forall|r: int, c: int|
        0 <= r < 5 && 0 <= c < 5 && !(c == 2 && (r == 3 || r == 4)) ==> post[r][c] == pre[r][c]
}

/// Turns the colon cells on or off, leaving every other cell untouched.
pub fn set_colon(state: bool, leds: &mut [[u8; 5]; 5])
    ensures
        colon_set(*old(leds), *final(leds), state),
{
    let mut i: u8 = 0;
    if state {
        i = 1;
    }
    leds[3][2] = i;
    leds[4][2] = i;
}

/// Setting the colon to a state twice leaves the same grid as setting it once.
pub proof fn lemma_colon_idempotent(
    g0: [[u8; 5]; 5],
    g1: [[u8; 5]; 5],
    g2: [[u8; 5]; 5],
    state: bool,
)
    requires
        colon_set(g0, g1, state),
        colon_set(g1, g2, state),
    ensures
        forall|r: int, c: int| 0 <= r < 5 && 0 <= c < 5 ==> g2[r][c] == g1[r][c],
{
}

/// Setting the colon on and then off leaves both colon cells at 0 and every
/// other cell as it was before either operation.
pub proof fn lemma_colon_on_then_off(g0: [[u8; 5]; 5], g1: [[u8; 5]; 5], g2: [[u8; 5]; 5])
    requires
        colon_set(g0, g1, true),
        colon_set(g1, g2, false),
    ensures
        g2[3][2] == 0,
        g2[4][2] == 0,
        forall|r: int, c: int|
            0 <= r < 5 && 0 <= c < 5 && !(c == 2 && (r == 3 || r == 4)) ==> g2[r][c] == g0[r][c],
{
}

} // verus!
