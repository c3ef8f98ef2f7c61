//! The LED grid: which tile stands where, and whether it is lit.

use crate::clock::ClockTime;
use crate::digits::bit_at;
use crate::digits::bits_of;
use crate::digits::decompose;
use crate::digits::digit_bits;
use vstd::prelude::*;

verus! {

/// Width and height of one tile, in pixels.
pub const LED_SIZE: u32 = 30;

/// Columns of the grid: tens and ones of hour, minute and second.
pub const GRID_COLUMNS: u8 = 6;

/// Rows of the grid; bit `b` of a digit stands in row `GRID_ROWS - 1 - b`,
/// so the most significant bit is nearest the top.
pub const GRID_ROWS: u8 = 4;

/// Bits drawn for a tens digit (at most 5).
pub const TENS_BITS: u8 = 3;

/// Bits drawn for a ones digit (at most 9).
pub const ONES_BITS: u8 = 4;

/// One tile of the grid.
#[derive(Clone, Copy, Debug, PartialEq, Eq, Structural)]
pub struct Led {
    pub on: bool,
    pub column: u8,
    pub row: u8,
}

impl Led {
    /// Left edge of the tile, in pixels.
    pub fn x(&self) -> (r: i32)
        ensures
            r == self.column * LED_SIZE,
    {
        assert(self.column * LED_SIZE <= 255 * 30) by (nonlinear_arith)
            requires
                self.column <= 255,
                LED_SIZE == 30,
        ;
        self.column as i32 * LED_SIZE as i32
    }

    /// Top edge of the tile, in pixels.
    pub fn y(&self) -> (r: i32)
        ensures
            r == self.row * LED_SIZE,
    {
        assert(self.row * LED_SIZE <= 255 * 30) by (nonlinear_arith)
            requires
                self.row <= 255,
                LED_SIZE == 30,
        ;
        self.row as i32 * LED_SIZE as i32
    }
}

/// The tiles of one digit column: bit `b` of `digit` at row `GRID_ROWS - 1 - b`.
pub open spec fn digit_leds(digit: nat, column: nat, width: nat) -> Seq<Led> {
    Seq::new(
        width,
        |b: int| Led { on: bit_at(digit, b as nat), column: column as u8, row: (GRID_ROWS - 1 - b) as u8 },
    )
}

/// The tiles of one time component: its tens digit in `column`, its ones digit
/// in the column after.
pub open spec fn component_leds(value: nat, column: nat) -> Seq<Led> {
    digit_leds(value / 10, column, TENS_BITS as nat) + digit_leds(
        value % 10,
        column + 1,
        ONES_BITS as nat,
    )
}

/// Every tile of the frame for `t`: hour, then minute, then second.
pub open spec fn clock_leds(t: ClockTime) -> Seq<Led> {
    component_leds(t.hour as nat, 0) + component_leds(t.minute as nat, 2) + component_leds(
        t.second as nat,
        4,
    )
}

/// Appends the tiles of `digit`, drawn with `bits` bits, in column `position`.
pub fn put_digit(leds: &mut Vec<Led>, digit: u8, bits: u8, position: u8)
    requires
        bits <= GRID_ROWS,
    ensures
        final(leds)@ == old(leds)@ + digit_leds(digit as nat, position as nat, bits as nat),
{
    let pattern = digit_bits(digit, bits);
    let ghost start = leds@;
    let mut bit: u8 = 0;
    while bit < bits
        invariant
            bit <= bits <= GRID_ROWS,
            pattern@ == bits_of(digit as nat, bits as nat),
            leds@ == start + digit_leds(digit as nat, position as nat, bit as nat),
        decreases bits - bit,
    {
        leds.push(Led { on: pattern[bit as usize], column: position, row: GRID_ROWS - 1 - bit });
        bit = bit + 1;
        assert(leds@ =~= start + digit_leds(digit as nat, position as nat, bit as nat));
    }
}

/// Appends the tiles of a time component: its tens digit with `bits0` bits in
/// column `position`, its ones digit with `bits1` bits in the column after.
pub fn put_time_component(leds: &mut Vec<Led>, value: u32, position: u8, bits0: u8, bits1: u8)
    requires
        value < 60,
        position < 255,
        bits0 <= GRID_ROWS,
        bits1 <= GRID_ROWS,
    ensures
        final(leds)@ == old(leds)@ + digit_leds(value as nat / 10, position as nat, bits0 as nat)
            + digit_leds(value as nat % 10, position as nat + 1, bits1 as nat),
{
    let (tens, ones) = decompose(value);
    put_digit(leds, tens, bits0, position);
    put_digit(leds, ones, bits1, position + 1);
}

/// Every tile of the frame that shows `time`.
pub fn clock_frame(time: &ClockTime) -> (r: Vec<Led>)
    requires
        time.wf(),
    ensures
        r@ == clock_leds(*time),
        r@.len() == 3 * (TENS_BITS + ONES_BITS),
{
    let mut leds: Vec<Led> = Vec::new();
    put_time_component(&mut leds, time.hour, 0, TENS_BITS, ONES_BITS);
    put_time_component(&mut leds, time.minute, 2, TENS_BITS, ONES_BITS);
    put_time_component(&mut leds, time.second, 4, TENS_BITS, ONES_BITS);
    assert(leds@ =~= clock_leds(*time));
    leds
}

} // verus!
