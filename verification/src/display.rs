//! The 64x32 monochrome screen and how a sprite composes onto it.
//!
//! Cells are numbered row by row: cell `c` is the pixel in column `c % 64` of
//! row `c / 64`. A sprite is a run of bytes, one per row, whose highest bit is
//! the leftmost pixel. Sprites wrap around both screen edges.

use vstd::prelude::*;
use crate::ram::cell_of;

verus! {

/// Pixels per screen row.
pub const SCREEN_WIDTH: usize = 64;

/// Screen rows.
pub const SCREEN_HEIGHT: usize = 32;

/// The framebuffer with every pixel off.
pub open spec fn blank_screen() -> Seq<u8> {
    Seq::new(2048, |cell: int| 0u8)
}

/// Whether the pixel in column `col` of a sprite row is set; column 0 is the highest bit.
pub open spec fn row_bit(row: u8, col: int) -> bool {
    (row >> ((7 - col) as u8)) & 1 == 1
}

/// How many columns to the right of the sprite's left edge `cell` lies, wrapping at the screen edge.
pub open spec fn sprite_column(vx: u8, cell: int) -> int {
    (cell % 64 - vx % 64) % 64
}

/// How many rows below the sprite's top edge `cell` lies, wrapping at the screen edge.
pub open spec fn sprite_row(vy: u8, cell: int) -> int {
    (cell / 64 - vy % 32) % 32
}

/// Whether the sprite of `height` rows stored at `index`, drawn with its top
/// left corner at column `vx % 64` of row `vy % 32`, has a set pixel on `cell`.
pub open spec fn sprite_lights(
    memory: Seq<u8>,
    index: u16,
    height: int,
    vx: u8,
    vy: u8,
    cell: int,
) -> bool {
    let col = sprite_column(vx, cell);
    let row = sprite_row(vy, cell);
    col < 8 && row < height && row_bit(memory[cell_of(index + row)], col)
}

/// Whether the sprite has a set pixel on `cell` in a sprite row above `row`,
/// or in sprite row `row` left of column `col`: the part of the sprite that
/// a row-by-row, left-to-right pass has composed when it reaches (`row`, `col`).
pub open spec fn sprite_lights_before(
    memory: Seq<u8>,
    index: u16,
    height: int,
    vx: u8,
    vy: u8,
    cell: int,
    row: int,
    col: int,
) -> bool {
    sprite_lights(memory, index, height, vx, vy, cell) && (sprite_row(vy, cell) < row || (
    sprite_row(vy, cell) == row && sprite_column(vx, cell) < col))
}

/// The framebuffer cell under column `col` of row `row` of a sprite drawn at (`vx`, `vy`).
pub open spec fn sprite_cell(vx: u8, vy: u8, row: int, col: int) -> int {
    ((vy % 32 + row) % 32) * 64 + (vx % 64 + col) % 64
}

/// Walking `offset` steps from `origin` around a ring of `size` places and
/// measuring the distance back from `origin` gives `offset` again.
proof fn lemma_ring_there(origin: int, offset: int, size: int)
    requires
        size > 0,
        0 <= origin < size,
        0 <= offset < size,
    ensures
        0 <= (origin + offset) % size < size,
        ((origin + offset) % size - origin) % size == offset,
{
    if origin + offset < size {
        assert((origin + offset) % size == origin + offset) by (nonlinear_arith)
            requires
                0 <= origin + offset < size,
        ;
        assert(offset % size == offset) by (nonlinear_arith)
            requires
                0 <= offset < size,
        ;
    } else {
        let back = origin + offset - size;
        assert((origin + offset) % size == back) by (nonlinear_arith)
            requires
                back == origin + offset - size,
                0 <= back < size,
                size > 0,
        ;
        assert((back - origin) % size == offset) by (nonlinear_arith)
            requires
                back - origin == offset - size,
                0 <= offset < size,
                size > 0,
        ;
    }
}

/// Measuring the distance from `origin` to `place` around a ring and walking
/// that far from `origin` leads to `place` again.
proof fn lemma_ring_back(origin: int, place: int, size: int)
    requires
        size > 0,
        0 <= origin < size,
        0 <= place < size,
    ensures
        0 <= (place - origin) % size < size,
        (origin + (place - origin) % size) % size == place,
{
    if place >= origin {
        assert((place - origin) % size == place - origin) by (nonlinear_arith)
            requires
                0 <= place - origin < size,
        ;
        assert(place % size == place) by (nonlinear_arith)
            requires
                0 <= place < size,
        ;
    } else {
        let distance = place - origin + size;
        assert((place - origin) % size == distance) by (nonlinear_arith)
            requires
                distance == place - origin + size,
                0 <= distance < size,
                size > 0,
        ;
        assert((origin + distance) % size == place) by (nonlinear_arith)
            requires
                origin + distance == place + size,
                0 <= place < size,
                size > 0,
        ;
    }
}

/// The cell under a sprite pixel lies on the screen, and the pixel's row and
/// column are read back from it.
pub proof fn lemma_sprite_cell(vx: u8, vy: u8, row: int, col: int)
    requires
        0 <= row < 32,
        0 <= col < 64,
    ensures
        0 <= sprite_cell(vx, vy, row, col) < 2048,
        sprite_column(vx, sprite_cell(vx, vy, row, col)) == col,
        sprite_row(vy, sprite_cell(vx, vy, row, col)) == row,
{
    let left = (vx % 64) as int;
    let top = (vy % 32) as int;
    lemma_ring_there(left, col, 64);
    lemma_ring_there(top, row, 32);
    let p = (left + col) % 64;
    let q = (top + row) % 32;
    assert((q * 64 + p) % 64 == p && (q * 64 + p) / 64 == q);
}

/// Every framebuffer cell lies under exactly one pixel position of a
/// screen-wide, screen-high grid anchored at the sprite's corner.
pub proof fn lemma_cell_sprite(vx: u8, vy: u8, cell: int)
    requires
        0 <= cell < 2048,
    ensures
        0 <= sprite_row(vy, cell) < 32,
        0 <= sprite_column(vx, cell) < 64,
        sprite_cell(vx, vy, sprite_row(vy, cell), sprite_column(vx, cell)) == cell,
{
    let left = (vx % 64) as int;
    let top = (vy % 32) as int;
    lemma_ring_back(left, cell % 64, 64);
    lemma_ring_back(top, cell / 64, 32);
}

/// A pixel after it was flipped.
pub open spec fn toggled(pixel: u8) -> u8 {
    if pixel == 0 {
        1
    } else {
        0
    }
}

/// The framebuffer after the sprite was composed onto it by exclusive or:
/// every cell under a set sprite pixel flips, every other cell stays.
pub open spec fn draw_screen(
    fb: Seq<u8>,
    memory: Seq<u8>,
    index: u16,
    height: int,
    vx: u8,
    vy: u8,
) -> Seq<u8> {
    Seq::new(
        fb.len(),
        |cell: int|
            if sprite_lights(memory, index, height, vx, vy, cell) {
                toggled(fb[cell])
            } else {
                fb[cell]
            },
    )
}

/// Whether composing the sprite turns off a pixel that was on.
pub open spec fn draw_collides(
    fb: Seq<u8>,
    memory: Seq<u8>,
    index: u16,
    height: int,
    vx: u8,
    vy: u8,
) -> bool {
    exists|cell: int|
        0 <= cell < fb.len() && fb[cell] != 0 && #[trigger] sprite_lights(
            memory,
            index,
            height,
            vx,
            vy,
            cell,
        )
}

/// Column and row of a framebuffer cell.
pub fn cell_position(cell: usize) -> (position: (usize, usize))
    ensures
        position.0 == cell % 64,
        position.1 == cell / 64,
{
    (cell % SCREEN_WIDTH, cell / SCREEN_WIDTH)
}

} // verus!
