//! Where the field lies on a screen of character cells: seven characters
//! across and three lines down for each cell of the grid, centred
//! horizontally and standing on the bottom line.

use crate::grid::{Container, COLUMNS, FALL_PHASES, ROWS};
use crate::player::{MAX_LIFT, MAX_OFFSET};
use vstd::prelude::*;

verus! {

/// Characters across one cell of the grid.
pub const CELL_WIDTH: u16 = 7;

/// Lines down one cell of the grid.
pub const CELL_HEIGHT: u16 = 3;

/// The narrowest screen that holds the field.
pub const MIN_WIDTH: u16 = 70;

/// The lowest screen that holds the field and the line of text above it.
pub const MIN_HEIGHT: u16 = 46;

/// The highest screen on which the lowest line that the player's figure can
/// reach still has a number.
pub const MAX_HEIGHT: u16 = 65532;

/// Characters taken by the score.
pub const SCORE_WIDTH: u16 = 11;

/// Characters taken by the notice that the game is over.
pub const NOTICE_WIDTH: u16 = 10;

/// A rectangle of the screen: its top left corner and its size.
#[derive(Clone, Copy, Debug, PartialEq, Eq)]
pub struct Area {
    pub x: u16,
    pub y: u16,
    pub width: u16,
    pub height: u16,
}

/// Whether a screen of this size holds the field.
pub open spec fn fits(width: u16, height: u16) -> bool {
    width >= MIN_WIDTH && MIN_HEIGHT <= height <= MAX_HEIGHT
}

/// The screen column of the left edge of the field.
pub open spec fn field_left(width: u16) -> int {
    width / 2 - 5 * CELL_WIDTH
}

/// The screen line of the top edge of the field.
pub open spec fn field_top(height: u16) -> int {
    height - ROWS * CELL_HEIGHT
}

/// Whether a screen of this size holds the field.
pub fn screen_fits(width: u16, height: u16) -> (ok: bool)
    ensures
        ok == fits(width, height),
{
    width >= MIN_WIDTH && MIN_HEIGHT <= height && height <= MAX_HEIGHT
}

/// The rectangle that a container covers: one cell, one line further down
/// for each sub-step it has sunk.
pub fn container_area(container: &Container, width: u16, height: u16) -> (area: Area)
    requires
        fits(width, height),
        container.pos.0 < COLUMNS,
        container.pos.1 < ROWS,
        container.extra_fall_height <= FALL_PHASES,
    ensures
        area.x == field_left(width) + container.pos.0 * CELL_WIDTH,
        area.y == field_top(height) + container.pos.1 * CELL_HEIGHT + container.extra_fall_height,
        area.width == CELL_WIDTH,
        area.height == CELL_HEIGHT,
{
    let left = width / 2 - 5 * CELL_WIDTH;
    let top = height - ROWS * CELL_HEIGHT;
    Area {
        x: left + container.pos.0 * CELL_WIDTH,
        y: top + container.pos.1 * CELL_HEIGHT + container.extra_fall_height,
        width: CELL_WIDTH,
        height: CELL_HEIGHT,
    }
}

/// The rectangle of one line of the player's figure, which is three lines
/// high: one character further right for each sub-step across, one line
/// further down for each sub-step down.
pub fn player_area(pos: (u16, u16), extra: (u16, u16), line: u16, width: u16, height: u16) -> (area:
    Area)
    requires
        fits(width, height),
        pos.0 < COLUMNS,
        pos.1 < ROWS,
        extra.0 <= MAX_OFFSET,
        extra.1 <= MAX_LIFT,
        line < CELL_HEIGHT,
    ensures
        area.x == field_left(width) + pos.0 * CELL_WIDTH + extra.0,
        area.y == field_top(height) + pos.1 * CELL_HEIGHT + line + extra.1,
        area.width == CELL_WIDTH,
        area.height == 1,
{
    let left = width / 2 - 5 * CELL_WIDTH;
    let top = height - ROWS * CELL_HEIGHT;
    Area {
        x: left + pos.0 * CELL_WIDTH + extra.0,
        y: top + pos.1 * CELL_HEIGHT + line + extra.1,
        width: CELL_WIDTH,
        height: 1,
    }
}

/// The rectangle of the score: on the line above the field, ending at the
/// field's right edge.
pub fn score_area(width: u16, height: u16) -> (area: Area)
    requires
        fits(width, height),
    ensures
        area.x + area.width == field_left(width) + COLUMNS * CELL_WIDTH,
        area.y == field_top(height) - 1,
        area.width == SCORE_WIDTH,
        area.height == 1,
{
    Area {
        x: width / 2 + 24,
        y: height - ROWS * CELL_HEIGHT - 1,
        width: SCORE_WIDTH,
        height: 1,
    }
}

/// The rectangle of the notice that the game is over: on the line above
/// the field, centred.
pub fn notice_area(width: u16, height: u16) -> (area: Area)
    requires
        fits(width, height),
    ensures
        area.x == width / 2 - NOTICE_WIDTH / 2,
        area.y == field_top(height) - 1,
        area.width == NOTICE_WIDTH,
        area.height == 1,
{
    Area {
        x: width / 2 - 5,
        y: height - ROWS * CELL_HEIGHT - 1,
        width: NOTICE_WIDTH,
        height: 1,
    }
}

/// The screen column at which a text of `len` characters begins that ends
/// at the right edge of the area.
pub fn right_aligned(area: &Area, len: u16) -> (x: u16)
    requires
        area.x + area.width <= u16::MAX,
        len <= area.x + area.width,
    ensures
        x == area.x + area.width - len,
{
    area.x + area.width - len
}

} // verus!
