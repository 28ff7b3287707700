//! The playing field: a fixed grid of cells and the containers that fall
//! into it.

use vstd::prelude::*;

verus! {

/// Number of columns of the grid.
pub const COLUMNS: u16 = 10;

/// Number of rows of the grid. Row 0 is the top.
pub const ROWS: u16 = 15;

/// The lowest row, on which containers and the player come to rest.
pub const GROUND_ROW: u16 = 14;

/// The rightmost column.
pub const LAST_COLUMN: u16 = 9;

/// A falling container sinks through this many sub-steps before it enters
/// the next row.
pub const FALL_PHASES: u16 = 2;

/// The most containers the field ever holds: one for each cell.
pub const MAX_CONTAINERS: usize = 150;

/// A display tint: red, green and blue.
#[derive(Clone, Copy, Debug, PartialEq, Eq, Structural)]
pub struct Rgb {
    pub r: u8,
    pub g: u8,
    pub b: u8,
}

/// A container: the cell it is in, how far it has sunk towards the next
/// row, and its tint.
#[derive(Clone, Copy, Debug, PartialEq, Eq)]
pub struct Container {
    pub pos: (u16, u16),
    pub extra_fall_height: u16,
    pub color: Rgb,
}

/// Whether the container is in the cell `(x, y)`.
pub open spec fn sits_at(container: Container, x: int, y: int) -> bool {
    container.pos.0 == x && container.pos.1 == y
}

/// Whether some container of `stack` is in the cell `(x, y)`.
pub open spec fn occupied(stack: Seq<Container>, x: int, y: int) -> bool {
    exists|i: int| 0 <= i < stack.len() && sits_at(#[trigger] stack[i], x, y)
}

/// Whether a container has come down as far as it can: it is in the ground
/// row, or the cell below it is taken.
pub open spec fn on_ground(stack: Seq<Container>, container: Container) -> bool {
    container.pos.1 >= GROUND_ROW || occupied(
        stack,
        container.pos.0 as int,
        container.pos.1 + 1,
    )
}

/// The container one sub-step further down: the fall height grows until it
/// reaches [`FALL_PHASES`], then the container enters the next row.
pub open spec fn lowered(container: Container) -> Container {
    if container.extra_fall_height < FALL_PHASES {
        Container {
            extra_fall_height: (container.extra_fall_height + 1) as u16,
            ..container
        }
    } else {
        Container {
            pos: (container.pos.0, (container.pos.1 + 1) as u16),
            extra_fall_height: 0,
            ..container
        }
    }
}

/// Whether the player's footprint touches a container. The footprint is the
/// player's cell, the cell to its right when the player stands more than
/// four sub-steps into it, the cell below when the player hangs between two
/// rows, and the cell diagonally below when both hold.
pub open spec fn overlaps(stack: Seq<Container>, pos: (u16, u16), extra: (u16, u16)) -> bool {
    ||| occupied(stack, pos.0 as int, pos.1 as int)
    ||| extra.0 > WIDE_OFFSET && occupied(stack, pos.0 + 1, pos.1 as int)
    ||| extra.1 > 0 && occupied(stack, pos.0 as int, pos.1 + 1)
    ||| extra.1 > 0 && extra.0 > WIDE_OFFSET && occupied(stack, pos.0 + 1, pos.1 + 1)
}

/// A player further than this many sub-steps into its cell reaches into the
/// column to the right.
pub const WIDE_OFFSET: u16 = 4;

/// Whether a container of `stack` is in the cell `(x, y)`.
pub fn stack_has(stack: &Vec<Container>, x: u16, y: u16) -> (found: bool)
    ensures
        found == occupied(stack@, x as int, y as int),
{
    let mut i: usize = 0;
    while i < stack.len()
        invariant
            i <= stack.len(),
            forall|k: int| 0 <= k < i ==> !sits_at(#[trigger] stack@[k], x as int, y as int),
        decreases stack.len() - i,
    {
        if stack[i].pos.0 == x && stack[i].pos.1 == y {
            assert(sits_at(stack@[i as int], x as int, y as int));
            return true;
        }
        i += 1;
    }
    false
}

} // verus!
