//! The rules of the game as a state machine over plain values: what one
//! tick does to the field, the player and the score, for every reading of
//! the clocks and every draw of the spawner.

use crate::grid::{
    lowered, occupied, on_ground, overlaps, sits_at, Container, Rgb, COLUMNS, FALL_PHASES,
    GROUND_ROW, MAX_CONTAINERS, ROWS, WIDE_OFFSET,
};
use crate::player::{may_read, player_valid, stepped, sunk, PlayerView};
use vstd::prelude::*;

verus! {

/// Milliseconds between the landing of one container and the next spawn.
pub const SPAWN_WAIT_MS: u128 = 3000;

/// Milliseconds between two sub-steps of a falling container.
pub const FALL_STEP_MS: u128 = 30;

/// The game as the rules see it.
pub struct GameView {
    /// Every container in play, oldest first. While one is in flight it is
    /// the last; all before it are at rest.
    pub containers: Seq<Container>,
    /// The player.
    pub player: PlayerView,
    /// Duration of the timer that paces spawning and falling.
    pub interval: nat,
    /// Whether the last container is still falling.
    pub in_flight: bool,
    /// Whether the game has ended.
    pub over: bool,
    /// Whether the host has paused the game.
    pub paused: bool,
    /// The score.
    pub points: nat,
}

/// A draw of the spawner: a column and a tint.
#[derive(Clone, Copy, Debug, PartialEq, Eq)]
pub struct Spawn {
    pub column: u16,
    pub color: Rgb,
}

/// What the outside world feeds into one tick: the readings of the clocks,
/// in the order in which a tick takes them, and the draw of the spawner.
#[derive(Clone, Copy, Debug, PartialEq, Eq)]
pub struct TickInput {
    /// The shared timer, read before the container in flight is moved.
    pub fall_due: bool,
    /// The shared timer, read again before a container is spawned.
    pub spawn_due: bool,
    /// The draw that the spawner settled on, if it found one.
    pub draw: Option<Spawn>,
    /// The player's walk timer.
    pub walk_due: bool,
    /// The player's jump timer, read for the jump.
    pub jump_due: bool,
    /// The player's jump timer, read again for the player's fall.
    pub sink_due: bool,
}

/// Whether the spawner is at work: no container is in flight and the
/// field is not full.
pub open spec fn spawner_at_work(g: GameView) -> bool {
    !g.in_flight && g.containers.len() < MAX_CONTAINERS
}

/// What the clocks and the spawner can feed a tick of the game `g`. A
/// timer without duration always reads as due. The shared timer is read a
/// second time only while the spawner is at work, after the container in
/// flight has moved. The spawner settles only on a draw that may enter,
/// and comes away empty only if the top cell of some column is taken.
pub open spec fn feasible(g: GameView, input: TickInput) -> bool {
    let fallen = fall_phase(g, input.fall_due);
    &&& may_read(g.interval, input.fall_due)
    &&& may_read(g.player.walk_interval, input.walk_due)
    &&& may_read(g.player.jump_interval, input.jump_due)
    &&& may_read(g.player.jump_interval, input.sink_due)
    &&& input.spawn_due ==> spawner_at_work(fallen)
    &&& spawner_at_work(fallen) ==> may_read(fallen.interval, input.spawn_due)
    &&& input.draw matches Some(draw) ==> input.spawn_due && can_spawn(fallen, draw.column)
    &&& input.spawn_due && input.draw is None ==> exists|x: int|
        0 <= x < COLUMNS && #[trigger] occupied(g.containers, x, 0)
}

/// How many containers are at rest: all but the one in flight.
pub open spec fn resting(g: GameView) -> int {
    if g.in_flight {
        g.containers.len() - 1
    } else {
        g.containers.len() as int
    }
}

/// The container lies inside the grid and its fall height is in range.
pub open spec fn in_grid(container: Container) -> bool {
    &&& container.pos.0 < COLUMNS
    &&& container.pos.1 < ROWS
    &&& container.extra_fall_height <= FALL_PHASES
}

/// The container is in the ground row or stands on one of the first
/// `resting` containers of `stack`.
pub open spec fn held_up(stack: Seq<Container>, resting: int, container: Container) -> bool {
    container.pos.1 >= GROUND_ROW || exists|j: int|
        0 <= j < resting && sits_at(#[trigger] stack[j], container.pos.0 as int, container.pos.1 + 1)
}

/// The field is one that play can produce: every container is inside the
/// grid, no two share a cell, each of the first `resting` lies flat on the
/// ground or on another of them, and a container that has begun to sink
/// towards the next row has nothing below it.
#[verifier::opaque]
pub open spec fn stack_valid(stack: Seq<Container>, resting: int) -> bool {
    &&& forall|i: int| 0 <= i < stack.len() ==> in_grid(#[trigger] stack[i])
    &&& forall|i: int, j: int|
        0 <= i < j < stack.len() ==> (#[trigger] stack[i]).pos != (#[trigger] stack[j]).pos
    &&& forall|i: int|
        0 <= i < resting ==> (#[trigger] stack[i]).extra_fall_height == 0 && held_up(
            stack,
            resting,
            stack[i],
        )
    &&& forall|i: int|
        resting <= i < stack.len() && (#[trigger] stack[i]).extra_fall_height > 0 ==> !on_ground(
            stack,
            stack[i],
        )
}

/// The invariant of the game: a valid field and player, at most the last
/// container in flight, no more containers than cells, and one point for
/// each container at rest.
pub open spec fn valid(g: GameView) -> bool {
    &&& player_valid(g.player)
    &&& g.in_flight ==> g.containers.len() > 0
    &&& g.containers.len() <= MAX_CONTAINERS
    &&& stack_valid(g.containers, resting(g))
    &&& g.points == resting(g)
}

/// Whether the player's footprint touches a container.
pub open spec fn crushed(g: GameView) -> bool {
    overlaps(g.containers, g.player.pos, g.player.extra)
}

/// The container in flight comes to rest if it is on the ground, which
/// scores a point and arms the shared timer for the next spawn; otherwise
/// it sinks by one sub-step.
pub open spec fn dropped(g: GameView) -> GameView {
    let last = g.containers.len() - 1;
    if on_ground(g.containers, g.containers[last]) {
        GameView { in_flight: false, points: g.points + 1, interval: SPAWN_WAIT_MS as nat, ..g }
    } else {
        GameView { containers: g.containers.update(last, lowered(g.containers[last])), ..g }
    }
}

/// The part of a tick that moves the container in flight, when the shared
/// timer is due.
pub open spec fn fall_phase(g: GameView, due: bool) -> GameView {
    if due && g.in_flight {
        dropped(g)
    } else {
        g
    }
}

/// Whether a container may enter at the top of `column`: none is in
/// flight, the field is not full, and the top cell of the column is free.
pub open spec fn can_spawn(g: GameView, column: u16) -> bool {
    &&& !g.in_flight
    &&& g.containers.len() < MAX_CONTAINERS
    &&& column < COLUMNS
    &&& !occupied(g.containers, column as int, 0)
}

/// A new container enters at the top of the drawn column and the shared
/// timer is armed for its fall; a draw that may not enter changes nothing.
pub open spec fn spawned(g: GameView, draw: Spawn) -> GameView {
    if can_spawn(g, draw.column) {
        GameView {
            containers: g.containers.push(
                Container { pos: (draw.column, 0), extra_fall_height: 0, color: draw.color },
            ),
            interval: FALL_STEP_MS as nat,
            in_flight: true,
            ..g
        }
    } else {
        g
    }
}

/// The part of a tick that lets a new container in, when the shared timer
/// is due and the spawner found a column.
pub open spec fn spawn_phase(g: GameView, due: bool, draw: Option<Spawn>) -> GameView {
    match draw {
        Some(draw) if due => spawned(g, draw),
        _ => g,
    }
}

/// The part of a tick that updates the player. A move that would end
/// inside a container is taken back: cell and offsets stay as they were.
pub open spec fn player_phase(g: GameView, walk_due: bool, jump_due: bool) -> GameView {
    let moved = stepped(g.player, walk_due, jump_due);
    if overlaps(g.containers, moved.pos, moved.extra) {
        GameView { player: PlayerView { pos: g.player.pos, extra: g.player.extra, ..moved }, ..g }
    } else {
        GameView { player: moved, ..g }
    }
}

/// Whether nothing holds the player up: it is above the ground row, the
/// cell below is free, and so is the cell diagonally below when the player
/// reaches into the column to its right.
pub open spec fn unsupported(stack: Seq<Container>, p: PlayerView) -> bool {
    &&& !occupied(stack, p.pos.0 as int, p.pos.1 + 1)
    &&& p.pos.1 < GROUND_ROW
    &&& (p.extra.0 <= WIDE_OFFSET || !occupied(stack, p.pos.0 + 1, p.pos.1 + 1))
}

/// The part of a tick that lets the player fall: one sub-step down if it
/// does not jump, the jump timer is due and nothing holds it up; otherwise
/// it is not falling.
pub open spec fn sink_phase(g: GameView, due: bool) -> GameView {
    if !g.player.jumping && due && unsupported(g.containers, g.player) {
        GameView { player: sunk(g.player), ..g }
    } else {
        GameView { player: PlayerView { falling: false, ..g.player }, ..g }
    }
}

/// One tick. A game that is over, or whose player is inside a container,
/// is over and nothing else happens. Otherwise the container in flight
/// moves, a new one may enter, the player moves, and the player falls.
pub open spec fn tick(g: GameView, input: TickInput) -> GameView {
    if g.over || crushed(g) {
        GameView { over: true, ..g }
    } else {
        sink_phase(
            player_phase(
                spawn_phase(fall_phase(g, input.fall_due), input.spawn_due, input.draw),
                input.walk_due,
                input.jump_due,
            ),
            input.sink_due,
        )
    }
}

} // verus!
