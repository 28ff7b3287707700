//! What holds of every tick, proved of the rules themselves.

use crate::grid::{
    lowered, occupied, on_ground, overlaps, sits_at, COLUMNS, FALL_PHASES, GROUND_ROW,
    MAX_CONTAINERS, ROWS,
};
use crate::model::{
    can_spawn, crushed, dropped, fall_phase, held_up, in_grid, player_phase, resting, sink_phase,
    spawn_phase, spawned, stack_valid, tick, valid, GameView, Spawn, TickInput,
};
use crate::player::{player_valid, stepped, PlayerView};
use vstd::prelude::*;
use vstd::set_lib::{lemma_int_range, lemma_subset_equality, set_int_range};

verus! {

/// Moving the container in flight keeps the game valid.
pub proof fn lemma_dropped_valid(g: GameView)
    requires
        valid(g),
        g.in_flight,
    ensures
        valid(dropped(g)),
{
    reveal(stack_valid);
    let stack = g.containers;
    let last = stack.len() - 1;
    let c = stack[last];
    let h = dropped(g);
    if on_ground(stack, c) {
        assert forall|i: int| 0 <= i < stack.len() implies (#[trigger] stack[i]).extra_fall_height
            == 0 && held_up(stack, stack.len() as int, stack[i]) by {
            if i < last {
                assert(held_up(stack, last, stack[i]));
            }
        }
    } else {
        let after = h.containers;
        assert(after[last] == lowered(c));
        assert forall|i: int| 0 <= i < after.len() implies in_grid(#[trigger] after[i]) by {
            assert(in_grid(stack[i]));
        }
        assert forall|i: int, j: int| 0 <= i < j < after.len() implies (#[trigger] after[i]).pos != (
        #[trigger] after[j]).pos by {
            assert(stack[i].pos != stack[j].pos);
            if j == last {
                assert(!sits_at(stack[i], c.pos.0 as int, c.pos.1 + 1));
            }
        }
        assert forall|i: int| 0 <= i < last implies (#[trigger] after[i]).extra_fall_height == 0
            && held_up(after, last, after[i]) by {
            assert(held_up(stack, last, stack[i]));
            if stack[i].pos.1 < GROUND_ROW {
                let j = choose|j: int|
                    0 <= j < last && sits_at(
                        #[trigger] stack[j],
                        stack[i].pos.0 as int,
                        stack[i].pos.1 + 1,
                    );
                assert(sits_at(after[j], after[i].pos.0 as int, after[i].pos.1 + 1));
            }
        }
        assert forall|i: int|
            last <= i < after.len() && (#[trigger] after[i]).extra_fall_height > 0 implies !on_ground(
            after,
            after[i],
        ) by {
            assert(after[i].pos == c.pos);
            assert forall|k: int| 0 <= k < after.len() implies !sits_at(
                #[trigger] after[k],
                c.pos.0 as int,
                c.pos.1 + 1,
            ) by {
                if k < last {
                    assert(!sits_at(stack[k], c.pos.0 as int, c.pos.1 + 1));
                }
            }
        }
    }
}

/// Letting a container in keeps the game valid.
pub proof fn lemma_spawned_valid(g: GameView, draw: Spawn)
    requires
        valid(g),
    ensures
        valid(spawned(g, draw)),
{
    reveal(stack_valid);
    if can_spawn(g, draw.column) {
        let stack = g.containers;
        let after = spawned(g, draw).containers;
        let n = stack.len() as int;
        assert forall|i: int| 0 <= i < after.len() implies in_grid(#[trigger] after[i]) by {
            if i < n {
                assert(in_grid(stack[i]));
            }
        }
        assert forall|i: int, j: int| 0 <= i < j < after.len() implies (#[trigger] after[i]).pos != (
        #[trigger] after[j]).pos by {
            if j < n {
                assert(stack[i].pos != stack[j].pos);
            } else {
                assert(!sits_at(stack[i], draw.column as int, 0));
            }
        }
        assert forall|i: int| 0 <= i < n implies (#[trigger] after[i]).extra_fall_height == 0
            && held_up(after, n, after[i]) by {
            assert(held_up(stack, n, stack[i]));
            if stack[i].pos.1 < GROUND_ROW {
                let j = choose|j: int|
                    0 <= j < n && sits_at(
                        #[trigger] stack[j],
                        stack[i].pos.0 as int,
                        stack[i].pos.1 + 1,
                    );
                assert(sits_at(after[j], after[i].pos.0 as int, after[i].pos.1 + 1));
            }
        }
    }
}

/// Updating the player keeps it valid.
pub proof fn lemma_stepped_valid(p: PlayerView, walk_due: bool, jump_due: bool)
    requires
        player_valid(p),
    ensures
        player_valid(stepped(p, walk_due, jump_due)),
{
}

/// The part of a tick that moves the container in flight keeps the game
/// valid.
pub proof fn lemma_fall_phase_valid(g: GameView, due: bool)
    requires
        valid(g),
    ensures
        valid(fall_phase(g, due)),
{
    if due && g.in_flight {
        lemma_dropped_valid(g);
    }
}

/// The part of a tick that lets a container in keeps the game valid.
pub proof fn lemma_spawn_phase_valid(g: GameView, due: bool, draw: Option<Spawn>)
    requires
        valid(g),
    ensures
        valid(spawn_phase(g, due, draw)),
{
    if draw is Some {
        lemma_spawned_valid(g, draw->0);
    }
}

/// The part of a tick that updates the player keeps the game valid.
pub proof fn lemma_player_phase_valid(g: GameView, walk_due: bool, jump_due: bool)
    requires
        valid(g),
    ensures
        valid(player_phase(g, walk_due, jump_due)),
{
    lemma_stepped_valid(g.player, walk_due, jump_due);
}

/// The part of a tick that lets the player fall keeps the game valid.
pub proof fn lemma_sink_phase_valid(g: GameView, due: bool)
    requires
        valid(g),
    ensures
        valid(sink_phase(g, due)),
{
}

/// Every tick keeps the game valid.
pub proof fn lemma_tick_valid(g: GameView, input: TickInput)
    requires
        valid(g),
    ensures
        valid(tick(g, input)),
{
    if !(g.over || crushed(g)) {
        let a = fall_phase(g, input.fall_due);
        lemma_fall_phase_valid(g, input.fall_due);
        let b = spawn_phase(a, input.spawn_due, input.draw);
        lemma_spawn_phase_valid(a, input.spawn_due, input.draw);
        let c = player_phase(b, input.walk_due, input.jump_due);
        lemma_player_phase_valid(b, input.walk_due, input.jump_due);
        lemma_sink_phase_valid(c, input.sink_due);
    }
}

/// What a tick can do to the field: it never takes a container away, it
/// adds at most one, and of those that were there it changes at most the
/// one in flight, which it lowers by one sub-step if that one is not on the
/// ground.
proof fn lemma_tick_field(g: GameView, input: TickInput)
    requires
        valid(g),
    ensures
        ({
            let h = tick(g, input);
            &&& g.containers.len() <= h.containers.len() <= g.containers.len() + 1
            &&& forall|i: int|
                0 <= i < g.containers.len() ==> #[trigger] h.containers[i] == g.containers[i] || (
                g.in_flight && i == g.containers.len() - 1 && !on_ground(
                    g.containers,
                    g.containers[i],
                ) && h.containers[i] == lowered(g.containers[i]))
            &&& h.containers.len() > g.containers.len() ==> {
                &&& h.in_flight
                &&& h.containers.last().pos.1 == 0
                &&& h.containers.last().extra_fall_height == 0
                &&& !occupied(g.containers, h.containers.last().pos.0 as int, 0)
                &&& forall|i: int|
                    0 <= i < g.containers.len() ==> #[trigger] h.containers[i] == g.containers[i]
            }
        }),
{
    if !(g.over || crushed(g)) {
        let a = fall_phase(g, input.fall_due);
        let b = spawn_phase(a, input.spawn_due, input.draw);
        let c = player_phase(b, input.walk_due, input.jump_due);
        let d = sink_phase(c, input.sink_due);
        assert(d.containers == b.containers);
        assert(d.in_flight == b.in_flight);
        assert(a.containers.len() == g.containers.len());
        if b.containers.len() > a.containers.len() {
            assert(!a.in_flight);
            assert(a.containers == g.containers);
        }
    }
}

/// Spawn uniqueness. A tick lets in at most one container. One that
/// enters is then the last and in flight, lies in the top row with no fall
/// height, and the top cell of its column was free when the tick began;
/// no container that was there has moved in that tick.
pub proof fn law_spawn_uniqueness(g: GameView, input: TickInput)
    requires
        valid(g),
    ensures
        ({
            let h = tick(g, input);
            &&& g.containers.len() <= h.containers.len() <= g.containers.len() + 1
            &&& h.containers.len() > g.containers.len() ==> {
                &&& h.in_flight
                &&& h.containers.last().pos.1 == 0
                &&& h.containers.last().extra_fall_height == 0
                &&& !occupied(g.containers, h.containers.last().pos.0 as int, 0)
                &&& h.containers.drop_last() == g.containers
            }
        }),
{
    lemma_tick_field(g, input);
    let h = tick(g, input);
    if h.containers.len() > g.containers.len() {
        assert(h.containers.drop_last() =~= g.containers);
    }
}

/// At most one in flight. A tick changes no container but the last, and
/// the last only while it is in flight; in the game that the tick leaves,
/// again every container but the last is at rest.
pub proof fn law_single_mover(g: GameView, input: TickInput)
    requires
        valid(g),
    ensures
        ({
            let h = tick(g, input);
            &&& forall|i: int|
                0 <= i < g.containers.len() && #[trigger] h.containers[i] != g.containers[i] ==> g.in_flight
                    && i == g.containers.len() - 1
            &&& resting(g) <= resting(h)
            &&& h.containers.len() - 1 <= resting(h)
        }),
{
    lemma_tick_field(g, input);
}

/// Monotonic stacking. In a tick a container stays as it is or sinks by
/// one sub-step: its fall height grows by one, or, from the full fall
/// height, it enters the next row with no fall height. Its column never
/// changes and its row never decreases.
pub proof fn law_monotonic_stacking(g: GameView, input: TickInput, i: int)
    requires
        valid(g),
        0 <= i < g.containers.len(),
    ensures
        ({
            let before = g.containers[i];
            let after = tick(g, input).containers[i];
            &&& after == before || after == lowered(before)
            &&& after.pos.0 == before.pos.0
            &&& after.pos.1 == before.pos.1 || after.pos.1 == before.pos.1 + 1
            &&& after.pos.1 == before.pos.1 + 1 <==> before.extra_fall_height == FALL_PHASES
                && after != before
            &&& after.pos.1 == before.pos.1 + 1 ==> after.extra_fall_height == 0
            &&& after.pos.1 == before.pos.1 && after != before ==> after.extra_fall_height
                == before.extra_fall_height + 1
        }),
{
    reveal(stack_valid);
    lemma_tick_field(g, input);
    assert(tick(g, input).containers[i] == g.containers[i] || tick(g, input).containers[i]
        == lowered(g.containers[i]));
    assert(in_grid(g.containers[i]));
}

/// Landing terminality. A container that is on the ground is not changed
/// by a tick, and is on the ground after it.
pub proof fn law_landing_is_final(g: GameView, input: TickInput, i: int)
    requires
        valid(g),
        0 <= i < g.containers.len(),
        on_ground(g.containers, g.containers[i]),
    ensures
        tick(g, input).containers[i] == g.containers[i],
        on_ground(tick(g, input).containers, tick(g, input).containers[i]),
{
    reveal(stack_valid);
    lemma_tick_field(g, input);
    let stack = g.containers;
    let h = tick(g, input);
    let c = stack[i];
    assert(h.containers[i] == c);
    if c.pos.1 < GROUND_ROW {
        let below = choose|k: int|
            0 <= k < stack.len() && sits_at(#[trigger] stack[k], c.pos.0 as int, c.pos.1 + 1);
        if i < resting(g) {
            assert(held_up(stack, resting(g), c));
            let under = choose|j: int|
                0 <= j < resting(g) && sits_at(#[trigger] stack[j], c.pos.0 as int, c.pos.1 + 1);
            assert(h.containers[under] == stack[under]);
            assert(sits_at(h.containers[under], c.pos.0 as int, c.pos.1 + 1));
        } else {
            assert(below != i);
            assert(h.containers[below] == stack[below]);
            assert(sits_at(h.containers[below], c.pos.0 as int, c.pos.1 + 1));
        }
    }
}

/// The number of a cell, counting down the columns one after the other.
pub open spec fn cell_number(x: int, y: int) -> int {
    x * ROWS + y
}

/// A field with a container for each cell has no free cell. So the bound
/// on the number of containers never keeps one out of a column whose top
/// cell is free.
pub proof fn law_full_field_has_no_free_cell(g: GameView, x: int, y: int)
    requires
        valid(g),
        g.containers.len() >= MAX_CONTAINERS,
        0 <= x < COLUMNS,
        0 <= y < ROWS,
    ensures
        occupied(g.containers, x, y),
{
    reveal(stack_valid);
    let stack = g.containers;
    let numbers = Seq::new(
        stack.len(),
        |i: int| cell_number(stack[i].pos.0 as int, stack[i].pos.1 as int),
    );
    let all = set_int_range(0, MAX_CONTAINERS as int);
    assert forall|i: int, j: int|
        0 <= i < numbers.len() && 0 <= j < numbers.len() && i != j implies numbers[i]
        != numbers[j] by {
        assert(in_grid(stack[i]) && in_grid(stack[j]));
        if i < j {
            assert(stack[i].pos != stack[j].pos);
        } else {
            assert(stack[j].pos != stack[i].pos);
        }
    }
    numbers.unique_seq_to_set();
    lemma_int_range(0, MAX_CONTAINERS as int);
    assert forall|n: int| numbers.to_set().contains(n) implies all.contains(n) by {
        let i = choose|i: int| 0 <= i < numbers.len() && numbers[i] == n;
        assert(in_grid(stack[i]));
    }
    lemma_subset_equality(numbers.to_set(), all);
    assert(all.contains(cell_number(x, y)));
    assert(numbers.to_set().contains(cell_number(x, y)));
    let i = choose|i: int| 0 <= i < numbers.len() && numbers[i] == cell_number(x, y);
    assert(in_grid(stack[i]));
    assert(sits_at(stack[i], x, y));
}

/// Collision rollback. A move of the player that would end inside a
/// container leaves the player's cell and offsets exactly as they were; any
/// other move stands.
pub proof fn law_blocked_move_is_undone(g: GameView, walk_due: bool, jump_due: bool)
    ensures
        ({
            let moved = stepped(g.player, walk_due, jump_due);
            let h = player_phase(g, walk_due, jump_due);
            if overlaps(g.containers, moved.pos, moved.extra) {
                h.player.pos == g.player.pos && h.player.extra == g.player.extra
            } else {
                h.player == moved
            }
        }),
{
}

/// Whether the container in flight comes to rest in this tick.
pub open spec fn lands(g: GameView, input: TickInput) -> bool {
    &&& !g.over
    &&& !crushed(g)
    &&& input.fall_due
    &&& g.in_flight
    &&& on_ground(g.containers, g.containers[g.containers.len() - 1])
}

/// Score monotonicity. A tick in which the container in flight lands adds
/// exactly one point; any other tick leaves the score as it is.
pub proof fn law_score(g: GameView, input: TickInput)
    ensures
        tick(g, input).points == if lands(g, input) {
            g.points + 1
        } else {
            g.points
        },
        tick(g, input).points >= g.points,
{
}

/// Game-over latch. A tick of a game that is over changes nothing. A game
/// is over after a tick exactly if it was over before or the player was
/// inside a container, and then the tick has changed nothing else.
pub proof fn law_game_over_latch(g: GameView, input: TickInput)
    ensures
        g.over ==> tick(g, input) == g,
        tick(g, input).over == (g.over || crushed(g)),
        tick(g, input).over ==> tick(g, input) == (GameView { over: true, ..g }),
{
}

/// The game after a run of ticks, one for each input.
pub open spec fn run(g: GameView, inputs: Seq<TickInput>) -> GameView
    decreases inputs.len(),
{
    if inputs.len() == 0 {
        g
    } else {
        tick(run(g, inputs.drop_last()), inputs.last())
    }
}

/// Every run of ticks keeps the game valid and takes no container away.
pub proof fn lemma_run_valid(g: GameView, inputs: Seq<TickInput>)
    requires
        valid(g),
    ensures
        valid(run(g, inputs)),
        run(g, inputs).containers.len() >= g.containers.len(),
    decreases inputs.len(),
{
    if inputs.len() > 0 {
        lemma_run_valid(g, inputs.drop_last());
        lemma_tick_valid(run(g, inputs.drop_last()), inputs.last());
        lemma_tick_field(run(g, inputs.drop_last()), inputs.last());
    }
}

/// Over any run of ticks a container keeps its column and its row never
/// decreases.
pub proof fn law_rows_never_decrease(g: GameView, inputs: Seq<TickInput>, i: int)
    requires
        valid(g),
        0 <= i < g.containers.len(),
    ensures
        i < run(g, inputs).containers.len(),
        run(g, inputs).containers[i].pos.0 == g.containers[i].pos.0,
        run(g, inputs).containers[i].pos.1 >= g.containers[i].pos.1,
    decreases inputs.len(),
{
    if inputs.len() > 0 {
        let before = run(g, inputs.drop_last());
        lemma_run_valid(g, inputs.drop_last());
        law_rows_never_decrease(g, inputs.drop_last(), i);
        lemma_tick_field(before, inputs.last());
        law_monotonic_stacking(before, inputs.last(), i);
    }
}

/// Once a container is on the ground, no run of ticks changes it.
pub proof fn law_landed_stays(g: GameView, inputs: Seq<TickInput>, i: int)
    requires
        valid(g),
        0 <= i < g.containers.len(),
        on_ground(g.containers, g.containers[i]),
    ensures
        i < run(g, inputs).containers.len(),
        run(g, inputs).containers[i] == g.containers[i],
        on_ground(run(g, inputs).containers, run(g, inputs).containers[i]),
    decreases inputs.len(),
{
    if inputs.len() > 0 {
        let before = run(g, inputs.drop_last());
        lemma_run_valid(g, inputs.drop_last());
        law_landed_stays(g, inputs.drop_last(), i);
        lemma_tick_field(before, inputs.last());
        law_landing_is_final(before, inputs.last(), i);
    }
}

/// Over any run of ticks the score never goes down.
pub proof fn law_score_never_drops(g: GameView, inputs: Seq<TickInput>)
    ensures
        run(g, inputs).points >= g.points,
    decreases inputs.len(),
{
    if inputs.len() > 0 {
        law_score_never_drops(g, inputs.drop_last());
        law_score(run(g, inputs.drop_last()), inputs.last());
    }
}

/// Once the game is over, no run of ticks changes anything.
pub proof fn law_over_is_final(g: GameView, inputs: Seq<TickInput>)
    requires
        g.over,
    ensures
        run(g, inputs) == g,
    decreases inputs.len(),
{
    if inputs.len() > 0 {
        law_over_is_final(g, inputs.drop_last());
        law_game_over_latch(g, inputs.last());
    }
}

} // verus!
