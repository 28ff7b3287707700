//! The game: the field, the player, the shared timer and the score, and
//! the tick that moves them.

use crate::grid::{
    occupied, on_ground, stack_has, Container, Rgb, COLUMNS, FALL_PHASES, GROUND_ROW,
    MAX_CONTAINERS, WIDE_OFFSET,
};
use crate::laws::{
    lemma_dropped_valid, lemma_player_phase_valid, lemma_sink_phase_valid, lemma_spawned_valid,
};
use crate::model::{
    can_spawn, crushed, dropped, fall_phase, feasible, player_phase, sink_phase, spawn_phase,
    spawned, spawner_at_work, stack_valid, tick, valid, GameView, Spawn, TickInput, FALL_STEP_MS,
    SPAWN_WAIT_MS,
};
use crate::player::{
    launched, may_read, player_valid, steered, stepped, Movement, Player, PlayerView,
    JUMP_STEP_MS,
};
use crate::rng::draw_between;
use crate::timer::Timer;
use vstd::prelude::*;

verus! {

/// How often the spawner draws a column in one tick before it gives up
/// until the next.
pub const SPAWN_ATTEMPTS: u32 = 64;

/// A game in progress.
pub struct Game {
    containers: Vec<Container>,
    player: Player,
    timer: Timer,
    container_falling: bool,
    over: bool,
    paused: bool,
    points: u8,
}

impl View for Game {
    type V = GameView;

    closed spec fn view(&self) -> GameView {
        GameView {
            containers: self.containers@,
            player: self.player@,
            interval: self.timer@,
            in_flight: self.container_falling,
            over: self.over,
            paused: self.paused,
            points: self.points as nat,
        }
    }
}

impl Container {
    /// Whether the container has come down as far as it can in `game`: it
    /// is in the ground row, or another container is right below it.
    pub fn is_on_ground(&self, game: &Game) -> (grounded: bool)
        ensures
            grounded == on_ground(game@.containers, *self),
    {
        self.pos.1 >= GROUND_ROW || game.has_container_at(self.pos.0, self.pos.1 + 1)
    }
}

impl Game {
    /// Whether the game is in a state that play can produce.
    pub open spec fn wf(&self) -> bool {
        valid(self@)
    }

    /// A new game: an empty field, the player at its starting place, no
    /// points, and the shared timer armed for the first spawn.
    pub fn new() -> (game: Game)
        ensures
            game.wf(),
            game@ == (GameView {
                containers: Seq::empty(),
                player: PlayerView {
                    pos: (4, GROUND_ROW),
                    extra: (2, 0),
                    movement: Movement::Idle,
                    jumping: false,
                    falling: false,
                    walk_interval: 0,
                    jump_interval: JUMP_STEP_MS as nat,
                },
                interval: SPAWN_WAIT_MS as nat,
                in_flight: false,
                over: false,
                paused: false,
                points: 0,
            }),
    {
        proof {
            reveal(stack_valid);
        }
        Game {
            containers: Vec::new(),
            player: Player::new(),
            timer: Timer::new(SPAWN_WAIT_MS),
            container_falling: false,
            over: false,
            paused: false,
            points: 0,
        }
    }

    /// Whether a container is in the cell `(x, y)`.
    pub fn has_container_at(&self, x: u16, y: u16) -> (found: bool)
        ensures
            found == occupied(self@.containers, x as int, y as int),
    {
        stack_has(&self.containers, x, y)
    }

    /// Every container in play, oldest first.
    pub fn containers(&self) -> (stack: &Vec<Container>)
        ensures
            stack@ == self@.containers,
    {
        &self.containers
    }

    /// The player.
    pub fn player(&self) -> (player: &Player)
        ensures
            player@ == self@.player,
    {
        &self.player
    }

    /// Whether the game has ended.
    pub fn is_over(&self) -> (over: bool)
        ensures
            over == self@.over,
    {
        self.over
    }

    /// The score: one point for each container that has landed.
    pub fn points(&self) -> (points: u8)
        ensures
            points == self@.points,
    {
        self.points
    }

    /// Whether the host has paused the game. The tick does not look at it.
    pub fn is_paused(&self) -> (paused: bool)
        ensures
            paused == self@.paused,
    {
        self.paused
    }

    /// Pauses a running game and resumes a paused one.
    pub fn toggle_pause(&mut self)
        ensures
            final(self)@ == (GameView { paused: !old(self)@.paused, ..old(self)@ }),
    {
        self.paused = !self.paused;
    }

    /// Whether the player's footprint touches a container.
    fn player_overlaps(&self) -> (hit: bool)
        requires
            player_valid(self@.player),
        ensures
            hit == crushed(self@),
    {
        let pos = self.player.pos();
        let extra = self.player.extra();
        self.has_container_at(pos.0, pos.1) || (extra.0 > WIDE_OFFSET && self.has_container_at(
            pos.0 + 1,
            pos.1,
        )) || (extra.1 > 0 && self.has_container_at(pos.0, pos.1 + 1)) || (extra.1 > 0 && extra.0
            > WIDE_OFFSET && self.has_container_at(pos.0 + 1, pos.1 + 1))
    }

    /// Moves the container in flight: it lands if it is on the ground,
    /// else it sinks by one sub-step.
    fn drop_container(&mut self)
        requires
            old(self).wf(),
            old(self)@.in_flight,
        ensures
            final(self).wf(),
            final(self)@ == dropped(old(self)@),
    {
        proof {
            lemma_dropped_valid(self@);
        }
        let last = self.containers.len() - 1;
        let container = self.containers[last];
        if container.is_on_ground(self) {
            self.points += 1;
            self.container_falling = false;
            self.timer.rearm(SPAWN_WAIT_MS);
        } else {
            let sunk = if container.extra_fall_height < FALL_PHASES {
                Container { extra_fall_height: container.extra_fall_height + 1, ..container }
            } else {
                Container {
                    pos: (container.pos.0, container.pos.1 + 1),
                    extra_fall_height: 0,
                    ..container
                }
            };
            self.containers.set(last, sunk);
            self.timer.reset();
        }
    }

    /// Lets a container in at the top of the drawn column, if it may.
    fn spawn_at(&mut self, draw: Spawn) -> (entered: bool)
        requires
            old(self).wf(),
        ensures
            final(self).wf(),
            entered == can_spawn(old(self)@, draw.column),
            final(self)@ == spawned(old(self)@, draw),
    {
        proof {
            lemma_spawned_valid(self@, draw);
        }
        if !self.container_falling && self.containers.len() < MAX_CONTAINERS && draw.column
            < COLUMNS && !self.has_container_at(draw.column, 0) {
            self.containers.push(
                Container { pos: (draw.column, 0), extra_fall_height: 0, color: draw.color },
            );
            self.timer.rearm(FALL_STEP_MS);
            self.container_falling = true;
            true
        } else {
            false
        }
    }

    /// Draws columns until one is free at the top and lets a container
    /// with a random tint in there. After [`SPAWN_ATTEMPTS`] draws that
    /// hit a taken column it gives up for this tick.
    fn spawn_at_random(&mut self) -> (draw: Option<Spawn>)
        requires
            old(self).wf(),
            !old(self)@.in_flight,
            old(self)@.containers.len() < MAX_CONTAINERS,
        ensures
            final(self).wf(),
            final(self)@ == spawn_phase(old(self)@, true, draw),
            draw matches Some(d) ==> can_spawn(old(self)@, d.column),
            draw is None ==> exists|x: int|
                0 <= x < COLUMNS && #[trigger] occupied(old(self)@.containers, x, 0),
    {
        let mut attempts: u32 = 0;
        let ghost mut blocked: int = 0;
        while attempts < SPAWN_ATTEMPTS
            invariant
                *self == *old(self),
                self.wf(),
                !self@.in_flight,
                self@.containers.len() < MAX_CONTAINERS,
                attempts <= SPAWN_ATTEMPTS,
                attempts > 0 ==> 0 <= blocked < COLUMNS && occupied(self@.containers, blocked, 0),
            decreases SPAWN_ATTEMPTS - attempts,
        {
            let column = draw_between(0, COLUMNS);
            if !self.has_container_at(column, 0) {
                let r = draw_between(0, 256) as u8;
                let g = draw_between(0, 256) as u8;
                let b = draw_between(0, 256) as u8;
                let draw = Spawn { column, color: Rgb { r, g, b } };
                self.spawn_at(draw);
                return Some(draw);
            }
            proof {
                blocked = column as int;
            }
            attempts += 1;
        }
        None
    }

    /// Ends the game if the player's footprint touches a container, and
    /// tells whether the game is over.
    fn detect(&mut self) -> (over: bool)
        requires
            old(self).wf(),
        ensures
            final(self).wf(),
            over == (old(self)@.over || crushed(old(self)@)),
            final(self)@ == (GameView { over, ..old(self)@ }),
    {
        if self.player_overlaps() {
            self.over = true;
        }
        self.over
    }

    /// The part of a tick that moves the container in flight.
    fn fall(&mut self, due: bool)
        requires
            old(self).wf(),
        ensures
            final(self).wf(),
            final(self)@ == fall_phase(old(self)@, due),
    {
        if due && self.container_falling {
            self.drop_container();
        }
    }

    /// The part of a tick that lets a drawn container in.
    fn spawn(&mut self, due: bool, draw: Option<Spawn>)
        requires
            old(self).wf(),
        ensures
            final(self).wf(),
            final(self)@ == spawn_phase(old(self)@, due, draw),
    {
        if due {
            match draw {
                Some(draw) => {
                    self.spawn_at(draw);
                },
                None => {},
            }
        }
    }

    /// The part of a tick that lets a container in by the clock: if none
    /// is in flight, the field is not full and the shared timer has run
    /// out, the spawner draws. Gives the reading and the draw.
    fn spawn_by_clock(&mut self) -> (fed: (bool, Option<Spawn>))
        requires
            old(self).wf(),
        ensures
            final(self).wf(),
            final(self)@ == spawn_phase(old(self)@, fed.0, fed.1),
            fed.0 ==> spawner_at_work(old(self)@),
            spawner_at_work(old(self)@) ==> may_read(old(self)@.interval, fed.0),
            fed.1 matches Some(draw) ==> fed.0 && can_spawn(old(self)@, draw.column),
            fed.0 && fed.1 is None ==> exists|x: int|
                0 <= x < COLUMNS && #[trigger] occupied(old(self)@.containers, x, 0),
    {
        if !self.container_falling && self.containers.len() < MAX_CONTAINERS {
            let due = self.timer.is_done();
            if due {
                let draw = self.spawn_at_random();
                return (true, draw);
            }
        }
        (false, None)
    }

    /// Takes the player's move back if it ended inside a container: the
    /// player is put into the cell and at the offsets that are given.
    fn take_back_if_blocked(&mut self, pos: (u16, u16), extra: (u16, u16))
        requires
            player_valid(old(self)@.player),
        ensures
            final(self)@ == if crushed(old(self)@) {
                GameView { player: PlayerView { pos, extra, ..old(self)@.player }, ..old(self)@ }
            } else {
                old(self)@
            },
    {
        if self.player_overlaps() {
            self.player.put_back(pos, extra);
        }
    }

    /// The part of a tick that updates the player for given readings of
    /// its timers.
    fn drive_player(&mut self, walk_due: bool, jump_due: bool)
        requires
            old(self).wf(),
        ensures
            final(self).wf(),
            final(self)@ == player_phase(old(self)@, walk_due, jump_due),
    {
        proof {
            lemma_player_phase_valid(self@, walk_due, jump_due);
        }
        let pos = self.player.pos();
        let extra = self.player.extra();
        self.player.advance(walk_due, jump_due);
        self.take_back_if_blocked(pos, extra);
    }

    /// The part of a tick that updates the player by the clock. Gives the
    /// readings that its two timers gave.
    fn drive_player_by_clock(&mut self) -> (read: Ghost<(bool, bool)>)
        requires
            old(self).wf(),
        ensures
            final(self).wf(),
            may_read(old(self)@.player.walk_interval, read@.0),
            may_read(old(self)@.player.jump_interval, read@.1),
            final(self)@ == player_phase(old(self)@, read@.0, read@.1),
    {
        let before = Ghost(self@);
        let pos = self.player.pos();
        let extra = self.player.extra();
        self.player.update();
        let ghost (walk_due, jump_due) = choose|walk_due: bool, jump_due: bool|
            may_read(before@.player.walk_interval, walk_due) && may_read(
                before@.player.jump_interval,
                jump_due,
            ) && self@.player == #[trigger] stepped(before@.player, walk_due, jump_due);
        proof {
            lemma_player_phase_valid(before@, walk_due, jump_due);
        }
        self.take_back_if_blocked(pos, extra);
        Ghost((walk_due, jump_due))
    }

    /// Lets the player fall by one sub-step if it does not jump, its jump
    /// timer is due and nothing holds it up; else ends its fall.
    fn pull_player(&mut self, due: bool)
        requires
            old(self).wf(),
        ensures
            final(self).wf(),
            final(self)@ == sink_phase(old(self)@, due),
    {
        proof {
            lemma_sink_phase_valid(self@, due);
        }
        let pos = self.player.pos();
        let extra = self.player.extra();
        if !self.player.is_jumping() && due && !self.has_container_at(pos.0, pos.1 + 1) && pos.1
            < GROUND_ROW && (extra.0 <= WIDE_OFFSET || !self.has_container_at(
            pos.0 + 1,
            pos.1 + 1,
        )) {
            self.player.sink();
        } else {
            self.player.settle();
        }
    }

    /// One tick for given clock readings and a given draw of the spawner.
    pub fn step(&mut self, input: TickInput)
        requires
            old(self).wf(),
        ensures
            final(self).wf(),
            final(self)@ == tick(old(self)@, input),
    {
        if self.detect() {
            return ;
        }
        self.fall(input.fall_due);
        self.spawn(input.spawn_due, input.draw);
        self.drive_player(input.walk_due, input.jump_due);
        self.pull_player(input.sink_due);
    }

    /// One tick by the clock. If the game is over, or the player is inside
    /// a container, the game is over and nothing else changes. Otherwise
    /// the tick is [`Game::step`] for what the clocks read and what the
    /// spawner drew. The spawner comes away empty only if it drew a column
    /// whose top cell is taken.
    pub fn update(&mut self)
        requires
            old(self).wf(),
        ensures
            final(self).wf(),
            exists|input: TickInput|
                final(self)@ == #[trigger] tick(old(self)@, input) && (!final(self)@.over
                    ==> feasible(old(self)@, input)),
            old(self)@.over ==> final(self)@ == old(self)@,
            final(self)@.over == (old(self)@.over || crushed(old(self)@)),
            final(self)@.over ==> final(self)@ == (GameView { over: true, ..old(self)@ }),
    {
        let start = Ghost(self@);
        if self.detect() {
            proof {
                let input = TickInput {
                    fall_due: true,
                    spawn_due: false,
                    draw: None,
                    walk_due: true,
                    jump_due: true,
                    sink_due: true,
                };
                assert(self@ == tick(start@, input));
            }
            return ;
        }
        let fall_due = self.timer.is_done();
        self.fall(fall_due);
        let fallen = Ghost(self@);
        let (spawn_due, draw) = self.spawn_by_clock();
        let read = self.drive_player_by_clock();
        let sink_due = self.player.jump_timer_due();
        self.pull_player(sink_due);
        proof {
            let input = TickInput {
                fall_due,
                spawn_due,
                draw,
                walk_due: read@.0,
                jump_due: read@.1,
                sink_due,
            };
            assert(self@ == tick(start@, input));
            assert(feasible(start@, input)) by {
                assert(fallen@ == fall_phase(start@, fall_due));
                assert(fallen@.player == start@.player);
                assert(spawner_at_work(fallen@) ==> fallen@.containers == start@.containers);
            }
        }
    }

    /// Asks for a sub-step of the player, given whether its walk timer is
    /// due. A request that comes too early is dropped.
    pub fn steer(&mut self, movement: Movement, due: bool)
        requires
            old(self).wf(),
        ensures
            final(self).wf(),
            final(self)@ == (GameView {
                player: steered(old(self)@.player, movement, due),
                ..old(self)@
            }),
    {
        self.player.steer(movement, due);
    }

    /// Lets the player begin a jump, given whether its jump timer is due.
    /// Nothing happens while the player jumps or falls, or before the
    /// timer is due.
    pub fn launch(&mut self, due: bool)
        requires
            old(self).wf(),
        ensures
            final(self).wf(),
            final(self)@ == (GameView { player: launched(old(self)@.player, due), ..old(self)@ }),
    {
        self.player.launch(due);
    }

    /// Asks for a sub-step of the player to the left. The request is taken
    /// if the player's walk timer has run out, which the clock decides
    /// unless the timer has no duration; otherwise nothing changes.
    pub fn move_left(&mut self)
        requires
            old(self).wf(),
        ensures
            final(self).wf(),
            exists|due: bool|
                may_read(old(self)@.player.walk_interval, due) && final(self)@ == (GameView {
                    player: #[trigger] steered(old(self)@.player, Movement::Left, due),
                    ..old(self)@
                }),
    {
        self.player.move_left();
    }

    /// Asks for a sub-step of the player to the right. The request is
    /// taken if the player's walk timer has run out, which the clock
    /// decides unless the timer has no duration; otherwise nothing changes.
    pub fn move_right(&mut self)
        requires
            old(self).wf(),
        ensures
            final(self).wf(),
            exists|due: bool|
                may_read(old(self)@.player.walk_interval, due) && final(self)@ == (GameView {
                    player: #[trigger] steered(old(self)@.player, Movement::Right, due),
                    ..old(self)@
                }),
    {
        self.player.move_right();
    }

    /// Lets the player begin a jump if it stands still and its jump timer
    /// has run out, which the clock decides unless the timer has no
    /// duration; otherwise nothing changes.
    pub fn jump(&mut self)
        requires
            old(self).wf(),
        ensures
            final(self).wf(),
            exists|due: bool|
                may_read(old(self)@.player.jump_interval, due) && final(self)@ == (GameView {
                    player: #[trigger] launched(old(self)@.player, due),
                    ..old(self)@
                }),
    {
        self.player.jump();
    }
}

} // verus!
