//! The player: walking in sub-steps, jumping through a fixed arc, and the
//! timers that pace both.

use crate::grid::{COLUMNS, GROUND_ROW, LAST_COLUMN, ROWS};
use crate::timer::Timer;
use vstd::prelude::*;

verus! {

/// Sub-steps across one cell: the horizontal offset runs from 0 to this.
pub const MAX_OFFSET: u16 = 6;

/// In the last column the player leans right only this far.
pub const LEAN_LIMIT: u16 = 4;

/// The highest vertical offset a jump passes through.
pub const MAX_LIFT: u16 = 4;

/// At this vertical offset a jump is over and the fall begins.
pub const APEX: u16 = 2;

/// A falling player sinks through this many sub-steps before it enters the
/// next row.
pub const SINK_PHASES: u16 = 2;

/// Milliseconds between two sub-steps of a walk.
pub const WALK_STEP_MS: u128 = 10;

/// Milliseconds between two phases of a jump.
pub const JUMP_STEP_MS: u128 = 100;

/// Where the player wants to go on its next sub-step.
#[derive(Clone, Copy, Debug, PartialEq, Eq, Structural)]
pub enum Movement {
    Left,
    Right,
    Idle,
}

/// The player as the rules see it.
pub struct PlayerView {
    /// Column and row of the player's cell.
    pub pos: (u16, u16),
    /// Sub-steps into the cell: to the right, and downwards.
    pub extra: (u16, u16),
    /// The sub-step that was asked for and not yet taken.
    pub movement: Movement,
    /// Whether the player is on the way up.
    pub jumping: bool,
    /// Whether the player is on the way down.
    pub falling: bool,
    /// Duration of the timer that paces the walk.
    pub walk_interval: nat,
    /// Duration of the timer that paces the jump.
    pub jump_interval: nat,
}

/// The player stands inside the grid, its offsets are in range, and it does
/// not rise and fall at once.
pub open spec fn player_valid(p: PlayerView) -> bool {
    &&& p.pos.0 < COLUMNS
    &&& p.pos.1 < ROWS
    &&& p.extra.0 <= MAX_OFFSET
    &&& p.extra.1 <= MAX_LIFT
    &&& !(p.jumping && p.falling)
}

/// What a clock may report of a timer of the given duration: one without
/// duration has always run out, of any other the clock decides.
pub open spec fn may_read(interval: nat, due: bool) -> bool {
    interval == 0 ==> due
}

/// Column and horizontal offset after one sub-step. Leftwards the offset
/// counts down and wraps into the column to the left, where there is one.
/// Rightwards it counts up and wraps into the next column; in the last
/// column it stops at [`LEAN_LIMIT`].
pub open spec fn walked(column: u16, offset: u16, movement: Movement) -> (u16, u16) {
    match movement {
        Movement::Left => if offset == 0 {
            if column != 0 {
                ((column - 1) as u16, MAX_OFFSET)
            } else {
                (column, offset)
            }
        } else {
            (column, (offset - 1) as u16)
        },
        Movement::Right => if offset == MAX_OFFSET && column < LAST_COLUMN {
            ((column + 1) as u16, 0)
        } else if column == LAST_COLUMN {
            if offset < LEAN_LIMIT {
                (column, (offset + 1) as u16)
            } else {
                (column, offset)
            }
        } else {
            (column, (offset + 1) as u16)
        },
        Movement::Idle => (column, offset),
    }
}

/// One phase of the jump arc, keyed by the vertical offset it starts from.
pub struct JumpPhase {
    /// Rows the player rises in this phase.
    pub rise: u16,
    /// The vertical offset the phase leaves behind.
    pub offset: u16,
    /// Whether the jump is over after this phase.
    pub ends: bool,
}

/// The jump arc. From offsets 0 and 1 the player rises one row; at
/// [`APEX`] the jump ends; from any higher offset the player only settles
/// by two sub-steps.
pub open spec fn jump_phase(offset: u16) -> JumpPhase {
    if offset == 0 {
        JumpPhase { rise: 1, offset: 1, ends: false }
    } else if offset == 1 {
        JumpPhase { rise: 1, offset: 2, ends: false }
    } else if offset == APEX {
        JumpPhase { rise: 0, offset: 3, ends: true }
    } else {
        JumpPhase { rise: 0, offset: (offset - 2) as u16, ends: false }
    }
}

/// The row `rise` rows further up, stopping at the top row.
pub open spec fn risen(row: u16, rise: u16) -> u16 {
    if row >= rise {
        (row - rise) as u16
    } else {
        0
    }
}

/// The player after the sub-step it had asked for. The request is used up
/// whether or not the player moved.
pub open spec fn strode(p: PlayerView) -> PlayerView {
    let (column, offset) = walked(p.pos.0, p.extra.0, p.movement);
    PlayerView { pos: (column, p.pos.1), extra: (offset, p.extra.1), movement: Movement::Idle, ..p }
}

/// The player after one phase of its jump.
pub open spec fn leapt(p: PlayerView) -> PlayerView {
    let phase = jump_phase(p.extra.1);
    PlayerView {
        pos: (p.pos.0, risen(p.pos.1, phase.rise)),
        extra: (p.extra.0, phase.offset),
        jumping: !phase.ends,
        falling: p.falling || phase.ends,
        ..p
    }
}

/// One update of the player: the walk advances if its timer is due, then
/// the jump, if there is one and its timer is due.
pub open spec fn stepped(p: PlayerView, walk_due: bool, jump_due: bool) -> PlayerView {
    let q = if walk_due {
        strode(p)
    } else {
        p
    };
    if q.jumping && jump_due {
        leapt(q)
    } else {
        q
    }
}

/// The player with a sub-step asked for, if the walk timer was due; the
/// timer is then armed for one walk step.
pub open spec fn steered(p: PlayerView, movement: Movement, due: bool) -> PlayerView {
    if due {
        PlayerView { movement, walk_interval: WALK_STEP_MS as nat, ..p }
    } else {
        p
    }
}

/// The player with a jump begun, if it stood still and the jump timer was
/// due.
pub open spec fn launched(p: PlayerView, due: bool) -> PlayerView {
    if !p.jumping && !p.falling && due {
        PlayerView { jumping: true, ..p }
    } else {
        p
    }
}

/// The player one sub-step further down: the vertical offset grows until
/// it reaches [`SINK_PHASES`], then the player enters the next row.
pub open spec fn sunk(p: PlayerView) -> PlayerView {
    if p.extra.1 >= SINK_PHASES {
        PlayerView { pos: (p.pos.0, (p.pos.1 + 1) as u16), extra: (p.extra.0, 0), falling: true, ..p }
    } else {
        PlayerView { extra: (p.extra.0, (p.extra.1 + 1) as u16), falling: true, ..p }
    }
}

/// The player, its walk timer and its jump timer.
pub struct Player {
    pos: (u16, u16),
    extra: (u16, u16),
    timer: Timer,
    movement: Movement,
    jump_timer: Timer,
    jumping: bool,
    falling: bool,
}

impl View for Player {
    type V = PlayerView;

    closed spec fn view(&self) -> PlayerView {
        PlayerView {
            pos: self.pos,
            extra: self.extra,
            movement: self.movement,
            jumping: self.jumping,
            falling: self.falling,
            walk_interval: self.timer@,
            jump_interval: self.jump_timer@,
        }
    }
}

impl Player {
    /// Whether the player is one the rules can work on.
    pub open spec fn wf(&self) -> bool {
        player_valid(self@)
    }

    /// The player at its starting place: the middle of the ground row, two
    /// sub-steps into its cell, at rest, free to walk at once.
    pub fn new() -> (player: Player)
        ensures
            player.wf(),
            player@ == (PlayerView {
                pos: (4, GROUND_ROW),
                extra: (2, 0),
                movement: Movement::Idle,
                jumping: false,
                falling: false,
                walk_interval: 0,
                jump_interval: JUMP_STEP_MS as nat,
            }),
    {
        Player {
            pos: (4, GROUND_ROW),
            extra: (2, 0),
            timer: Timer::new(0),
            movement: Movement::Idle,
            jump_timer: Timer::new(JUMP_STEP_MS),
            jumping: false,
            falling: false,
        }
    }

    /// Column and row of the player's cell.
    pub fn pos(&self) -> (pos: (u16, u16))
        ensures
            pos == self@.pos,
    {
        self.pos
    }

    /// Sub-steps into the cell: to the right, and downwards.
    pub fn extra(&self) -> (extra: (u16, u16))
        ensures
            extra == self@.extra,
    {
        self.extra
    }

    /// The sub-step that was asked for and not yet taken.
    pub fn movement(&self) -> (movement: Movement)
        ensures
            movement == self@.movement,
    {
        self.movement
    }

    /// Whether the player is on the way up.
    pub fn is_jumping(&self) -> (jumping: bool)
        ensures
            jumping == self@.jumping,
    {
        self.jumping
    }

    /// Whether the player is on the way down.
    pub fn is_falling(&self) -> (falling: bool)
        ensures
            falling == self@.falling,
    {
        self.falling
    }

    /// One phase of the jump arc, looked up by the vertical offset.
    pub fn jump_table(offset: u16) -> (phase: JumpPhase)
        ensures
            phase == jump_phase(offset),
    {
        if offset == 0 {
            JumpPhase { rise: 1, offset: 1, ends: false }
        } else if offset == 1 {
            JumpPhase { rise: 1, offset: 2, ends: false }
        } else if offset == APEX {
            JumpPhase { rise: 0, offset: 3, ends: true }
        } else {
            JumpPhase { rise: 0, offset: offset - 2, ends: false }
        }
    }

    /// Takes the sub-step that was asked for and forgets the request.
    fn stride(&mut self)
        requires
            old(self).wf(),
        ensures
            final(self).wf(),
            final(self)@ == strode(old(self)@),
    {
        match self.movement {
            Movement::Left => {
                if self.extra.0 == 0 {
                    if self.pos.0 != 0 {
                        self.pos.0 -= 1;
                        self.extra.0 = MAX_OFFSET;
                    }
                } else {
                    self.extra.0 -= 1;
                }
            },
            Movement::Right => {
                if self.extra.0 == MAX_OFFSET && self.pos.0 < LAST_COLUMN {
                    self.pos.0 += 1;
                    self.extra.0 = 0;
                } else if self.pos.0 == LAST_COLUMN {
                    if self.extra.0 < LEAN_LIMIT {
                        self.extra.0 += 1;
                    }
                } else {
                    self.extra.0 += 1;
                }
            },
            Movement::Idle => {},
        }
        self.movement = Movement::Idle;
    }

    /// Goes through one phase of the jump and starts the jump timer again.
    fn leap(&mut self)
        requires
            old(self).wf(),
            old(self)@.jumping,
        ensures
            final(self).wf(),
            final(self)@ == leapt(old(self)@),
    {
        let phase = Player::jump_table(self.extra.1);
        self.pos.1 = self.pos.1.saturating_sub(phase.rise);
        self.extra.1 = phase.offset;
        if phase.ends {
            self.jumping = false;
            self.falling = true;
        }
        self.jump_timer.reset();
    }

    /// One update of the player for given clock readings: whether the walk
    /// timer is due, and whether the jump timer is.
    pub fn advance(&mut self, walk_due: bool, jump_due: bool)
        requires
            old(self).wf(),
        ensures
            final(self).wf(),
            final(self)@ == stepped(old(self)@, walk_due, jump_due),
    {
        if walk_due {
            self.stride();
        }
        if self.jumping && jump_due {
            self.leap();
        }
    }

    /// One update of the player by the clock. What happens is
    /// [`Player::advance`] for the readings that the two timers gave.
    pub fn update(&mut self)
        requires
            old(self).wf(),
        ensures
            final(self).wf(),
            exists|walk_due: bool, jump_due: bool|
                may_read(old(self)@.walk_interval, walk_due) && may_read(
                    old(self)@.jump_interval,
                    jump_due,
                ) && final(self)@ == #[trigger] stepped(old(self)@, walk_due, jump_due),
    {
        let walk_due = self.timer.is_done();
        let jump_due = self.jump_timer.is_done();
        self.advance(walk_due, jump_due);
    }

    /// Asks for a sub-step, given whether the walk timer is due. A request
    /// that comes too early is dropped.
    pub fn steer(&mut self, movement: Movement, due: bool)
        ensures
            final(self).wf() == old(self).wf(),
            final(self)@ == steered(old(self)@, movement, due),
    {
        if due {
            self.movement = movement;
            self.timer.rearm(WALK_STEP_MS);
        }
    }

    /// Asks for a sub-step to the left. The request is taken if the walk
    /// timer has run out, which the clock decides unless the timer has no
    /// duration; otherwise nothing changes.
    pub fn move_left(&mut self)
        ensures
            final(self).wf() == old(self).wf(),
            exists|due: bool|
                may_read(old(self)@.walk_interval, due) && final(self)@ == #[trigger] steered(
                    old(self)@,
                    Movement::Left,
                    due,
                ),
    {
        let due = self.timer.is_done();
        self.steer(Movement::Left, due);
    }

    /// Asks for a sub-step to the right. The request is taken if the walk
    /// timer has run out, which the clock decides unless the timer has no
    /// duration; otherwise nothing changes.
    pub fn move_right(&mut self)
        ensures
            final(self).wf() == old(self).wf(),
            exists|due: bool|
                may_read(old(self)@.walk_interval, due) && final(self)@ == #[trigger] steered(
                    old(self)@,
                    Movement::Right,
                    due,
                ),
    {
        let due = self.timer.is_done();
        self.steer(Movement::Right, due);
    }

    /// Begins a jump, given whether the jump timer is due. Nothing happens
    /// while the player jumps or falls, or before the timer is due.
    pub fn launch(&mut self, due: bool)
        ensures
            final(self).wf() == old(self).wf(),
            final(self)@ == launched(old(self)@, due),
    {
        if !self.jumping && !self.falling && due {
            self.jumping = true;
            self.jump_timer.reset();
        }
    }

    /// Whether the jump timer has run out, which the clock decides unless
    /// the timer has no duration.
    pub(crate) fn jump_timer_due(&self) -> (due: bool)
        ensures
            may_read(self@.jump_interval, due),
    {
        self.jump_timer.is_done()
    }

    /// Puts the player into the given cell at the given offsets.
    pub(crate) fn put_back(&mut self, pos: (u16, u16), extra: (u16, u16))
        ensures
            final(self)@ == (PlayerView { pos, extra, ..old(self)@ }),
    {
        self.pos = pos;
        self.extra = extra;
    }

    /// Lets the player fall by one sub-step.
    pub(crate) fn sink(&mut self)
        requires
            old(self).wf(),
            old(self)@.pos.1 < GROUND_ROW,
        ensures
            final(self)@ == sunk(old(self)@),
    {
        if self.extra.1 >= SINK_PHASES {
            self.pos.1 += 1;
            self.extra.1 = 0;
        } else {
            self.extra.1 += 1;
        }
        self.falling = true;
    }

    /// Ends the player's fall.
    pub(crate) fn settle(&mut self)
        ensures
            final(self)@ == (PlayerView { falling: false, ..old(self)@ }),
    {
        self.falling = false;
    }

    /// Begins a jump if the player stands still and the jump timer has run
    /// out, which the clock decides unless the timer has no duration.
    pub fn jump(&mut self)
        ensures
            final(self).wf() == old(self).wf(),
            exists|due: bool|
                may_read(old(self)@.jump_interval, due) && final(self)@ == #[trigger] launched(
                    old(self)@,
                    due,
                ),
    {
        let due = self.jump_timer.is_done();
        self.launch(due);
    }
}

} // verus!
