//! The rules of a round, stated on plain values: what a frame and a click
//! do to the game, and what holds of every game however it is played.

use crate::asset::{AsyncAsset, LoadReport};
use crate::geometry::Point;
use crate::mole::MoleView;
use crate::slots::{after_poll, CAPACITY};
use crate::table::{after_hit, after_spawn, first_containing, first_vacant, occupied, swept};
use vstd::prelude::*;

verus! {

/// Frames a mole lives at the start of a round.
pub const INITIAL_TTL: usize = 90;

/// Frames by which a hit shortens the life of the moles to come.
pub const TTL_STEP: usize = 3;

/// Missed clicks at which the round is lost.
pub const MISS_LIMIT: usize = 10;

/// Left and top edge of the area in which moles spawn.
pub const FIELD_ORIGIN: usize = 50;

/// Width of the area in which moles spawn.
pub const FIELD_WIDTH: usize = 600;

/// Height of the area in which moles spawn.
pub const FIELD_HEIGHT: usize = 500;

/// Where the mole of a new round sits.
pub const OPENING_X: i32 = 200;

/// Where the mole of a new round sits.
pub const OPENING_Y: i32 = 200;

/// Top-level state of a round.
#[derive(Clone, Copy, Debug, PartialEq, Eq, Structural)]
pub enum Phase {
    /// Before the round; no game is ever left in this phase.
    NotStarted,
    /// The round is on.
    Playing,
    /// The round is over; the score it ended with.
    Lost(usize),
}

/// What a frame did.
#[derive(Clone, Copy, Debug, PartialEq, Eq, Structural)]
pub enum FrameOutcome {
    /// The round was lost before this frame; nothing moved.
    Frozen,
    /// This frame found the round lost; the final score.
    RoundLost(usize),
    /// The round went on by one tick; the slot a new mole went into, if
    /// one was spawned.
    Advanced(Option<usize>),
}

/// What a click did.
#[derive(Clone, Copy, Debug, PartialEq, Eq, Structural)]
pub enum ClickOutcome {
    /// The round was lost; the click began a new one.
    Restarted,
    /// The click hit the mole in this slot.
    Hit(usize),
    /// The click hit nothing.
    Missed,
}

/// Where a mole spawns for a pair of random draws.
pub open spec fn spawn_point(draw_x: nat, draw_y: nat) -> Point {
    Point {
        x: (draw_x % (FIELD_WIDTH as nat) + FIELD_ORIGIN) as i32,
        y: (draw_y % (FIELD_HEIGHT as nat) + FIELD_ORIGIN) as i32,
    }
}

/// Frames between a hit at `tick` and the end of the pause that follows.
pub open spec fn pause_after_hit(tick: nat) -> nat {
    4 * (tick % 5 + 1)
}

/// A game, as contracts see it.
pub ghost struct GameView<I, F> {
    /// Frames played in this round.
    pub tick: nat,
    /// The slot table.
    pub slots: Seq<Option<MoleView<I>>>,
    /// Moles hit in this round.
    pub score: nat,
    /// Clicks of this round that hit nothing.
    pub miss_count: nat,
    /// Frames the next mole will live.
    pub current_mole_ttl: int,
    /// Frames left of the pause after the last hit.
    pub spawn_delay_remaining: nat,
    pub phase: Phase,
    /// The font the score is drawn with.
    pub score_font: AsyncAsset<F>,
}

impl<I, F> GameView<I, F> {
    /// The game at the start of a round: one mole in the first slot.
    pub open spec fn initial() -> GameView<I, F> {
        GameView {
            tick: 0,
            slots: Seq::new(
                CAPACITY as nat,
                |i: int|
                    if i == 0 {
                        Some(
                            MoleView::<I>::fresh(
                                Point { x: OPENING_X, y: OPENING_Y },
                                INITIAL_TTL as int,
                            ),
                        )
                    } else {
                        None
                    },
            ),
            score: 0,
            miss_count: 0,
            current_mole_ttl: INITIAL_TTL as int,
            spawn_delay_remaining: 0,
            phase: Phase::Playing,
            score_font: AsyncAsset::Pending,
        }
    }

    /// Whether a frame would find the round lost.
    pub open spec fn loss_due(self) -> bool {
        self.phase is Playing && self.miss_count >= MISS_LIMIT
    }

    /// Whether a frame moves the round on: it is neither lost nor about
    /// to be.
    pub open spec fn runs(self) -> bool {
        !(self.phase is Lost) && !self.loss_due()
    }

    /// Whether a frame that moves the round on spawns a mole.
    pub open spec fn spawn_due(self) -> bool {
        occupied(self.slots) == 0
    }

    /// The mole that a frame spawns for a pair of random draws.
    pub open spec fn spawned_mole(self, draw_x: nat, draw_y: nat) -> MoleView<I> {
        MoleView::<I>::fresh(spawn_point(draw_x, draw_y), self.tick + 1 + self.current_mole_ttl)
    }

    /// The game after one frame.  The draws are used only if a mole is
    /// spawned.
    pub open spec fn advance(self, draw_x: nat, draw_y: nat) -> GameView<I, F> {
        if self.phase is Lost {
            self
        } else if self.loss_due() {
            GameView { phase: Phase::Lost(self.score as usize), ..self }
        } else {
            let tick = self.tick + 1;
            let filled = if self.spawn_due() {
                after_spawn(self.slots, self.spawned_mole(draw_x, draw_y))
            } else {
                self.slots
            };
            let delay = if self.spawn_due() || self.spawn_delay_remaining == 0 {
                0nat
            } else {
                (self.spawn_delay_remaining - 1) as nat
            };
            GameView {
                tick,
                slots: swept(filled, tick as int),
                spawn_delay_remaining: delay,
                ..self
            }
        }
    }

    /// What the frame reports.
    pub open spec fn frame_outcome(self) -> FrameOutcome {
        if self.phase is Lost {
            FrameOutcome::Frozen
        } else if self.loss_due() {
            FrameOutcome::RoundLost(self.score as usize)
        } else if self.spawn_due() && first_vacant(self.slots) < self.slots.len() {
            FrameOutcome::Advanced(Some(first_vacant(self.slots) as usize))
        } else {
            FrameOutcome::Advanced(None)
        }
    }

    /// Whether a click at `point` hits a mole.
    pub open spec fn hits(self, point: Point) -> bool {
        first_containing(self.slots, point) < self.slots.len()
    }

    /// The game after a click at `point`.
    pub open spec fn click(self, point: Point) -> GameView<I, F> {
        if self.phase is Lost {
            Self::initial()
        } else if self.hits(point) {
            GameView {
                slots: after_hit(self.slots, point),
                score: self.score + 1,
                current_mole_ttl: self.current_mole_ttl - TTL_STEP,
                spawn_delay_remaining: pause_after_hit(self.tick),
                ..self
            }
        } else {
            GameView { miss_count: self.miss_count + 1, ..self }
        }
    }

    /// What the click reports.
    pub open spec fn click_outcome(self, point: Point) -> ClickOutcome {
        if self.phase is Lost {
            ClickOutcome::Restarted
        } else if self.hits(point) {
            ClickOutcome::Hit(first_containing(self.slots, point) as usize)
        } else {
            ClickOutcome::Missed
        }
    }

    /// The game after a poll of the picture in `slot` reported `report`.
    pub open spec fn poll_visual(self, slot: int, report: LoadReport<I>) -> GameView<I, F> {
        GameView { slots: after_poll(self.slots, slot, report), ..self }
    }

    /// The game after a poll of the font's load reported `report`.
    pub open spec fn poll_font(self, report: LoadReport<F>) -> GameView<I, F> {
        GameView { score_font: self.score_font.after_poll(report), ..self }
    }

    /// What holds of every game, however it was played.
    pub open spec fn wf(self) -> bool {
        &&& self.slots.len() == CAPACITY
        &&& !(self.phase is NotStarted)
        &&& self.phase matches Phase::Lost(s) ==> s == self.score && self.miss_count >= MISS_LIMIT
        &&& 0 <= self.current_mole_ttl
        &&& self.current_mole_ttl + TTL_STEP * self.score == INITIAL_TTL
        &&& self.spawn_delay_remaining <= 20
        &&& forall|i: int, j: int|
            0 <= i < self.slots.len() && 0 <= j < self.slots.len() && self.slots[i] is Some
                && self.slots[j] is Some ==> i == j
        &&& forall|i: int|
            0 <= i < self.slots.len() && self.slots[i] is Some ==> {
                &&& self.tick < (#[trigger] self.slots[i])->0.expiry_tick
                &&& self.slots[i]->0.expiry_tick <= self.tick + self.current_mole_ttl
            }
    }
}

} // verus!
