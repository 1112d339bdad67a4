//! The game: the one owner of a round's data, moved on by frames, clicks
//! and the driver's reports of asset polls.

use crate::asset::{AssetLoadError, AsyncAsset, LoadReport, PollStatus};
use crate::chance::draw;
use crate::geometry::Point;
use crate::invariants::{
    lemma_advance_wf, lemma_click_wf, lemma_initial_wf, lemma_poll_font_wf, lemma_poll_visual_wf,
};
use crate::rules::{
    spawn_point, ClickOutcome, FrameOutcome, GameView, Phase, FIELD_HEIGHT, FIELD_ORIGIN,
    FIELD_WIDTH, INITIAL_TTL, MISS_LIMIT, OPENING_X, OPENING_Y, TTL_STEP,
};
use crate::slots::{empty_table, poll_result, SlotTable, CAPACITY};
use crate::table::{lemma_first_containing_from, lemma_first_vacant_is, occupied, slot_contains};
use vstd::prelude::*;

verus! {

/// Maps a pair of random draws into the area in which moles spawn.
pub fn spawn_position(draw_x: usize, draw_y: usize) -> (p: Point)
    ensures
        p == spawn_point(draw_x as nat, draw_y as nat),
        FIELD_ORIGIN <= p.x < FIELD_ORIGIN + FIELD_WIDTH,
        FIELD_ORIGIN <= p.y < FIELD_ORIGIN + FIELD_HEIGHT,
{
    Point {
        x: (draw_x % FIELD_WIDTH + FIELD_ORIGIN) as i32,
        y: (draw_y % FIELD_HEIGHT + FIELD_ORIGIN) as i32,
    }
}

/// One round of the game.
#[derive(Debug)]
pub struct GameState<I, F> {
    tick: usize,
    slots: SlotTable<I>,
    score: usize,
    miss_count: usize,
    current_mole_ttl: usize,
    spawn_delay_remaining: usize,
    phase: Phase,
    score_font: AsyncAsset<F>,
}

impl<I, F> View for GameState<I, F> {
    type V = GameView<I, F>;

    closed spec fn view(&self) -> GameView<I, F> {
        GameView {
            tick: self.tick as nat,
            slots: self.slots@,
            score: self.score as nat,
            miss_count: self.miss_count as nat,
            current_mole_ttl: self.current_mole_ttl as int,
            spawn_delay_remaining: self.spawn_delay_remaining as nat,
            phase: self.phase,
            score_font: self.score_font,
        }
    }
}

impl<I, F> GameState<I, F> {
    /// Whether the game is one that the rules can have produced.  Every
    /// game made by `new` and moved on by the functions below is.
    pub open spec fn wf(&self) -> bool {
        self@.wf()
    }

    /// The table of every game has `CAPACITY` slots.
    pub proof fn lemma_capacity(&self)
        ensures
            self@.slots.len() == CAPACITY,
    {
        self.slots.lemma_capacity();
    }

    /// A new round: tick 0, nothing scored or missed, the opening mole in
    /// the first slot, the font still loading.
    pub fn new() -> (g: GameState<I, F>)
        ensures
            g@ == GameView::<I, F>::initial(),
            g.wf(),
    {
        let mut slots = SlotTable::new();
        slots.try_spawn_one(OPENING_X, OPENING_Y, INITIAL_TTL);
        let g = GameState {
            tick: 0,
            slots,
            score: 0,
            miss_count: 0,
            current_mole_ttl: INITIAL_TTL,
            spawn_delay_remaining: 0,
            phase: Phase::Playing,
            score_font: AsyncAsset::Pending,
        };
        proof {
            lemma_first_vacant_is(empty_table::<I>(), 0);
            assert(g@.slots =~= GameView::<I, F>::initial().slots);
            lemma_initial_wf::<I, F>();
        }
        g
    }

    pub fn tick(&self) -> (t: usize)
        ensures
            t == self@.tick,
    {
        self.tick
    }

    pub fn score(&self) -> (n: usize)
        ensures
            n == self@.score,
    {
        self.score
    }

    pub fn miss_count(&self) -> (n: usize)
        ensures
            n == self@.miss_count,
    {
        self.miss_count
    }

    pub fn current_mole_ttl(&self) -> (n: usize)
        ensures
            n == self@.current_mole_ttl,
    {
        self.current_mole_ttl
    }

    pub fn spawn_delay_remaining(&self) -> (n: usize)
        ensures
            n == self@.spawn_delay_remaining,
    {
        self.spawn_delay_remaining
    }

    pub fn phase(&self) -> (p: Phase)
        ensures
            p == self@.phase,
    {
        self.phase
    }

    pub fn score_font(&self) -> (a: &AsyncAsset<F>)
        ensures
            *a == self@.score_font,
    {
        &self.score_font
    }

    /// The slot table, to read.
    pub fn slots(&self) -> (t: &SlotTable<I>)
        ensures
            t@ == self@.slots,
    {
        &self.slots
    }

    /// Number of moles in the table.
    pub fn occupied_count(&self) -> (n: usize)
        ensures
            n == occupied(self@.slots),
            n <= CAPACITY,
    {
        self.slots.occupied_count()
    }

    /// Takes in the report of one poll of the load of the picture in
    /// `slot`.  Only the picture changes.
    pub fn poll_visual(&mut self, slot: usize, report: LoadReport<I>) -> (r: Result<
        PollStatus,
        AssetLoadError,
    >)
        ensures
            final(self)@ == old(self)@.poll_visual(slot as int, report),
            r == poll_result(old(self)@.slots, slot as int, report),
            old(self).wf() ==> final(self).wf(),
    {
        proof {
            if self.wf() {
                lemma_poll_visual_wf(self@, slot as int, report);
            }
        }
        self.slots.poll_visual(slot, report)
    }

    /// Takes in the report of one poll of the font's load.  Only the
    /// font changes.
    pub fn poll_font(&mut self, report: LoadReport<F>) -> (r: Result<PollStatus, AssetLoadError>)
        ensures
            final(self)@ == old(self)@.poll_font(report),
            r == old(self)@.score_font.poll_result(report),
            old(self).wf() ==> final(self).wf(),
    {
        proof {
            if self.wf() {
                lemma_poll_font_wf(self@, report);
            }
        }
        self.score_font.poll(report)
    }

    /// Whether the next frame will spawn a mole, and so use its draws.
    pub fn spawn_is_due(&self) -> (b: bool)
        ensures
            b == (self@.runs() && self@.spawn_due()),
    {
        let lost = match self.phase {
            Phase::Lost(_) => true,
            _ => false,
        };
        let playing = match self.phase {
            Phase::Playing => true,
            _ => false,
        };
        !lost && !(playing && self.miss_count >= MISS_LIMIT) && self.slots.occupied_count() == 0
    }

    /// Plays one frame with the given random draws.
    ///
    /// A lost round stays as it is.  A round with `MISS_LIMIT` misses
    /// becomes lost and nothing else moves.  Otherwise the tick goes up by
    /// one, the pause after a hit runs down by one, an empty table gets one
    /// new mole at the place the draws give, living `current_mole_ttl`
    /// frames from this tick, and every mole whose expiry tick has come is
    /// removed.  Expiry costs the player nothing.
    pub fn advance_frame_with(&mut self, draw_x: usize, draw_y: usize) -> (outcome: FrameOutcome)
        requires
            old(self).wf(),
            old(self)@.runs() ==> old(self)@.tick + 1 + old(self)@.current_mole_ttl <= usize::MAX,
        ensures
            final(self)@ == old(self)@.advance(draw_x as nat, draw_y as nat),
            outcome == old(self)@.frame_outcome(),
            final(self).wf(),
    {
        proof {
            lemma_advance_wf(self@, draw_x as nat, draw_y as nat);
        }
        match self.phase {
            Phase::Lost(_) => {
                return FrameOutcome::Frozen;
            },
            Phase::Playing => {
                if self.miss_count >= MISS_LIMIT {
                    self.phase = Phase::Lost(self.score);
                    return FrameOutcome::RoundLost(self.score);
                }
            },
            Phase::NotStarted => {},
        }
        self.tick = self.tick + 1;
        if self.spawn_delay_remaining > 0 {
            self.spawn_delay_remaining = self.spawn_delay_remaining - 1;
        }
        let mut spawned: Option<usize> = None;
        if self.slots.occupied_count() == 0 {
            self.spawn_delay_remaining = 0;
            let place = spawn_position(draw_x, draw_y);
            spawned = self.slots.first_vacant();
            self.slots.try_spawn_one(place.x, place.y, self.tick + self.current_mole_ttl);
        }
        self.slots.sweep_expired(self.tick);
        FrameOutcome::Advanced(spawned)
    }

    /// Plays one frame, drawing the place of a new mole at random if the
    /// frame spawns one.  Whatever is drawn, the game is as
    /// `advance_frame_with` leaves it for some pair of draws.
    pub fn advance_frame(&mut self) -> (outcome: FrameOutcome)
        requires
            old(self).wf(),
            old(self)@.runs() ==> old(self)@.tick + 1 + old(self)@.current_mole_ttl <= usize::MAX,
        ensures
            exists|draw_x: nat, draw_y: nat| final(self)@ == old(self)@.advance(draw_x, draw_y),
            outcome == old(self)@.frame_outcome(),
            final(self).wf(),
    {
        let (draw_x, draw_y) = if self.spawn_is_due() {
            let x = draw();
            let y = draw();
            (x, y)
        } else {
            (0, 0)
        };
        let outcome = self.advance_frame_with(draw_x, draw_y);
        assert(self@ == old(self)@.advance(draw_x as nat, draw_y as nat));
        outcome
    }

    /// Handles one click at `point`.
    ///
    /// On a lost round the click starts a new round and does nothing
    /// else.  Otherwise the lowest-indexed mole that contains the point is
    /// removed, the score goes up by one, the life of the moles to come
    /// goes down by `TTL_STEP`, and a pause of `4 * (tick % 5 + 1)` frames
    /// begins; if no mole contains the point, the miss count goes up by
    /// one.
    pub fn handle_click(&mut self, point: Point) -> (outcome: ClickOutcome)
        requires
            old(self).wf(),
            !(old(self)@.phase is Lost) ==> old(self)@.miss_count < usize::MAX,
        ensures
            final(self)@ == old(self)@.click(point),
            outcome == old(self)@.click_outcome(point),
            final(self).wf(),
    {
        proof {
            lemma_click_wf(self@, point);
            lemma_first_containing_from(self@.slots, point, 0);
        }
        if let Phase::Lost(_) = self.phase {
            *self = GameState::new();
            return ClickOutcome::Restarted;
        }
        match self.slots.first_containing(point) {
            Some(slot) => {
                assert(slot_contains(self@.slots[slot as int], point));
                self.slots.remove_first_containing(point);
                self.score = self.score + 1;
                self.current_mole_ttl = self.current_mole_ttl - TTL_STEP;
                self.spawn_delay_remaining = 4 * (self.tick % 5 + 1);
                ClickOutcome::Hit(slot)
            },
            None => {
                self.miss_count = self.miss_count + 1;
                ClickOutcome::Missed
            },
        }
    }
}

} // verus!
