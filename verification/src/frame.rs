//! The whole frame: the polls of the assets first, then the round's step.

use crate::asset::{AssetLoadError, LoadReport};
use crate::game::GameState;
use crate::rules::{FrameOutcome, GameView};
use crate::slots::{poll_result, CAPACITY};
use crate::table::{
    first_vacant, lemma_first_vacant_from, lemma_first_vacant_is, lemma_occupied_zero,
};
use vstd::prelude::*;

verus! {

/// What the driver's polls said in one frame: one report for each slot
/// and one for the font.  A load that was not polled reports `Pending`.
#[derive(Debug)]
pub struct FramePolls<I, F> {
    pub visuals: [LoadReport<I>; 5],
    pub font: LoadReport<F>,
}

impl<I, F> GameView<I, F> {
    /// The game after the pictures of the first `k` slots took their
    /// reports, in slot order.
    pub open spec fn visuals_polled(self, reports: Seq<LoadReport<I>>, k: int) -> GameView<I, F>
        decreases k,
    {
        if k <= 0 {
            self
        } else {
            self.visuals_polled(reports, k - 1).poll_visual(k - 1, reports[k - 1])
        }
    }

    /// Whether the load of a picture in the first `k` slots failed.
    pub open spec fn visuals_failed(self, reports: Seq<LoadReport<I>>, k: int) -> bool
        decreases k,
    {
        if k <= 0 {
            false
        } else {
            self.visuals_failed(reports, k - 1) || poll_result(
                self.slots,
                k - 1,
                reports[k - 1],
            ) is Err
        }
    }

    /// The game after every asset took its report.
    pub open spec fn polled(self, polls: FramePolls<I, F>) -> GameView<I, F> {
        self.visuals_polled(polls.visuals@, CAPACITY as int).poll_font(polls.font)
    }

    /// Whether a load that the game waits for has failed.
    pub open spec fn polls_failed(self, polls: FramePolls<I, F>) -> bool {
        self.visuals_failed(polls.visuals@, CAPACITY as int) || self.score_font.poll_result(
            polls.font,
        ) is Err
    }

    /// The game after one whole frame: the assets take their reports, and
    /// unless a load failed the round makes its step.
    pub open spec fn update(self, polls: FramePolls<I, F>, draw_x: nat, draw_y: nat) -> GameView<
        I,
        F,
    > {
        if self.polls_failed(polls) {
            self.polled(polls)
        } else {
            self.polled(polls).advance(draw_x, draw_y)
        }
    }

    /// What the whole frame reports.
    pub open spec fn update_result(self, polls: FramePolls<I, F>) -> Result<
        FrameOutcome,
        AssetLoadError,
    > {
        if self.polls_failed(polls) {
            Err(AssetLoadError)
        } else {
            Ok(self.frame_outcome())
        }
    }
}

/// Polls of the pictures touch the visuals of the slots polled and
/// nothing else.
pub proof fn lemma_visuals_polled<I, F>(g: GameView<I, F>, reports: Seq<LoadReport<I>>, k: int)
    requires
        0 <= k <= g.slots.len(),
    ensures
        g.visuals_polled(reports, k) == (GameView {
            slots: g.visuals_polled(reports, k).slots,
            ..g
        }),
        g.visuals_polled(reports, k).slots.len() == g.slots.len(),
        forall|i: int| k <= i < g.slots.len() ==> g.visuals_polled(reports, k).slots[i] == g.slots[i],
        forall|i: int|
            0 <= i < g.slots.len() ==> ((#[trigger] g.visuals_polled(reports, k).slots[i]) is Some)
                == (g.slots[i] is Some),
        forall|i: int|
            0 <= i < g.slots.len() && g.slots[i] is Some ==> (#[trigger] g.visuals_polled(
                reports,
                k,
            ).slots[i])->0.center == g.slots[i]->0.center && g.visuals_polled(
                reports,
                k,
            ).slots[i]->0.expiry_tick == g.slots[i]->0.expiry_tick,
        g.wf() ==> g.visuals_polled(reports, k).wf(),
    decreases k,
{
    if k > 0 {
        lemma_visuals_polled(g, reports, k - 1);
    }
}

/// The polls of a frame leave the round's step as it was: the step
/// reports the same, and is due on the same conditions.
pub proof fn lemma_polled_keeps_round<I, F>(g: GameView<I, F>, polls: FramePolls<I, F>)
    requires
        g.slots.len() == CAPACITY,
    ensures
        g.polled(polls).tick == g.tick,
        g.polled(polls).score == g.score,
        g.polled(polls).miss_count == g.miss_count,
        g.polled(polls).current_mole_ttl == g.current_mole_ttl,
        g.polled(polls).spawn_delay_remaining == g.spawn_delay_remaining,
        g.polled(polls).phase == g.phase,
        g.polled(polls).runs() == g.runs(),
        g.polled(polls).spawn_due() == g.spawn_due(),
        g.polled(polls).frame_outcome() == g.frame_outcome(),
        g.wf() ==> g.polled(polls).wf(),
{
    let h = g.visuals_polled(polls.visuals@, CAPACITY as int);
    lemma_visuals_polled(g, polls.visuals@, CAPACITY as int);
    lemma_occupied_zero(g.slots);
    lemma_occupied_zero(h.slots);
    assert forall|i: int| 0 <= i < g.slots.len() implies (h.slots[i] is None) == (g.slots[i]
        is None) by {
        assert((h.slots[i] is Some) == (g.slots[i] is Some));
    }
    lemma_first_vacant_from(g.slots, 0);
    lemma_first_vacant_from(h.slots, 0);
    if first_vacant(g.slots) < g.slots.len() {
        lemma_first_vacant_is(h.slots, first_vacant(g.slots));
    } else {
        lemma_first_vacant_is(h.slots, g.slots.len() as int);
    }
}

impl<I, F> GameState<I, F> {
    /// Plays one whole frame with the given random draws.
    ///
    /// First every asset takes the report of its poll: the pictures in
    /// slot order, then the font.  If a load that the game waits for has
    /// failed, the frame ends there with the error.  Otherwise the round
    /// makes its step as `advance_frame_with` describes, so that a picture
    /// that arrived in this frame is drawn in this frame.
    pub fn update_with(&mut self, polls: FramePolls<I, F>, draw_x: usize, draw_y: usize) -> (r:
        Result<FrameOutcome, AssetLoadError>)
        requires
            old(self).wf(),
            old(self)@.runs() ==> old(self)@.tick + 1 + old(self)@.current_mole_ttl <= usize::MAX,
        ensures
            final(self)@ == old(self)@.update(polls, draw_x as nat, draw_y as nat),
            r == old(self)@.update_result(polls),
            final(self).wf(),
    {
        let failed = self.take_polls(polls);
        proof {
            lemma_polled_keeps_round(old(self)@, polls);
        }
        if failed {
            Err(AssetLoadError)
        } else {
            Ok(self.advance_frame_with(draw_x, draw_y))
        }
    }

    /// Plays one whole frame, drawing the place of a new mole at random
    /// if the frame spawns one.  Whatever is drawn, the game is as
    /// `update_with` leaves it for some pair of draws.
    pub fn update(&mut self, polls: FramePolls<I, F>) -> (r: Result<FrameOutcome, AssetLoadError>)
        requires
            old(self).wf(),
            old(self)@.runs() ==> old(self)@.tick + 1 + old(self)@.current_mole_ttl <= usize::MAX,
        ensures
            exists|draw_x: nat, draw_y: nat| final(self)@ == old(self)@.update(polls, draw_x, draw_y),
            r == old(self)@.update_result(polls),
            final(self).wf(),
    {
        let failed = self.take_polls(polls);
        proof {
            lemma_polled_keeps_round(old(self)@, polls);
        }
        if failed {
            assert(self@ == old(self)@.update(polls, 0, 0));
            Err(AssetLoadError)
        } else {
            let ghost polled = self@;
            let outcome = self.advance_frame();
            proof {
                let (draw_x, draw_y) = choose|draw_x: nat, draw_y: nat|
                    self@ == polled.advance(draw_x, draw_y);
                assert(self@ == old(self)@.update(polls, draw_x, draw_y));
            }
            Ok(outcome)
        }
    }

    /// Hands every asset the report of its poll and says whether a load
    /// that the game waits for has failed.
    pub fn take_polls(&mut self, polls: FramePolls<I, F>) -> (failed: bool)
        ensures
            final(self)@ == old(self)@.polled(polls),
            failed == old(self)@.polls_failed(polls),
            old(self).wf() ==> final(self).wf(),
    {
        let ghost reports = polls.visuals@;
        let FramePolls { visuals, font } = polls;
        let mut visuals = visuals;
        let mut failed = false;
        proof {
            self.lemma_capacity();
        }
        let mut slot: usize = 0;
        while slot < CAPACITY
            invariant
                slot <= CAPACITY,
                old(self)@.slots.len() == CAPACITY,
                self@ == old(self)@.visuals_polled(reports, slot as int),
                failed == old(self)@.visuals_failed(reports, slot as int),
                forall|i: int| slot <= i < CAPACITY ==> visuals@[i] == reports[i],
            decreases CAPACITY - slot,
        {
            proof {
                lemma_visuals_polled(old(self)@, reports, slot as int);
            }
            let mut report = LoadReport::Pending;
            core::mem::swap(&mut visuals[slot], &mut report);
            if self.poll_visual(slot, report).is_err() {
                failed = true;
            }
            slot = slot + 1;
        }
        if self.poll_font(font).is_err() {
            failed = true;
        }
        proof {
            lemma_visuals_polled(old(self)@, reports, CAPACITY as int);
            if old(self).wf() {
                lemma_polled_keeps_round(old(self)@, polls);
            }
        }
        failed
    }
}

} // verus!
