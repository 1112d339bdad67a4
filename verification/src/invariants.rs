//! What holds of every game: the rules keep a well-formed game
//! well-formed, and the facts about occupancy, waves, expiry, misses,
//! loss and restart that follow from them.

use crate::asset::{AsyncAsset, LoadReport};
use crate::geometry::Point;
use crate::mole::MoleView;
use crate::rules::{FrameOutcome, GameView, Phase, INITIAL_TTL, OPENING_X, OPENING_Y, TTL_STEP};
use crate::slots::CAPACITY;
use crate::table::{
    first_containing, lemma_first_containing_from, lemma_first_vacant_is, lemma_occupied_bound,
    lemma_occupied_update, lemma_occupied_zero, occupied, slot_contains,
};
use vstd::prelude::*;

verus! {

/// A new round is well-formed.
pub proof fn lemma_initial_wf<I, F>()
    ensures
        GameView::<I, F>::initial().wf(),
{
}

/// A frame keeps a well-formed game well-formed, whatever was drawn.
pub proof fn lemma_advance_wf<I, F>(g: GameView<I, F>, draw_x: nat, draw_y: nat)
    requires
        g.wf(),
    ensures
        g.advance(draw_x, draw_y).wf(),
{
    if g.runs() {
        lemma_occupied_zero(g.slots);
        if g.spawn_due() {
            lemma_first_vacant_is(g.slots, 0);
        }
    }
}

/// A click keeps a well-formed game well-formed.
pub proof fn lemma_click_wf<I, F>(g: GameView<I, F>, point: Point)
    requires
        g.wf(),
    ensures
        g.click(point).wf(),
{
    if g.phase is Lost {
        lemma_initial_wf::<I, F>();
    } else {
        lemma_first_containing_from(g.slots, point, 0);
        if g.hits(point) {
            let i = first_containing(g.slots, point);
            assert(slot_contains(g.slots[i], point));
            assert(g.slots[i] is Some);
            assert(g.current_mole_ttl >= TTL_STEP);
        }
    }
}

/// A poll of a mole's picture keeps a well-formed game well-formed.
pub proof fn lemma_poll_visual_wf<I, F>(g: GameView<I, F>, slot: int, report: LoadReport<I>)
    requires
        g.wf(),
    ensures
        g.poll_visual(slot, report).wf(),
{
}

/// A poll of the font keeps a well-formed game well-formed.
pub proof fn lemma_poll_font_wf<I, F>(g: GameView<I, F>, report: LoadReport<F>)
    requires
        g.wf(),
    ensures
        g.poll_font(report).wf(),
{
}

/// The table never holds more moles than it has slots; as the rules spawn
/// one mole at a time into an empty table, it never holds more than one.
pub proof fn lemma_occupancy_bound<I, F>(g: GameView<I, F>)
    requires
        g.wf(),
    ensures
        occupied(g.slots) <= CAPACITY,
        occupied(g.slots) <= 1,
{
    lemma_occupied_bound(g.slots);
    lemma_occupied_zero(g.slots);
    if occupied(g.slots) > 0 {
        let i = choose|i: int| 0 <= i < g.slots.len() && g.slots[i] is Some;
        let rest = g.slots.update(i, None);
        lemma_occupied_update(g.slots, i, None);
        lemma_occupied_zero(rest);
        assert forall|j: int| 0 <= j < rest.len() implies rest[j] is None by {
            if j != i {
                assert(!(g.slots[j] is Some));
            }
        }
    }
}

/// Moles are spawned only into an empty table: a frame that begins with
/// any slot occupied fills no slot, and a frame that reports a spawn began
/// with every slot empty.
pub proof fn lemma_spawn_only_into_empty_table<I, F>(g: GameView<I, F>, draw_x: nat, draw_y: nat)
    ensures
        occupied(g.slots) > 0 ==> !(g.frame_outcome() matches FrameOutcome::Advanced(Some(_))),
        occupied(g.slots) > 0 ==> g.advance(draw_x, draw_y).slots.len() == g.slots.len(),
        occupied(g.slots) > 0 ==> forall|i: int|
            0 <= i < g.slots.len() && (#[trigger] g.advance(draw_x, draw_y).slots[i]) is Some
                ==> g.advance(draw_x, draw_y).slots[i] == g.slots[i],
        g.frame_outcome() matches FrameOutcome::Advanced(Some(_)) ==> forall|i: int|
            0 <= i < g.slots.len() ==> g.slots[i] is None,
{
    lemma_occupied_zero(g.slots);
}

/// A frame that moves the round on leaves no mole whose expiry tick has
/// come.
pub proof fn lemma_frame_removes_expired<I, F>(g: GameView<I, F>, draw_x: nat, draw_y: nat)
    requires
        g.runs(),
    ensures
        forall|i: int|
            0 <= i < g.advance(draw_x, draw_y).slots.len() && (#[trigger] g.advance(
                draw_x,
                draw_y,
            ).slots[i]) is Some ==> g.advance(draw_x, draw_y).tick < g.advance(
                draw_x,
                draw_y,
            ).slots[i]->0.expiry_tick,
{
}

/// In every game, a mole that is in the table has not reached its expiry
/// tick: one with expiry tick `t` is absent at every tick from `t` on.
pub proof fn lemma_expired_mole_absent<I, F>(g: GameView<I, F>, i: int)
    requires
        g.wf(),
        0 <= i < g.slots.len(),
        g.slots[i] is Some,
    ensures
        g.tick < g.slots[i]->0.expiry_tick,
{
}

/// While the round is on, a click that no mole contains adds one to the
/// miss count, and a click that some mole contains leaves it alone.
pub proof fn lemma_miss_accounting<I, F>(g: GameView<I, F>, point: Point)
    requires
        !(g.phase is Lost),
    ensures
        (forall|i: int| 0 <= i < g.slots.len() ==> !slot_contains(#[trigger] g.slots[i], point))
            ==> g.click(point).miss_count == g.miss_count + 1,
        (exists|i: int| 0 <= i < g.slots.len() && slot_contains(#[trigger] g.slots[i], point))
            ==> g.click(point).miss_count == g.miss_count,
        g.click(point).miss_count == g.miss_count + (if g.hits(point) {
            0nat
        } else {
            1nat
        }),
{
    lemma_first_containing_from(g.slots, point, 0);
}

/// A click that hits removes one mole and no more.
pub proof fn lemma_hit_removes_one<I, F>(g: GameView<I, F>, point: Point)
    requires
        !(g.phase is Lost),
        g.hits(point),
    ensures
        occupied(g.click(point).slots) + 1 == occupied(g.slots),
        g.click(point).score == g.score + 1,
{
    lemma_first_containing_from(g.slots, point, 0);
    lemma_occupied_update(g.slots, first_containing(g.slots, point), None);
}

/// Once the round is lost, frames change nothing: the final score, the
/// score and the miss count stay as they were.
pub proof fn lemma_loss_freezes<I, F>(g: GameView<I, F>, draw_x: nat, draw_y: nat)
    requires
        g.phase is Lost,
    ensures
        g.advance(draw_x, draw_y) == g,
        g.frame_outcome() == FrameOutcome::Frozen,
{
}

/// The frame that finds the round lost records the score and moves
/// nothing else.
pub proof fn lemma_loss_records_score<I, F>(g: GameView<I, F>, draw_x: nat, draw_y: nat)
    requires
        g.wf(),
        g.loss_due(),
    ensures
        g.advance(draw_x, draw_y).phase == Phase::Lost(g.score as usize),
        g.advance(draw_x, draw_y) == (GameView { phase: g.advance(draw_x, draw_y).phase, ..g }),
        g.score as usize == g.score,
{
}

/// Polls change neither the phase nor the counters.
pub proof fn lemma_polls_keep_counters<I, F>(
    g: GameView<I, F>,
    slot: int,
    visual: LoadReport<I>,
    font: LoadReport<F>,
)
    ensures
        g.poll_visual(slot, visual).phase == g.phase,
        g.poll_visual(slot, visual).score == g.score,
        g.poll_visual(slot, visual).miss_count == g.miss_count,
        g.poll_visual(slot, visual).tick == g.tick,
        g.poll_font(font).phase == g.phase,
        g.poll_font(font).score == g.score,
        g.poll_font(font).miss_count == g.miss_count,
        g.poll_font(font).tick == g.tick,
{
}

/// A click on a lost round starts a new one: every counter at zero, the
/// phase `Playing`, and the table holding the opening mole and nothing
/// else.
pub proof fn lemma_restart_is_complete<I, F>(g: GameView<I, F>, point: Point)
    requires
        g.phase is Lost,
    ensures
        g.click(point) == GameView::<I, F>::initial(),
        g.click(point).score == 0,
        g.click(point).miss_count == 0,
        g.click(point).tick == 0,
        g.click(point).phase == Phase::Playing,
        g.click(point).current_mole_ttl == INITIAL_TTL,
        g.click(point).spawn_delay_remaining == 0,
        g.click(point).score_font == AsyncAsset::<F>::Pending,
        g.click(point).slots.len() == CAPACITY,
        g.click(point).slots[0] == Some(
            MoleView::<I>::fresh(Point { x: OPENING_X, y: OPENING_Y }, INITIAL_TTL as int),
        ),
        forall|i: int| 1 <= i < CAPACITY ==> g.click(point).slots[i] is None,
        occupied(g.click(point).slots) == 1,
{
    let s = GameView::<I, F>::initial().slots;
    lemma_occupied_update(s, 0, None);
    lemma_occupied_zero(s.update(0, None));
}

/// The life of the moles to come never grows within a round: a frame
/// leaves it alone, and a click leaves it alone or shortens it by one
/// step, the latter exactly when it hits.
pub proof fn lemma_ttl_never_grows<I, F>(g: GameView<I, F>, point: Point, draw_x: nat, draw_y: nat)
    ensures
        g.advance(draw_x, draw_y).current_mole_ttl == g.current_mole_ttl,
        !(g.phase is Lost) ==> g.click(point).current_mole_ttl == g.current_mole_ttl - (if g.hits(
            point,
        ) {
            TTL_STEP as int
        } else {
            0
        }),
{
}

} // verus!
