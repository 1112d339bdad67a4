//! What a frame shows: the list of draw commands for the current state.

use crate::game::GameState;
use crate::geometry::Point;
use crate::mole::MoleView;
use crate::rules::{GameView, Phase};
use crate::slots::CAPACITY;
use vstd::prelude::*;

verus! {

/// Where the running score is drawn.
pub const SCORE_X: i32 = 620;

/// Where the running score is drawn.
pub const SCORE_Y: i32 = 100;

/// Where the final score is drawn.
pub const FINAL_SCORE_X: i32 = 350;

/// Where the final score is drawn.
pub const FINAL_SCORE_Y: i32 = 300;

/// Where the invitation to play again is drawn.
pub const PROMPT_X: i32 = 350;

/// Where the invitation to play again is drawn.
pub const PROMPT_Y: i32 = 400;

/// Point size of every text.
pub const TEXT_SIZE: u32 = 72;

/// Scale of a mole's picture, in tenths.
pub const VISUAL_SCALE_TENTHS: u32 = 3;

/// A text of the display.
#[derive(Clone, Copy, Debug, PartialEq, Eq, Structural)]
pub enum Label {
    /// The running score, as a bare number.
    Score(usize),
    /// The score the round ended with, as "Score: " and the number.
    FinalScore(usize),
    /// "Click to restart".
    RestartPrompt,
}

/// Colour of a text.
#[derive(Clone, Copy, Debug, PartialEq, Eq, Structural)]
pub enum Tint {
    White,
    Red,
}

/// One call on the presentation surface.
#[derive(Clone, Copy, Debug, PartialEq, Eq, Structural)]
pub enum DrawCommand {
    /// Clear the surface to black.
    Clear,
    /// Draw the picture of the mole in `slot` at `at`, scaled by
    /// `VISUAL_SCALE_TENTHS`.
    Image { slot: usize, at: Point },
    /// Draw `label` at `at` in `tint`, in the score font at `TEXT_SIZE`.
    Text { label: Label, at: Point, tint: Tint },
    /// Show what was drawn.
    Present,
}

/// The command that draws the mole in `slot`, if the slot holds a mole
/// whose picture has arrived.
pub open spec fn visual_of<I>(s: Seq<Option<MoleView<I>>>, slot: int) -> Seq<DrawCommand> {
    if s[slot] is Some && s[slot]->0.visual is Ready {
        seq![DrawCommand::Image { slot: slot as usize, at: s[slot]->0.center }]
    } else {
        Seq::empty()
    }
}

/// The commands that draw the moles of the first `k` slots, in slot order.
pub open spec fn visuals<I>(s: Seq<Option<MoleView<I>>>, k: int) -> Seq<DrawCommand>
    decreases k,
{
    if k <= 0 {
        Seq::empty()
    } else {
        visuals(s, k - 1) + visual_of(s, k - 1)
    }
}

impl<I, F> GameView<I, F> {
    /// The texts of a lost round: the final score and the invitation to
    /// play again, if the font has arrived.
    pub open spec fn closing_texts(self, final_score: usize) -> Seq<DrawCommand> {
        if self.score_font is Ready {
            seq![
                DrawCommand::Text {
                    label: Label::FinalScore(final_score),
                    at: Point { x: FINAL_SCORE_X, y: FINAL_SCORE_Y },
                    tint: Tint::Red,
                },
                DrawCommand::Text {
                    label: Label::RestartPrompt,
                    at: Point { x: PROMPT_X, y: PROMPT_Y },
                    tint: Tint::Red,
                },
            ]
        } else {
            Seq::empty()
        }
    }

    /// The text of a running round: the score, if the font has arrived.
    pub open spec fn running_texts(self) -> Seq<DrawCommand> {
        if self.score_font is Ready {
            seq![
                DrawCommand::Text {
                    label: Label::Score(self.score as usize),
                    at: Point { x: SCORE_X, y: SCORE_Y },
                    tint: Tint::White,
                },
            ]
        } else {
            Seq::empty()
        }
    }

    /// The draw commands of one frame.
    ///
    /// A lost round is drawn over the last picture of the round: its
    /// texts, and nothing is cleared.  Otherwise the surface is cleared,
    /// then come the moles whose pictures have arrived, in slot order,
    /// then the score.
    pub open spec fn scene(self) -> Seq<DrawCommand> {
        match self.phase {
            Phase::Lost(final_score) => self.closing_texts(final_score) + seq![
                DrawCommand::Present,
            ],
            _ => seq![DrawCommand::Clear] + visuals(self.slots, self.slots.len() as int)
                + self.running_texts() + seq![DrawCommand::Present],
        }
    }
}

impl<I, F> GameState<I, F> {
    /// The draw commands of one frame, in the order to carry them out.
    /// Reads the game and changes nothing.
    pub fn render(&self) -> (commands: Vec<DrawCommand>)
        ensures
            commands@ == self@.scene(),
    {
        let mut commands: Vec<DrawCommand> = Vec::new();
        let font_ready = self.score_font().is_ready();
        if let Phase::Lost(final_score) = self.phase() {
            if font_ready {
                commands.push(
                    DrawCommand::Text {
                        label: Label::FinalScore(final_score),
                        at: Point { x: FINAL_SCORE_X, y: FINAL_SCORE_Y },
                        tint: Tint::Red,
                    },
                );
                commands.push(
                    DrawCommand::Text {
                        label: Label::RestartPrompt,
                        at: Point { x: PROMPT_X, y: PROMPT_Y },
                        tint: Tint::Red,
                    },
                );
            }
            commands.push(DrawCommand::Present);
            assert(commands@ =~= self@.scene());
            return commands;
        }
        commands.push(DrawCommand::Clear);
        let table = self.slots();
        proof {
            table.lemma_capacity();
        }
        let mut i: usize = 0;
        while i < CAPACITY
            invariant
                i <= CAPACITY,
                table@ == self@.slots,
                table@.len() == CAPACITY,
                commands@ == seq![DrawCommand::Clear] + visuals(table@, i as int),
            decreases CAPACITY - i,
        {
            let ghost before = commands@;
            match table.get(i) {
                Some(mole) => {
                    if mole.visual().is_ready() {
                        commands.push(DrawCommand::Image { slot: i, at: mole.center() });
                    }
                },
                None => {},
            }
            assert(commands@ =~= before + visual_of(table@, i as int));
            assert(commands@ =~= seq![DrawCommand::Clear] + visuals(table@, i + 1));
            i = i + 1;
        }
        if font_ready {
            commands.push(
                DrawCommand::Text {
                    label: Label::Score(self.score()),
                    at: Point { x: SCORE_X, y: SCORE_Y },
                    tint: Tint::White,
                },
            );
        }
        commands.push(DrawCommand::Present);
        assert(commands@ =~= self@.scene());
        commands
    }
}

} // verus!
