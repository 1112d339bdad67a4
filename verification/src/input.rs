//! Input events, and which of them the game consumes.

use crate::game::GameState;
use crate::geometry::Point;
use crate::rules::{ClickOutcome, GameView};
use vstd::prelude::*;

verus! {

/// A button of the pointing device.
#[derive(Clone, Copy, Debug, PartialEq, Eq, Structural)]
pub enum Button {
    Primary,
    Secondary,
    Middle,
}

/// An event of the input source, as far as the game tells events apart.
#[derive(Clone, Copy, Debug, PartialEq, Eq, Structural)]
pub enum InputEvent {
    ButtonPressed(Button),
    ButtonReleased(Button),
    /// Any other event: a key, a pointer move, a resize.
    Other,
}

impl InputEvent {
    /// Whether the event is a click: the primary button going down.
    pub open spec fn is_click(self) -> bool {
        self == InputEvent::ButtonPressed(Button::Primary)
    }
}

impl<I, F> GameView<I, F> {
    /// The game after `event`, the pointer being at `pointer`.
    pub open spec fn after_event(self, event: InputEvent, pointer: Point) -> GameView<I, F> {
        if event.is_click() {
            self.click(pointer)
        } else {
            self
        }
    }

    /// What handling `event` reports.
    pub open spec fn event_outcome(self, event: InputEvent, pointer: Point) -> Option<
        ClickOutcome,
    > {
        if event.is_click() {
            Some(self.click_outcome(pointer))
        } else {
            None
        }
    }
}

impl<I, F> GameState<I, F> {
    /// Handles one input event, the pointer being at `pointer`.  A press
    /// of the primary button is a click at that point; every other event
    /// is ignored.
    pub fn handle_event(&mut self, event: InputEvent, pointer: Point) -> (outcome: Option<
        ClickOutcome,
    >)
        requires
            old(self).wf(),
            event.is_click() && !(old(self)@.phase is Lost) ==> old(self)@.miss_count
                < usize::MAX,
        ensures
            final(self)@ == old(self)@.after_event(event, pointer),
            outcome == old(self)@.event_outcome(event, pointer),
            final(self).wf(),
    {
        match event {
            InputEvent::ButtonPressed(Button::Primary) => Some(self.handle_click(pointer)),
            _ => None,
        }
    }
}

} // verus!
