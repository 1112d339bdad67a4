use whac::asset::{AssetLoadError, AsyncAsset, LoadReport, PollStatus};
use whac::game::GameState;
use whac::geometry::Point;
use whac::input::{Button, InputEvent};
use whac::mole::Mole;
use whac::render::{DrawCommand, Label, Tint};
use whac::rules::{ClickOutcome, Phase};
use whac::slots::SlotTable;

type Table = SlotTable<u32>;

#[test]
fn asset_goes_from_pending_to_ready_once() {
    let mut a: AsyncAsset<String> = AsyncAsset::pending();
    assert!(!a.is_ready());
    assert_eq!(a.value(), None);
    assert_eq!(a.poll(LoadReport::Pending), Ok(PollStatus::StillPending));
    assert!(!a.is_ready());
    assert_eq!(a.poll(LoadReport::Ready("mole".to_string())), Ok(PollStatus::BecameReady));
    assert!(a.is_ready());
    assert_eq!(a.value().map(|s| s.as_str()), Some("mole"));
    assert_eq!(a.poll(LoadReport::Ready("other".to_string())), Ok(PollStatus::StillPending));
    assert_eq!(a.poll(LoadReport::Pending), Ok(PollStatus::StillPending));
    assert_eq!(a.poll(LoadReport::Failed), Ok(PollStatus::StillPending));
    assert_eq!(a.value().map(|s| s.as_str()), Some("mole"));
}

#[test]
fn asset_poll_reports_load_failure() {
    let mut a: AsyncAsset<u8> = AsyncAsset::pending();
    assert_eq!(a.poll(LoadReport::Failed), Err(AssetLoadError));
    assert!(!a.is_ready());
    // The driver may go on polling; a later value still settles the asset.
    assert_eq!(a.poll(LoadReport::Ready(4)), Ok(PollStatus::BecameReady));
    assert_eq!(a.value(), Some(&4));
}

#[test]
fn point_distance_is_euclidean_with_border() {
    let c = Point::new(0, 0);
    assert!(c.is_within(Point::new(3, 4), 5));
    assert!(!c.is_within(Point::new(3, 4), 4));
    assert!(c.is_within(Point::new(0, 0), 0));
    assert!(!c.is_within(Point::new(1, 0), 0));
    assert!(c.is_within(Point::new(-30, 40), 50));
    assert!(!c.is_within(Point::new(-31, 40), 50));
    assert!(!Point::new(i32::MIN, i32::MIN).is_within(Point::new(i32::MAX, i32::MAX), 0x7fff));
    assert!(Point::new(i32::MAX, i32::MIN).is_within(Point::new(i32::MAX, i32::MIN + 0x7fff), 0x7fff));
}

#[test]
fn mole_holds_what_it_was_created_with() {
    let mut m: Mole<u32> = Mole::create(120, 340, 77);
    assert_eq!(m.center(), Point::new(120, 340));
    assert_eq!(m.expiry_tick(), 77);
    assert!(!m.visual().is_ready());
    assert!(m.contains(Point::new(120, 340)));
    assert!(m.contains(Point::new(170, 340)));
    assert!(m.contains(Point::new(120, 290)));
    assert!(!m.contains(Point::new(171, 340)));
    assert!(m.contains(Point::new(150, 380)));
    assert!(!m.contains(Point::new(151, 380)));
    assert!(!m.expired_at(76));
    assert!(m.expired_at(77));
    assert!(m.expired_at(78));
    assert_eq!(m.poll_visual(LoadReport::Ready(8)), Ok(PollStatus::BecameReady));
    assert_eq!(m.visual().value(), Some(&8));
    assert_eq!(m.center(), Point::new(120, 340));
    assert_eq!(m.expiry_tick(), 77);
}

#[test]
fn table_starts_empty() {
    let t = Table::new();
    assert_eq!(t.occupied_count(), 0);
    assert_eq!(t.first_vacant(), Some(0));
    for slot in 0..8 {
        assert!(t.get(slot).is_none());
    }
}

#[test]
fn spawn_fills_lowest_empty_slot() {
    let mut t = Table::new();
    for n in 0..5usize {
        assert!(t.try_spawn_one(100 * n as i32, 0, 10 + n));
        assert_eq!(t.occupied_count(), n + 1);
        assert_eq!(t.get(n).unwrap().center(), Point::new(100 * n as i32, 0));
        assert_eq!(t.get(n).unwrap().expiry_tick(), 10 + n);
    }
    assert_eq!(t.first_vacant(), None);
    // A full table takes no more.
    assert!(!t.try_spawn_one(9, 9, 9));
    assert_eq!(t.occupied_count(), 5);
    for n in 0..5usize {
        assert_eq!(t.get(n).unwrap().expiry_tick(), 10 + n);
    }
    // Slots 1 and 3 are emptied; the next spawn goes into slot 1.
    t.sweep_expired(10);
    assert!(t.remove_first_containing(Point::new(100, 0)));
    assert!(t.remove_first_containing(Point::new(300, 0)));
    assert_eq!(t.occupied_count(), 2);
    assert_eq!(t.first_vacant(), Some(0));
    assert!(t.try_spawn_one(1, 1, 50));
    assert!(t.try_spawn_one(2, 2, 60));
    assert_eq!(t.get(0).unwrap().expiry_tick(), 50);
    assert_eq!(t.get(1).unwrap().expiry_tick(), 60);
    assert!(t.get(3).is_none());
}

#[test]
fn sweep_removes_moles_at_or_past_expiry() {
    let mut t = Table::new();
    for expiry in [5usize, 6, 7, 6, 100] {
        assert!(t.try_spawn_one(0, 0, expiry));
    }
    t.sweep_expired(4);
    assert_eq!(t.occupied_count(), 5);
    t.sweep_expired(6);
    assert_eq!(t.occupied_count(), 2);
    assert!(t.get(0).is_none());
    assert!(t.get(1).is_none());
    assert_eq!(t.get(2).unwrap().expiry_tick(), 7);
    assert!(t.get(3).is_none());
    assert_eq!(t.get(4).unwrap().expiry_tick(), 100);
    t.sweep_expired(6);
    assert_eq!(t.occupied_count(), 2);
    t.sweep_expired(usize::MAX);
    assert_eq!(t.occupied_count(), 0);
}

#[test]
fn click_removes_only_the_first_of_overlapping_moles() {
    let mut t = Table::new();
    assert!(t.try_spawn_one(500, 500, 10));
    assert!(t.try_spawn_one(100, 100, 11));
    assert!(t.try_spawn_one(120, 100, 12));
    assert_eq!(t.first_containing(Point::new(110, 100)), Some(1));
    assert!(t.remove_first_containing(Point::new(110, 100)));
    assert_eq!(t.occupied_count(), 2);
    assert!(t.get(1).is_none());
    assert_eq!(t.get(2).unwrap().expiry_tick(), 12);
    assert_eq!(t.get(0).unwrap().expiry_tick(), 10);
    // The second of the two is hit by the next click at the same point.
    assert_eq!(t.first_containing(Point::new(110, 100)), Some(2));
    assert!(t.remove_first_containing(Point::new(110, 100)));
    assert!(!t.remove_first_containing(Point::new(110, 100)));
    assert_eq!(t.first_containing(Point::new(110, 100)), None);
    assert_eq!(t.occupied_count(), 1);
}

#[test]
fn table_polls_reach_the_mole_in_the_slot() {
    let mut t = Table::new();
    assert!(t.try_spawn_one(1, 2, 3));
    assert_eq!(t.poll_visual(1, LoadReport::Ready(7)), Ok(PollStatus::StillPending));
    assert_eq!(t.poll_visual(0, LoadReport::Failed), Err(AssetLoadError));
    assert_eq!(t.poll_visual(0, LoadReport::Ready(7)), Ok(PollStatus::BecameReady));
    assert_eq!(t.get(0).unwrap().visual().value(), Some(&7));
    assert_eq!(t.get(0).unwrap().center(), Point::new(1, 2));
    assert_eq!(t.get(0).unwrap().expiry_tick(), 3);
    assert_eq!(t.occupied_count(), 1);
}

#[test]
fn only_a_primary_press_is_a_click() {
    let ignored = [
        InputEvent::ButtonPressed(Button::Secondary),
        InputEvent::ButtonPressed(Button::Middle),
        InputEvent::ButtonReleased(Button::Primary),
        InputEvent::ButtonReleased(Button::Secondary),
        InputEvent::Other,
    ];
    let mut g: GameState<u32, u32> = GameState::new();
    for event in ignored {
        assert_eq!(g.handle_event(event, Point::new(200, 200)), None);
        assert_eq!(g.handle_event(event, Point::new(-5, -5)), None);
    }
    assert_eq!(g.score(), 0);
    assert_eq!(g.miss_count(), 0);
    assert_eq!(g.occupied_count(), 1);
    let press = InputEvent::ButtonPressed(Button::Primary);
    assert_eq!(g.handle_event(press, Point::new(-5, -5)), Some(ClickOutcome::Missed));
    assert_eq!(g.miss_count(), 1);
    assert_eq!(g.handle_event(press, Point::new(200, 200)), Some(ClickOutcome::Hit(0)));
    assert_eq!(g.score(), 1);
}

#[test]
fn ignored_events_do_not_restart_a_lost_round() {
    let mut g: GameState<u32, u32> = GameState::new();
    let press = InputEvent::ButtonPressed(Button::Primary);
    for _ in 0..10 {
        g.handle_event(press, Point::new(-5, -5));
    }
    g.advance_frame_with(0, 0);
    assert_eq!(g.phase(), Phase::Lost(0));
    assert_eq!(g.handle_event(InputEvent::ButtonReleased(Button::Primary), Point::new(0, 0)), None);
    assert_eq!(g.handle_event(InputEvent::Other, Point::new(0, 0)), None);
    assert_eq!(g.phase(), Phase::Lost(0));
    assert_eq!(g.handle_event(press, Point::new(0, 0)), Some(ClickOutcome::Restarted));
    assert_eq!(g.phase(), Phase::Playing);
}

#[test]
fn running_round_draws_moles_then_score() {
    let mut g: GameState<u32, u32> = GameState::new();
    // Nothing has arrived: only the cleared surface is shown.
    assert_eq!(g.render(), vec![DrawCommand::Clear, DrawCommand::Present]);
    g.poll_visual(0, LoadReport::Ready(1)).unwrap();
    assert_eq!(
        g.render(),
        vec![
            DrawCommand::Clear,
            DrawCommand::Image { slot: 0, at: Point::new(200, 200) },
            DrawCommand::Present,
        ]
    );
    g.poll_font(LoadReport::Ready(2)).unwrap();
    assert_eq!(
        g.render(),
        vec![
            DrawCommand::Clear,
            DrawCommand::Image { slot: 0, at: Point::new(200, 200) },
            DrawCommand::Text {
                label: Label::Score(0),
                at: Point::new(620, 100),
                tint: Tint::White,
            },
            DrawCommand::Present,
        ]
    );
    g.handle_click(Point::new(200, 200));
    assert_eq!(
        g.render(),
        vec![
            DrawCommand::Clear,
            DrawCommand::Text {
                label: Label::Score(1),
                at: Point::new(620, 100),
                tint: Tint::White,
            },
            DrawCommand::Present,
        ]
    );
    // The new mole's picture is still loading, so it is not drawn yet.
    g.advance_frame_with(30, 40);
    assert_eq!(g.render().len(), 3);
    g.poll_visual(0, LoadReport::Ready(3)).unwrap();
    assert_eq!(g.render()[1], DrawCommand::Image { slot: 0, at: Point::new(80, 90) });
}

#[test]
fn lost_round_draws_final_score_and_prompt() {
    let mut g: GameState<u32, u32> = GameState::new();
    g.poll_visual(0, LoadReport::Ready(1)).unwrap();
    g.handle_click(Point::new(200, 200));
    for _ in 0..10 {
        g.handle_click(Point::new(0, 0));
    }
    g.advance_frame_with(0, 0);
    assert_eq!(g.phase(), Phase::Lost(1));
    // Without the font there is nothing to write, and nothing is cleared.
    assert_eq!(g.render(), vec![DrawCommand::Present]);
    g.poll_font(LoadReport::Ready(2)).unwrap();
    assert_eq!(
        g.render(),
        vec![
            DrawCommand::Text {
                label: Label::FinalScore(1),
                at: Point::new(350, 300),
                tint: Tint::Red,
            },
            DrawCommand::Text {
                label: Label::RestartPrompt,
                at: Point::new(350, 400),
                tint: Tint::Red,
            },
            DrawCommand::Present,
        ]
    );
}
