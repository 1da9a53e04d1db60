use savage_core::modes::{
    ActionIntent, Direction, Effect, Event, GameView, ModeKind, ModeStack, Observing, Point,
    Walking,
};

const INTERVAL: u64 = 10;

#[test]
fn stack_starts_with_a_single_walking_mode() {
    let stack = ModeStack::new(0);
    assert_eq!(stack.depth(), 1);
    assert_eq!(stack.active_kind(), ModeKind::Walking);
}

#[test]
fn push_and_pop_return_control_without_leaking_state() {
    let mut stack = ModeStack::new(0);
    let mut view = GameView::new();

    // Entering observing suspends walking.
    let (eff, exited) = stack.handle_event(Event::OpenObserving, &mut view, 1, INTERVAL);
    assert_eq!(eff, Effect::Nothing);
    assert!(!exited);
    assert_eq!(stack.depth(), 2);
    assert_eq!(stack.active_kind(), ModeKind::Observing);

    // The fresh observing instance has its own throttle timer: a fast shift
    // at time 2 moves the viewport and touches only observing's state.
    let (eff, exited) = stack.handle_event(
        Event::Move { dir: Direction::East, fast: true },
        &mut view,
        2,
        INTERVAL,
    );
    assert_eq!(eff, Effect::Nothing);
    assert!(!exited);
    assert_eq!(view.shift, Point { x: 1, y: 0 });

    // Cancel pops back to walking and snaps the viewport home.
    let (eff, exited) = stack.handle_event(Event::Cancel, &mut view, 3, INTERVAL);
    assert_eq!(eff, Effect::Nothing);
    assert!(!exited);
    assert_eq!(stack.depth(), 1);
    assert_eq!(stack.active_kind(), ModeKind::Walking);
    assert_eq!(view.shift, Point { x: 0, y: 0 });

    // Walking's own timer still reads 0, untouched by the excursion: a move
    // at time 12 clears the 10-tick interval (12 > 10), which it would not
    // have done had observing's later timestamp leaked in (12 - 2 == 10).
    let (eff, exited) = stack.handle_event(
        Event::Move { dir: Direction::North, fast: false },
        &mut view,
        12,
        INTERVAL,
    );
    assert!(!exited);
    assert_eq!(eff, Effect::StartAction(ActionIntent::Walk(Direction::North)));
}

#[test]
fn popping_the_last_mode_signals_scene_exit() {
    let mut stack = ModeStack::new(0);
    let mut view = GameView::new();
    let (eff, exited) = stack.handle_event(Event::Cancel, &mut view, 1, INTERVAL);
    assert_eq!(eff, Effect::Nothing);
    assert!(exited);
    assert_eq!(stack.depth(), 1);
}

#[test]
fn movement_is_throttled_without_the_fast_modifier() {
    let mut walking = Walking::new(100);
    let mut view = GameView::new();
    // Too soon: 105 - 100 is not over the interval.
    let (_, eff) = walking.update(
        Event::Move { dir: Direction::South, fast: false },
        &mut view,
        105,
        INTERVAL,
    );
    assert_eq!(eff, Effect::Nothing);
    // The fast modifier bypasses throttling.
    let (_, eff) = walking.update(
        Event::Move { dir: Direction::South, fast: true },
        &mut view,
        105,
        INTERVAL,
    );
    assert_eq!(eff, Effect::StartAction(ActionIntent::Walk(Direction::South)));
    // After enough time a plain move passes again.
    let (_, eff) = walking.update(
        Event::Move { dir: Direction::Here, fast: false },
        &mut view,
        200,
        INTERVAL,
    );
    assert_eq!(eff, Effect::StartAction(ActionIntent::Skip));
}

#[test]
fn walking_keys_open_the_prompt_modes() {
    let mut stack = ModeStack::new(0);
    let mut view = GameView::new();
    let (_, _) = stack.handle_event(Event::OpenDigging, &mut view, 1, INTERVAL);
    assert_eq!(stack.active_kind(), ModeKind::Digging);
    // Answering the direction prompt starts the dig and pops the prompt.
    let (eff, exited) = stack.handle_event(
        Event::Move { dir: Direction::West, fast: false },
        &mut view,
        2,
        INTERVAL,
    );
    assert!(!exited);
    assert_eq!(eff, Effect::StartAction(ActionIntent::Dig(Direction::West)));
    assert_eq!(stack.active_kind(), ModeKind::Walking);
}

#[test]
fn dropping_in_place_needs_no_prompt() {
    let mut stack = ModeStack::new(0);
    let mut view = GameView::new();
    let (eff, _) = stack.handle_event(Event::DropHere, &mut view, 1, INTERVAL);
    assert_eq!(
        eff,
        Effect::StartAction(ActionIntent::Drop { item_id: 0, dir: Direction::Here })
    );
    assert_eq!(stack.depth(), 1);
}

#[test]
fn zoom_saturates_at_its_bounds() {
    let mut view = GameView::new();
    for _ in 0..20 {
        view.zoom_in();
    }
    assert_eq!(view.zoom, 10);
    for _ in 0..20 {
        view.zoom_out();
    }
    assert_eq!(view.zoom, 1);
}

#[test]
fn view_shift_clamps_at_the_coordinate_range() {
    let mut view = GameView { zoom: 2, shift: Point { x: i32::MAX, y: 0 } };
    view.shift_view(Direction::East);
    assert_eq!(view.shift.x, i32::MAX);
    view.shift_view(Direction::West);
    assert_eq!(view.shift.x, i32::MAX - 1);
}

#[test]
fn observing_cursor_is_reported_as_overlay() {
    let mut obs = Observing::new(0);
    obs.set_cursor(Point { x: 3, y: -2 });
    let cursors = obs.cursors();
    assert_eq!(cursors.len(), 1);
    assert_eq!(cursors[0].0, Point { x: 3, y: -2 });
}

#[test]
fn direction_components() {
    assert!(Direction::Here.is_here());
    assert!(!Direction::North.is_here());
    assert_eq!(Direction::NorthEast.dx(), 1);
    assert_eq!(Direction::NorthEast.dy(), -1);
    assert_eq!(Direction::SouthWest.dx(), -1);
    assert_eq!(Direction::SouthWest.dy(), 1);
    assert_eq!(Direction::Here.dx(), 0);
    assert_eq!(Direction::Here.dy(), 0);
}
