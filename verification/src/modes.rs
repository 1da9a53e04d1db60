//! The stack-based interaction-mode state machine. Exactly one mode is
//! active (top of stack) and interprets input; modes below it are suspended
//! and keep their state. Modes are created fresh on push, destroyed on pop,
//! and never inherit state from one another. Popping the last mode is a
//! transition out of the scene, surfaced as an explicit exit signal.

use vstd::prelude::*;
use vstd::math::{max, min};
use crate::items::Color;

verus! {

/// A movement intent on the eight-way compass, or no movement at all.
#[derive(Clone, Copy, Debug, PartialEq, Eq, Structural)]
pub enum Direction {
    Here,
    North,
    NorthEast,
    East,
    SouthEast,
    South,
    SouthWest,
    West,
    NorthWest,
}

impl Direction {
    pub fn is_here(self) -> (r: bool)
        ensures
            r == (self is Here),
    {
        matches!(self, Direction::Here)
    }

    pub open spec fn spec_dx(self) -> int {
        match self {
            Direction::East | Direction::NorthEast | Direction::SouthEast => 1,
            Direction::West | Direction::NorthWest | Direction::SouthWest => -1,
            _ => 0,
        }
    }

    pub open spec fn spec_dy(self) -> int {
        match self {
            Direction::South | Direction::SouthEast | Direction::SouthWest => 1,
            Direction::North | Direction::NorthEast | Direction::NorthWest => -1,
            _ => 0,
        }
    }

    /// Horizontal component: east is positive.
    pub fn dx(self) -> (d: i8)
        ensures
            d as int == self.spec_dx(),
    {
        match self {
            Direction::East | Direction::NorthEast | Direction::SouthEast => 1,
            Direction::West | Direction::NorthWest | Direction::SouthWest => -1,
            _ => 0,
        }
    }

    /// Vertical component: south is positive.
    pub fn dy(self) -> (d: i8)
        ensures
            d as int == self.spec_dy(),
    {
        match self {
            Direction::South | Direction::SouthEast | Direction::SouthWest => 1,
            Direction::North | Direction::NorthEast | Direction::NorthWest => -1,
            _ => 0,
        }
    }
}

/// A position or offset in whole tiles.
#[derive(Clone, Copy, Debug, PartialEq, Eq, Structural)]
pub struct Point {
    pub x: i32,
    pub y: i32,
}

/// An integer sum clamped into the i32 range.
pub open spec fn spec_clamped_add(x: int, d: int) -> int {
    max(i32::MIN as int, min(i32::MAX as int, x + d))
}

/// Adds a small step to a coordinate, clamping at the ends of the range
/// instead of wrapping.
fn clamped_add(x: i32, d: i8) -> (r: i32)
    ensures
        r as int == spec_clamped_add(x as int, d as int),
{
    let s: i64 = x as i64 + d as i64;
    if s > i32::MAX as i64 {
        i32::MAX
    } else if s < i32::MIN as i64 {
        i32::MIN
    } else {
        s as i32
    }
}

pub const MIN_ZOOM: u8 = 1;

pub const MAX_ZOOM: u8 = 10;

/// The shared view state that modes mutate directly: the zoom level and the
/// viewport's shift away from the player. Simulation state is never touched
/// this way; it changes only through action resolution.
#[derive(Clone, Copy, Debug, PartialEq, Eq, Structural)]
pub struct GameView {
    pub zoom: u8,
    pub shift: Point,
}

impl GameView {
    pub open spec fn spec_zoomed_in(self) -> GameView {
        GameView { zoom: min(self.zoom as int + 1, MAX_ZOOM as int) as u8, ..self }
    }

    pub open spec fn spec_zoomed_out(self) -> GameView {
        GameView { zoom: max(self.zoom as int - 1, MIN_ZOOM as int) as u8, ..self }
    }

    pub open spec fn spec_shifted(self, dir: Direction) -> GameView {
        GameView {
            shift: Point {
                x: spec_clamped_add(self.shift.x as int, dir.spec_dx()) as i32,
                y: spec_clamped_add(self.shift.y as int, dir.spec_dy()) as i32,
            },
            ..self
        }
    }

    pub open spec fn spec_reset_shift(self) -> GameView {
        GameView { shift: Point { x: 0, y: 0 }, ..self }
    }

    pub fn new() -> (r: GameView)
        ensures
            r == (GameView { zoom: 2u8, shift: Point { x: 0, y: 0 } }),
    {
        GameView { zoom: 2, shift: Point { x: 0, y: 0 } }
    }

    /// One zoom step in, capped at the maximum level.
    pub fn zoom_in(&mut self)
        ensures
            *final(self) == old(self).spec_zoomed_in(),
    {
        if self.zoom < MAX_ZOOM {
            self.zoom = self.zoom + 1;
        } else {
            self.zoom = MAX_ZOOM;
        }
    }

    /// One zoom step out, floored at the minimum level.
    pub fn zoom_out(&mut self)
        ensures
            *final(self) == old(self).spec_zoomed_out(),
    {
        if self.zoom > MIN_ZOOM {
            self.zoom = self.zoom - 1;
        } else {
            self.zoom = MIN_ZOOM;
        }
    }

    /// Moves the viewport one tile in the given direction, clamped at the
    /// coordinate range's ends.
    pub fn shift_view(&mut self, dir: Direction)
        ensures
            *final(self) == old(self).spec_shifted(dir),
    {
        let x = clamped_add(self.shift.x, dir.dx());
        let y = clamped_add(self.shift.y, dir.dy());
        self.shift = Point { x, y };
    }

    /// Snaps the viewport back onto the player.
    pub fn reset_shift(&mut self)
        ensures
            *final(self) == old(self).spec_reset_shift(),
    {
        self.shift = Point { x: 0, y: 0 };
    }
}

/// The abstract input events the core interprets; how keys and mouse map
/// onto them is the input collaborator's business.
#[derive(Clone, Copy, Debug, PartialEq, Eq, Structural)]
pub enum Event {
    ZoomIn,
    ZoomOut,
    Cancel,
    OpenExamining,
    DropHere,
    OpenDropping,
    OpenWielding,
    ClearLog,
    OpenDigging,
    OpenObserving,
    OpenReading,
    ShowInventory,
    Move { dir: Direction, fast: bool },
}

/// An action the active mode asks the resolution layer to attempt.
#[derive(Clone, Copy, Debug, PartialEq, Eq, Structural)]
pub enum ActionIntent {
    Skip,
    Walk(Direction),
    Drop { item_id: usize, dir: Direction },
    Dig(Direction),
    Read(Direction),
    Wield(Direction),
    Examine(Direction),
}

/// The kinds of interaction mode.
#[derive(Clone, Copy, Debug, PartialEq, Eq, Structural)]
pub enum ModeKind {
    Walking,
    Observing,
    Digging,
    Dropping,
    Wielding,
    Reading,
    Examining,
}

/// A stack transition requested by the active mode.
#[derive(Clone, Copy, Debug, PartialEq, Eq, Structural)]
pub enum Transition {
    Stay,
    Push(ModeKind),
    Pop,
    Replace(ModeKind),
}

/// A side effect the caller should carry out, requested by the active mode.
#[derive(Clone, Copy, Debug, PartialEq, Eq, Structural)]
pub enum Effect {
    Nothing,
    StartAction(ActionIntent),
    ClearLog,
    ShowInventory,
}

/// Whether a movement input is accepted: enough time has passed since the
/// mode's last accepted movement, or the fast modifier bypasses throttling.
pub open spec fn spec_movement_allowed(last: u64, now: u64, interval: u64, fast: bool) -> bool {
    fast || now - last > interval
}

/// The default mode: the player walks the map, and every other mode or
/// action is entered from here.
#[derive(Clone, Copy, Debug, PartialEq, Eq, Structural)]
pub struct Walking {
    pub last_walk: u64,
}

impl Walking {
    pub fn new(now: u64) -> (r: Walking)
        ensures
            r == (Walking { last_walk: now }),
    {
        Walking { last_walk: now }
    }

    /// What walking does with one event: zoom changes apply to the view,
    /// cancel pops (out of the scene, since walking sits at the bottom),
    /// most keys push a prompt mode, and a movement intent starts a walk or
    /// a skip, throttled by the configured repeat interval unless the fast
    /// modifier is held.
    pub open spec fn spec_update(self, ev: Event, view: GameView, now: u64, interval: u64) -> (
        Walking,
        GameView,
        Transition,
        Effect,
    ) {
        match ev {
            Event::ZoomIn => (self, view.spec_zoomed_in(), Transition::Stay, Effect::Nothing),
            Event::ZoomOut => (self, view.spec_zoomed_out(), Transition::Stay, Effect::Nothing),
            Event::Cancel => (self, view, Transition::Pop, Effect::Nothing),
            Event::OpenExamining => (self, view, Transition::Push(ModeKind::Examining), Effect::Nothing),
            Event::DropHere => (
                self,
                view,
                Transition::Stay,
                Effect::StartAction(ActionIntent::Drop { item_id: 0, dir: Direction::Here }),
            ),
            Event::OpenDropping => (self, view, Transition::Push(ModeKind::Dropping), Effect::Nothing),
            Event::OpenWielding => (self, view, Transition::Push(ModeKind::Wielding), Effect::Nothing),
            Event::ClearLog => (self, view, Transition::Stay, Effect::ClearLog),
            Event::OpenDigging => (self, view, Transition::Push(ModeKind::Digging), Effect::Nothing),
            Event::OpenObserving => (self, view, Transition::Push(ModeKind::Observing), Effect::Nothing),
            Event::OpenReading => (self, view, Transition::Push(ModeKind::Reading), Effect::Nothing),
            Event::ShowInventory => (self, view, Transition::Stay, Effect::ShowInventory),
            Event::Move { dir, fast } => {
                if spec_movement_allowed(self.last_walk, now, interval, fast) {
                    (
                        Walking { last_walk: now },
                        view,
                        Transition::Stay,
                        Effect::StartAction(
                            if dir is Here {
                                ActionIntent::Skip
                            } else {
                                ActionIntent::Walk(dir)
                            },
                        ),
                    )
                } else {
                    (self, view, Transition::Stay, Effect::Nothing)
                }
            },
        }
    }

    pub fn update(&mut self, ev: Event, view: &mut GameView, now: u64, interval: u64) -> (r: (
        Transition,
        Effect,
    ))
        ensures
            (*final(self), *final(view), r.0, r.1) == old(self).spec_update(
                ev,
                *old(view),
                now,
                interval,
            ),
    {
        match ev {
            Event::ZoomIn => {
                view.zoom_in();
                (Transition::Stay, Effect::Nothing)
            },
            Event::ZoomOut => {
                view.zoom_out();
                (Transition::Stay, Effect::Nothing)
            },
            Event::Cancel => (Transition::Pop, Effect::Nothing),
            Event::OpenExamining => (Transition::Push(ModeKind::Examining), Effect::Nothing),
            Event::DropHere => (
                Transition::Stay,
                Effect::StartAction(ActionIntent::Drop { item_id: 0, dir: Direction::Here }),
            ),
            Event::OpenDropping => (Transition::Push(ModeKind::Dropping), Effect::Nothing),
            Event::OpenWielding => (Transition::Push(ModeKind::Wielding), Effect::Nothing),
            Event::ClearLog => (Transition::Stay, Effect::ClearLog),
            Event::OpenDigging => (Transition::Push(ModeKind::Digging), Effect::Nothing),
            Event::OpenObserving => (Transition::Push(ModeKind::Observing), Effect::Nothing),
            Event::OpenReading => (Transition::Push(ModeKind::Reading), Effect::Nothing),
            Event::ShowInventory => (Transition::Stay, Effect::ShowInventory),
            Event::Move { dir, fast } => {
                if fast || now.saturating_sub(self.last_walk) > interval {
                    self.last_walk = now;
                    if dir.is_here() {
                        (Transition::Stay, Effect::StartAction(ActionIntent::Skip))
                    } else {
                        (Transition::Stay, Effect::StartAction(ActionIntent::Walk(dir)))
                    }
                } else {
                    (Transition::Stay, Effect::Nothing)
                }
            },
        }
    }
}

/// The observing mode: the player moves a cursor and shifts the viewport to
/// look around; nothing in the world changes.
#[derive(Clone, Copy, Debug, PartialEq, Eq, Structural)]
pub struct Observing {
    pub last_shift: u64,
    pub cursor: Point,
}

impl Observing {
    pub fn new(now: u64) -> (r: Observing)
        ensures
            r == (Observing { last_shift: now, cursor: Point { x: 0, y: 0 } }),
    {
        Observing { last_shift: now, cursor: Point { x: 0, y: 0 } }
    }

    /// Places the cursor; the caller converts pointer coordinates into
    /// whole tiles before handing them in.
    pub fn set_cursor(&mut self, p: Point)
        ensures
            *final(self) == (Observing { cursor: p, ..*old(self) }),
    {
        self.cursor = p;
    }

    /// The cursor markers this mode contributes to the overlay: its lime
    /// cursor, even while suspended.
    pub fn cursors(&self) -> (r: Vec<(Point, Color)>)
        ensures
            r@ =~= seq![(self.cursor, (Color { r: 0u8, g: 255u8, b: 0u8, a: 255u8 }))],
    {
        let mut v: Vec<(Point, Color)> = Vec::new();
        v.push((self.cursor, Color { r: 0, g: 255, b: 0, a: 255 }));
        v
    }

    /// What observing does with one event: cancel snaps the viewport back
    /// and pops, zoom changes apply to the view, and a movement intent
    /// shifts the viewport, throttled like walking movement.
    pub open spec fn spec_update(self, ev: Event, view: GameView, now: u64, interval: u64) -> (
        Observing,
        GameView,
        Transition,
        Effect,
    ) {
        match ev {
            Event::Cancel => (self, view.spec_reset_shift(), Transition::Pop, Effect::Nothing),
            Event::ZoomIn => (self, view.spec_zoomed_in(), Transition::Stay, Effect::Nothing),
            Event::ZoomOut => (self, view.spec_zoomed_out(), Transition::Stay, Effect::Nothing),
            Event::Move { dir, fast } => {
                if spec_movement_allowed(self.last_shift, now, interval, fast) {
                    (
                        Observing { last_shift: now, ..self },
                        view.spec_shifted(dir),
                        Transition::Stay,
                        Effect::Nothing,
                    )
                } else {
                    (self, view, Transition::Stay, Effect::Nothing)
                }
            },
            _ => (self, view, Transition::Stay, Effect::Nothing),
        }
    }

    pub fn update(&mut self, ev: Event, view: &mut GameView, now: u64, interval: u64) -> (r: (
        Transition,
        Effect,
    ))
        ensures
            (*final(self), *final(view), r.0, r.1) == old(self).spec_update(
                ev,
                *old(view),
                now,
                interval,
            ),
    {
        match ev {
            Event::Cancel => {
                view.reset_shift();
                (Transition::Pop, Effect::Nothing)
            },
            Event::ZoomIn => {
                view.zoom_in();
                (Transition::Stay, Effect::Nothing)
            },
            Event::ZoomOut => {
                view.zoom_out();
                (Transition::Stay, Effect::Nothing)
            },
            Event::Move { dir, fast } => {
                if fast || now.saturating_sub(self.last_shift) > interval {
                    self.last_shift = now;
                    view.shift_view(dir);
                    (Transition::Stay, Effect::Nothing)
                } else {
                    (Transition::Stay, Effect::Nothing)
                }
            },
            _ => (Transition::Stay, Effect::Nothing),
        }
    }
}

/// What a direction-prompt mode does with one event: cancel pops without
/// acting, a movement intent answers the prompt (popping back to the mode
/// below and starting the action built from the direction), and anything
/// else is ignored.
pub open spec fn spec_prompt_update(ev: Event, intent: spec_fn(Direction) -> ActionIntent) -> (
    Transition,
    Effect,
) {
    match ev {
        Event::Cancel => (Transition::Pop, Effect::Nothing),
        Event::Move { dir, fast } => (Transition::Pop, Effect::StartAction(intent(dir))),
        _ => (Transition::Stay, Effect::Nothing),
    }
}

/// A prompt for the direction to dig in.
#[derive(Clone, Copy, Debug, PartialEq, Eq, Structural)]
pub struct Digging {}

impl Digging {
    pub fn update(&self, ev: Event) -> (r: (Transition, Effect))
        ensures
            (r.0, r.1) == spec_prompt_update(ev, |dir: Direction| ActionIntent::Dig(dir)),
    {
        match ev {
            Event::Cancel => (Transition::Pop, Effect::Nothing),
            Event::Move { dir, fast: _ } => (
                Transition::Pop,
                Effect::StartAction(ActionIntent::Dig(dir)),
            ),
            _ => (Transition::Stay, Effect::Nothing),
        }
    }
}

/// A prompt for the direction to drop the held item towards.
#[derive(Clone, Copy, Debug, PartialEq, Eq, Structural)]
pub struct Dropping {}

impl Dropping {
    pub fn update(&self, ev: Event) -> (r: (Transition, Effect))
        ensures
            (r.0, r.1) == spec_prompt_update(
                ev,
                |dir: Direction| ActionIntent::Drop { item_id: 0, dir },
            ),
    {
        match ev {
            Event::Cancel => (Transition::Pop, Effect::Nothing),
            Event::Move { dir, fast: _ } => (
                Transition::Pop,
                Effect::StartAction(ActionIntent::Drop { item_id: 0, dir }),
            ),
            _ => (Transition::Stay, Effect::Nothing),
        }
    }
}

/// A prompt for the direction to wield an item from.
#[derive(Clone, Copy, Debug, PartialEq, Eq, Structural)]
pub struct Wielding {}

impl Wielding {
    pub fn update(&self, ev: Event) -> (r: (Transition, Effect))
        ensures
            (r.0, r.1) == spec_prompt_update(ev, |dir: Direction| ActionIntent::Wield(dir)),
    {
        match ev {
            Event::Cancel => (Transition::Pop, Effect::Nothing),
            Event::Move { dir, fast: _ } => (
                Transition::Pop,
                Effect::StartAction(ActionIntent::Wield(dir)),
            ),
            _ => (Transition::Stay, Effect::Nothing),
        }
    }
}

/// A prompt for the direction to read towards.
#[derive(Clone, Copy, Debug, PartialEq, Eq, Structural)]
pub struct Reading {}

impl Reading {
    pub fn update(&self, ev: Event) -> (r: (Transition, Effect))
        ensures
            (r.0, r.1) == spec_prompt_update(ev, |dir: Direction| ActionIntent::Read(dir)),
    {
        match ev {
            Event::Cancel => (Transition::Pop, Effect::Nothing),
            Event::Move { dir, fast: _ } => (
                Transition::Pop,
                Effect::StartAction(ActionIntent::Read(dir)),
            ),
            _ => (Transition::Stay, Effect::Nothing),
        }
    }
}

/// A prompt for the direction to examine.
#[derive(Clone, Copy, Debug, PartialEq, Eq, Structural)]
pub struct Examining {}

impl Examining {
    pub fn update(&self, ev: Event) -> (r: (Transition, Effect))
        ensures
            (r.0, r.1) == spec_prompt_update(ev, |dir: Direction| ActionIntent::Examine(dir)),
    {
        match ev {
            Event::Cancel => (Transition::Pop, Effect::Nothing),
            Event::Move { dir, fast: _ } => (
                Transition::Pop,
                Effect::StartAction(ActionIntent::Examine(dir)),
            ),
            _ => (Transition::Stay, Effect::Nothing),
        }
    }
}

/// One live mode instance: its kind together with its transient state.
#[derive(Clone, Copy, Debug, PartialEq, Eq, Structural)]
pub enum Mode {
    Walking(Walking),
    Observing(Observing),
    Digging(Digging),
    Dropping(Dropping),
    Wielding(Wielding),
    Reading(Reading),
    Examining(Examining),
}

impl Mode {
    pub open spec fn spec_kind(self) -> ModeKind {
        match self {
            Mode::Walking(_) => ModeKind::Walking,
            Mode::Observing(_) => ModeKind::Observing,
            Mode::Digging(_) => ModeKind::Digging,
            Mode::Dropping(_) => ModeKind::Dropping,
            Mode::Wielding(_) => ModeKind::Wielding,
            Mode::Reading(_) => ModeKind::Reading,
            Mode::Examining(_) => ModeKind::Examining,
        }
    }

    pub fn kind(&self) -> (k: ModeKind)
        ensures
            k == self.spec_kind(),
    {
        match self {
            Mode::Walking(_) => ModeKind::Walking,
            Mode::Observing(_) => ModeKind::Observing,
            Mode::Digging(_) => ModeKind::Digging,
            Mode::Dropping(_) => ModeKind::Dropping,
            Mode::Wielding(_) => ModeKind::Wielding,
            Mode::Reading(_) => ModeKind::Reading,
            Mode::Examining(_) => ModeKind::Examining,
        }
    }

    /// A freshly created mode of the given kind: its transient state starts
    /// from scratch, inheriting nothing from any other instance.
    pub open spec fn spec_fresh(kind: ModeKind, now: u64) -> Mode {
        match kind {
            ModeKind::Walking => Mode::Walking(Walking { last_walk: now }),
            ModeKind::Observing => Mode::Observing(
                Observing { last_shift: now, cursor: Point { x: 0, y: 0 } },
            ),
            ModeKind::Digging => Mode::Digging(Digging {}),
            ModeKind::Dropping => Mode::Dropping(Dropping {}),
            ModeKind::Wielding => Mode::Wielding(Wielding {}),
            ModeKind::Reading => Mode::Reading(Reading {}),
            ModeKind::Examining => Mode::Examining(Examining {}),
        }
    }

    pub fn fresh(kind: ModeKind, now: u64) -> (m: Mode)
        ensures
            m == Mode::spec_fresh(kind, now),
    {
        match kind {
            ModeKind::Walking => Mode::Walking(Walking::new(now)),
            ModeKind::Observing => Mode::Observing(Observing::new(now)),
            ModeKind::Digging => Mode::Digging(Digging {}),
            ModeKind::Dropping => Mode::Dropping(Dropping {}),
            ModeKind::Wielding => Mode::Wielding(Wielding {}),
            ModeKind::Reading => Mode::Reading(Reading {}),
            ModeKind::Examining => Mode::Examining(Examining {}),
        }
    }

    /// One step of the active mode's input interpretation.
    pub open spec fn spec_update(self, ev: Event, view: GameView, now: u64, interval: u64) -> (
        Mode,
        GameView,
        Transition,
        Effect,
    ) {
        match self {
            Mode::Walking(m) => {
                let (m2, v2, t, e) = m.spec_update(ev, view, now, interval);
                (Mode::Walking(m2), v2, t, e)
            },
            Mode::Observing(m) => {
                let (m2, v2, t, e) = m.spec_update(ev, view, now, interval);
                (Mode::Observing(m2), v2, t, e)
            },
            Mode::Digging(_) => {
                let (t, e) = spec_prompt_update(ev, |dir: Direction| ActionIntent::Dig(dir));
                (self, view, t, e)
            },
            Mode::Dropping(_) => {
                let (t, e) = spec_prompt_update(
                    ev,
                    |dir: Direction| ActionIntent::Drop { item_id: 0, dir },
                );
                (self, view, t, e)
            },
            Mode::Wielding(_) => {
                let (t, e) = spec_prompt_update(ev, |dir: Direction| ActionIntent::Wield(dir));
                (self, view, t, e)
            },
            Mode::Reading(_) => {
                let (t, e) = spec_prompt_update(ev, |dir: Direction| ActionIntent::Read(dir));
                (self, view, t, e)
            },
            Mode::Examining(_) => {
                let (t, e) = spec_prompt_update(ev, |dir: Direction| ActionIntent::Examine(dir));
                (self, view, t, e)
            },
        }
    }

    pub fn update(&mut self, ev: Event, view: &mut GameView, now: u64, interval: u64) -> (r: (
        Transition,
        Effect,
    ))
        ensures
            (*final(self), *final(view), r.0, r.1) == old(self).spec_update(
                ev,
                *old(view),
                now,
                interval,
            ),
    {
        let cur = *self;
        match cur {
            Mode::Walking(mut m) => {
                let r = m.update(ev, view, now, interval);
                *self = Mode::Walking(m);
                r
            },
            Mode::Observing(mut m) => {
                let r = m.update(ev, view, now, interval);
                *self = Mode::Observing(m);
                r
            },
            Mode::Digging(m) => m.update(ev),
            Mode::Dropping(m) => m.update(ev),
            Mode::Wielding(m) => m.update(ev),
            Mode::Reading(m) => m.update(ev),
            Mode::Examining(m) => m.update(ev),
        }
    }
}

/// What one event does to the whole stack: the active mode interprets it,
/// its new state replaces it in place, and the transition it requested is
/// applied. A pop of the last remaining mode leaves the stack as it is and
/// signals the scene exit instead.
pub open spec fn spec_stack_step(
    stack: Seq<Mode>,
    ev: Event,
    view: GameView,
    now: u64,
    interval: u64,
) -> (Seq<Mode>, GameView, Effect, bool)
    recommends
        stack.len() >= 1,
{
    let (m2, v2, t, e) = stack.last().spec_update(ev, view, now, interval);
    let base = stack.update(stack.len() - 1, m2);
    match t {
        Transition::Stay => (base, v2, e, false),
        Transition::Push(k) => (base.push(Mode::spec_fresh(k, now)), v2, e, false),
        Transition::Pop => {
            if base.len() > 1 {
                (base.drop_last(), v2, e, false)
            } else {
                (base, v2, e, true)
            }
        },
        Transition::Replace(k) => (base.drop_last().push(Mode::spec_fresh(k, now)), v2, e, false),
    }
}

/// The stack of live mode instances. It always holds at least one mode; a
/// single walking mode sits at the bottom when the scene starts.
pub struct ModeStack {
    stack: Vec<Mode>,
}

impl ModeStack {
    /// The modes from bottom to top; the last one is active.
    pub closed spec fn modes(self) -> Seq<Mode> {
        self.stack@
    }

    /// The stack is never empty while the scene is live.
    pub open spec fn wf(self) -> bool {
        self.modes().len() >= 1
    }

    /// A new scene's stack: exactly one walking mode.
    pub fn new(now: u64) -> (r: ModeStack)
        ensures
            r.wf(),
            r.modes() =~= seq![Mode::Walking(Walking { last_walk: now })],
    {
        let mut stack: Vec<Mode> = Vec::new();
        stack.push(Mode::Walking(Walking::new(now)));
        ModeStack { stack }
    }

    pub fn depth(&self) -> (n: usize)
        ensures
            n == self.modes().len(),
    {
        self.stack.len()
    }

    /// The kind of the active mode.
    pub fn active_kind(&self) -> (k: ModeKind)
        requires
            self.wf(),
        ensures
            k == self.modes().last().spec_kind(),
    {
        let n = self.stack.len();
        self.stack[n - 1].kind()
    }

    /// Suspends the active mode and activates a fresh instance of the given
    /// kind on top of it.
    pub fn push(&mut self, kind: ModeKind, now: u64)
        requires
            old(self).wf(),
        ensures
            final(self).wf(),
            final(self).modes() == old(self).modes().push(Mode::spec_fresh(kind, now)),
    {
        self.stack.push(Mode::fresh(kind, now));
    }

    /// Destroys the active mode and reactivates the one below it. Popping
    /// the last mode does not empty the stack: it signals that the scene
    /// itself should be left.
    pub fn pop(&mut self) -> (exited: bool)
        requires
            old(self).wf(),
        ensures
            final(self).wf(),
            old(self).modes().len() > 1 ==> final(self).modes() == old(self).modes().drop_last()
                && !exited,
            old(self).modes().len() == 1 ==> final(self).modes() == old(self).modes() && exited,
    {
        if self.stack.len() > 1 {
            let _ = self.stack.pop();
            proof {
                assert(self.stack@ =~= old(self).modes().drop_last());
            }
            false
        } else {
            true
        }
    }

    /// Hands one event to the active mode and applies whatever it asked
    /// for. The returned effect is for the caller to carry out; the flag
    /// reports that the scene should be left.
    pub fn handle_event(&mut self, ev: Event, view: &mut GameView, now: u64, interval: u64) -> (r:
        (Effect, bool))
        requires
            old(self).wf(),
        ensures
            final(self).wf(),
            (final(self).modes(), *final(view), r.0, r.1) == spec_stack_step(
                old(self).modes(),
                ev,
                *old(view),
                now,
                interval,
            ),
    {
        let mut top = match self.stack.pop() {
            Some(m) => m,
            None => unreached(),
        };
        let (t, e) = top.update(ev, view, now, interval);
        match t {
            Transition::Stay => {
                self.stack.push(top);
                proof {
                    assert(self.stack@ =~= old(self).modes().update(
                        old(self).modes().len() - 1,
                        top,
                    ));
                }
                (e, false)
            },
            Transition::Push(k) => {
                self.stack.push(top);
                self.stack.push(Mode::fresh(k, now));
                proof {
                    assert(self.stack@ =~= old(self).modes().update(
                        old(self).modes().len() - 1,
                        top,
                    ).push(Mode::spec_fresh(k, now)));
                }
                (e, false)
            },
            Transition::Pop => {
                if self.stack.len() >= 1 {
                    proof {
                        assert(self.stack@ =~= old(self).modes().update(
                            old(self).modes().len() - 1,
                            top,
                        ).drop_last());
                    }
                    (e, false)
                } else {
                    self.stack.push(top);
                    proof {
                        assert(self.stack@ =~= old(self).modes().update(
                            old(self).modes().len() - 1,
                            top,
                        ));
                    }
                    (e, true)
                }
            },
            Transition::Replace(k) => {
                self.stack.push(Mode::fresh(k, now));
                proof {
                    assert(self.stack@ =~= old(self).modes().update(
                        old(self).modes().len() - 1,
                        top,
                    ).drop_last().push(Mode::spec_fresh(k, now)));
                }
                (e, false)
            },
        }
    }
}

/// Pushing a mode and then popping it restores the stack exactly: the modes
/// below, their transient state included, are untouched by the excursion,
/// and control returns to the instance that was active before.
pub proof fn lemma_push_then_pop_restores(stack: Seq<Mode>, kind: ModeKind, now: u64)
    requires
        stack.len() >= 1,
    ensures
        stack.push(Mode::spec_fresh(kind, now)).drop_last() =~= stack,
        stack.push(Mode::spec_fresh(kind, now)).drop_last().last() == stack.last(),
{
}

} // verus!
