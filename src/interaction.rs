//! The interactive view as a reducer: each input event updates the view
//! state and names the domain transform, if any, that the front end must
//! apply to the current domain model.
//!
//! Screen points are window pixels measured from the window's centre, with
//! `y` growing upwards.

use vstd::prelude::*;
use crate::color::{ColorSchemes, SCHEME_COUNT};
use crate::config::Resolution;

verus! {

/// A pointer position in pixels from the window's centre, `y` upwards.
#[derive(Clone, Copy, Debug, PartialEq, Eq, Structural)]
pub struct ScreenPoint {
    pub x: i32,
    pub y: i32,
}

/// The keys that the view reacts to; `Other` stands for the rest.
#[derive(Clone, Copy, Debug, PartialEq, Eq, Structural)]
pub enum Key {
    LControl,
    LShift,
    Period,
    Comma,
    Plus,
    NumpadAdd,
    Minus,
    NumpadSubtract,
    Up,
    Down,
    Left,
    Right,
    C,
    R,
    F,
    Other,
}

/// An input event, with the window's values already in pixels.
#[derive(Clone, Copy, Debug, PartialEq, Eq, Structural)]
pub enum InputEvent {
    /// The window now has this many pixels.
    Resized { width: usize, height: usize },
    MousePressed,
    MouseMoved(ScreenPoint),
    MouseReleased,
    KeyPressed(Key),
    KeyReleased(Key),
    /// One wheel step forward (zoom in).
    WheelForward,
    /// One wheel step backward (zoom out).
    WheelBackward,
}

/// What the front end must do to the domain model after an event.
#[derive(Clone, Copy, Debug, PartialEq, Eq, Structural)]
pub enum ViewAction {
    /// Leave the domain model as it is.
    Nothing,
    /// Move the domain so that the point under `from` comes under `to`.
    Pan { from: ScreenPoint, to: ScreenPoint },
    /// Shrink (positive) or grow (negative) both intervals by `percent` of
    /// their span, keeping the point under `cursor` in place.
    ZoomAtCursor { cursor: ScreenPoint, percent: i32 },
    /// Replace the intervals by the rectangle with these screen corners.
    ZoomToRect { corner_a: ScreenPoint, corner_b: ScreenPoint },
    /// Shrink (positive) or grow (negative) each end of both intervals by
    /// `percent` of the span, around the midpoints.
    ZoomCentered { percent: i32 },
    /// Add `x_percent` and `y_percent` of the spans to both ends of the
    /// real and imaginary intervals.
    Shift { x_percent: i32, y_percent: i32 },
    /// Go back to the default region.
    Reset,
    /// Write the current picture to a file.
    SaveImage,
}

/// A drag in progress: whether it is on, and where it began.
#[derive(Clone, Copy, Debug, PartialEq, Eq, Structural)]
pub struct Gesture {
    pub active: bool,
    pub start: ScreenPoint,
}

/// Everything the view tracks besides the domain model and the colours.
#[derive(Clone, Copy, Debug, PartialEq, Eq, Structural)]
pub struct Controls {
    /// Pixels of the picture to compute.
    pub resolution: Resolution,
    /// Iteration cap of the next evaluation.
    pub max_iters: usize,
    /// Last known pointer position.
    pub cursor: ScreenPoint,
    /// Mouse drag that pans the view.
    pub pan: Gesture,
    /// Rectangle selection: active while a modifier key is held.
    pub select: Gesture,
    /// A rectangle is being drawn: the button went down during selection.
    pub drawing: bool,
    /// The domain or the colours changed since the last picture.
    pub needs_update: bool,
}

/// Percent of the span that one wheel step zooms by.
pub const WHEEL_ZOOM_PERCENT: i32 = 10;

/// Percent of the span that the zoom keys move each end by.
pub const KEY_ZOOM_PERCENT: i32 = 25;

/// Percent of the span that an arrow key shifts the view by.
pub const KEY_PAN_PERCENT: i32 = 25;

/// The iteration cap doubles only while below this.
pub const MAX_ITERS_CEILING: usize = 20000;

/// The iteration cap halves only while above this.
pub const MAX_ITERS_FLOOR: usize = 32;

/// Smallest extent, in pixels on each axis, of a selection that zooms.
pub const MIN_DRAG_PIXELS: i32 = 4;

/// Iteration cap of a freshly opened view.
pub const DEFAULT_MAX_ITERS: usize = 128;

/// `|a - b|`.
pub open spec fn distance(a: int, b: int) -> int {
    if a >= b {
        a - b
    } else {
        b - a
    }
}

/// A selection from `a` to `b` is too small on at least one axis.
pub open spec fn below_min_drag(a: ScreenPoint, b: ScreenPoint) -> bool {
    distance(a.x as int, b.x as int) < MIN_DRAG_PIXELS || distance(a.y as int, b.y as int)
        < MIN_DRAG_PIXELS
}

/// `c` with `needs_update` set.
pub open spec fn touched(c: Controls) -> Controls {
    Controls { needs_update: true, ..c }
}

/// The domain transform that `key` asks for, if it asks for one.
pub open spec fn key_action(key: Key) -> ViewAction {
    match key {
        Key::Plus | Key::NumpadAdd => ViewAction::ZoomCentered { percent: KEY_ZOOM_PERCENT },
        Key::Minus | Key::NumpadSubtract => ViewAction::ZoomCentered { percent: (-KEY_ZOOM_PERCENT) as i32 },
        Key::Up => ViewAction::Shift { x_percent: 0, y_percent: (-KEY_PAN_PERCENT) as i32 },
        Key::Down => ViewAction::Shift { x_percent: 0, y_percent: KEY_PAN_PERCENT },
        Key::Right => ViewAction::Shift { x_percent: (-KEY_PAN_PERCENT) as i32, y_percent: 0 },
        Key::Left => ViewAction::Shift { x_percent: KEY_PAN_PERCENT, y_percent: 0 },
        Key::R => ViewAction::Reset,
        Key::F => ViewAction::SaveImage,
        _ => ViewAction::Nothing,
    }
}

/// The controls after a key press, and the action it asks for.
pub open spec fn key_press(c: Controls, key: Key) -> (Controls, ViewAction) {
    match key {
        Key::LControl | Key::LShift => if c.select.active {
            (c, ViewAction::Nothing)
        } else {
            (Controls { select: Gesture { active: true, ..c.select }, drawing: false, ..c }, ViewAction::Nothing)
        },
        Key::Period => if c.max_iters < MAX_ITERS_CEILING {
            (Controls { max_iters: (2 * c.max_iters) as usize, needs_update: true, ..c }, ViewAction::Nothing)
        } else {
            (c, ViewAction::Nothing)
        },
        Key::Comma => if c.max_iters > MAX_ITERS_FLOOR {
            (Controls { max_iters: c.max_iters / 2, needs_update: true, ..c }, ViewAction::Nothing)
        } else {
            (c, ViewAction::Nothing)
        },
        Key::C => (touched(c), ViewAction::Nothing),
        Key::F | Key::Other => (c, key_action(key)),
        _ => (touched(c), key_action(key)),
    }
}

/// The controls after the mouse button comes up, and the action it asks for.
pub open spec fn release(c: Controls) -> (Controls, ViewAction) {
    if c.pan.active {
        (
            Controls { pan: Gesture { active: false, ..c.pan }, needs_update: true, ..c },
            ViewAction::Pan { from: c.pan.start, to: c.cursor },
        )
    } else if c.select.active {
        let ended = Controls { select: Gesture { active: false, ..c.select }, drawing: false, ..c };
        if c.drawing && !below_min_drag(c.select.start, c.cursor) {
            (touched(ended), ViewAction::ZoomToRect { corner_a: c.select.start, corner_b: c.cursor })
        } else {
            (ended, ViewAction::Nothing)
        }
    } else {
        (c, ViewAction::Nothing)
    }
}

/// The controls after event `e`, and the action it asks for.
pub open spec fn transition(c: Controls, e: InputEvent) -> (Controls, ViewAction) {
    match e {
        InputEvent::Resized { width, height } => if width == 0 && height == 0 {
            (c, ViewAction::Nothing)
        } else {
            (Controls { resolution: Resolution { x: width, y: height }, needs_update: true, ..c }, ViewAction::Nothing)
        },
        InputEvent::MousePressed => if c.select.active {
            (Controls { select: Gesture { start: c.cursor, ..c.select }, drawing: true, ..c }, ViewAction::Nothing)
        } else {
            (Controls { pan: Gesture { active: true, start: c.cursor }, ..c }, ViewAction::Nothing)
        },
        InputEvent::MouseMoved(p) => (Controls { cursor: p, ..c }, ViewAction::Nothing),
        InputEvent::MouseReleased => release(c),
        InputEvent::KeyPressed(key) => key_press(c, key),
        InputEvent::KeyReleased(key) => match key {
            Key::LControl | Key::LShift => (
                Controls { select: Gesture { active: false, ..c.select }, drawing: false, ..c },
                ViewAction::Nothing,
            ),
            _ => (c, ViewAction::Nothing),
        },
        InputEvent::WheelForward => (
            touched(c),
            ViewAction::ZoomAtCursor { cursor: c.cursor, percent: WHEEL_ZOOM_PERCENT },
        ),
        InputEvent::WheelBackward => (
            touched(c),
            ViewAction::ZoomAtCursor { cursor: c.cursor, percent: (-WHEEL_ZOOM_PERCENT) as i32 },
        ),
    }
}

/// A rectangle selection released while it spans fewer than
/// `MIN_DRAG_PIXELS` on either axis asks for no transform: the domain model
/// stays exactly as it was, and the selection ends.
pub proof fn lemma_small_selection_ignored(c: Controls)
    requires
        !c.pan.active,
        c.select.active,
        below_min_drag(c.select.start, c.cursor),
    ensures
        transition(c, InputEvent::MouseReleased).1 == ViewAction::Nothing,
        !transition(c, InputEvent::MouseReleased).0.select.active,
{
}

/// The iteration cap keys keep a positive cap positive and never raise it
/// past twice the ceiling: no event leads to a cap that cannot be evaluated.
pub proof fn lemma_cap_stays_positive(c: Controls, e: InputEvent)
    requires
        0 < c.max_iters < 2 * MAX_ITERS_CEILING,
    ensures
        0 < transition(c, e).0.max_iters < 2 * MAX_ITERS_CEILING,
{
}

/// Whether a selection from `a` to `b` is too small on either axis.
pub fn is_below_min_drag(a: ScreenPoint, b: ScreenPoint) -> (r: bool)
    ensures
        r == below_min_drag(a, b),
{
    let dx: i64 = if a.x >= b.x { a.x as i64 - b.x as i64 } else { b.x as i64 - a.x as i64 };
    let dy: i64 = if a.y >= b.y { a.y as i64 - b.y as i64 } else { b.y as i64 - a.y as i64 };
    dx < MIN_DRAG_PIXELS as i64 || dy < MIN_DRAG_PIXELS as i64
}

impl Controls {
    /// The controls of a freshly opened view: no drag, the cap at 128.
    pub fn new(resolution: Resolution) -> (r: Controls)
        ensures
            r.resolution == resolution,
            r.max_iters == DEFAULT_MAX_ITERS,
            r.cursor == (ScreenPoint { x: 0, y: 0 }),
            !r.pan.active,
            !r.select.active,
            !r.drawing,
            !r.needs_update,
    {
        let origin = ScreenPoint { x: 0, y: 0 };
        Controls {
            resolution,
            max_iters: DEFAULT_MAX_ITERS,
            cursor: origin,
            pan: Gesture { active: false, start: origin },
            select: Gesture { active: false, start: origin },
            drawing: false,
            needs_update: false,
        }
    }

    /// Offset by which to shift the last picture while a pan drag is on.
    pub fn drag_offset(&self) -> (r: (i64, i64))
        ensures
            self.pan.active ==> r == ((self.cursor.x - self.pan.start.x) as i64, (self.cursor.y
                - self.pan.start.y) as i64),
            !self.pan.active ==> r == (0i64, 0i64),
    {
        if self.pan.active {
            (self.cursor.x as i64 - self.pan.start.x as i64, self.cursor.y as i64 - self.pan.start.y as i64)
        } else {
            (0, 0)
        }
    }

    /// The controls after event `e`, and the domain transform it asks for.
    pub fn step(self, e: InputEvent) -> (r: (Controls, ViewAction))
        ensures
            r == transition(self, e),
    {
        let c = self;
        match e {
            InputEvent::Resized { width, height } => {
                if width == 0 && height == 0 {
                    (c, ViewAction::Nothing)
                } else {
                    (Controls { resolution: Resolution { x: width, y: height }, needs_update: true, ..c }, ViewAction::Nothing)
                }
            },
            InputEvent::MousePressed => {
                if c.select.active {
                    (Controls { select: Gesture { start: c.cursor, ..c.select }, drawing: true, ..c }, ViewAction::Nothing)
                } else {
                    (Controls { pan: Gesture { active: true, start: c.cursor }, ..c }, ViewAction::Nothing)
                }
            },
            InputEvent::MouseMoved(p) => (Controls { cursor: p, ..c }, ViewAction::Nothing),
            InputEvent::MouseReleased => c.on_release(),
            InputEvent::KeyPressed(key) => c.on_key_press(key),
            InputEvent::KeyReleased(key) => match key {
                Key::LControl | Key::LShift => (
                    Controls { select: Gesture { active: false, ..c.select }, drawing: false, ..c },
                    ViewAction::Nothing,
                ),
                _ => (c, ViewAction::Nothing),
            },
            InputEvent::WheelForward => (
                Controls { needs_update: true, ..c },
                ViewAction::ZoomAtCursor { cursor: c.cursor, percent: WHEEL_ZOOM_PERCENT },
            ),
            InputEvent::WheelBackward => (
                Controls { needs_update: true, ..c },
                ViewAction::ZoomAtCursor { cursor: c.cursor, percent: -WHEEL_ZOOM_PERCENT },
            ),
        }
    }

    fn on_release(self) -> (r: (Controls, ViewAction))
        ensures
            r == release(self),
    {
        let c = self;
        if c.pan.active {
            (
                Controls { pan: Gesture { active: false, ..c.pan }, needs_update: true, ..c },
                ViewAction::Pan { from: c.pan.start, to: c.cursor },
            )
        } else if c.select.active {
            let ended = Controls { select: Gesture { active: false, ..c.select }, drawing: false, ..c };
            if c.drawing && !is_below_min_drag(c.select.start, c.cursor) {
                (
                    Controls { needs_update: true, ..ended },
                    ViewAction::ZoomToRect { corner_a: c.select.start, corner_b: c.cursor },
                )
            } else {
                (ended, ViewAction::Nothing)
            }
        } else {
            (c, ViewAction::Nothing)
        }
    }

    fn on_key_press(self, key: Key) -> (r: (Controls, ViewAction))
        ensures
            r == key_press(self, key),
    {
        let c = self;
        match key {
            Key::LControl | Key::LShift => {
                if c.select.active {
                    (c, ViewAction::Nothing)
                } else {
                    (Controls { select: Gesture { active: true, ..c.select }, drawing: false, ..c }, ViewAction::Nothing)
                }
            },
            Key::Period => {
                if c.max_iters < MAX_ITERS_CEILING {
                    (Controls { max_iters: 2 * c.max_iters, needs_update: true, ..c }, ViewAction::Nothing)
                } else {
                    (c, ViewAction::Nothing)
                }
            },
            Key::Comma => {
                if c.max_iters > MAX_ITERS_FLOOR {
                    (Controls { max_iters: c.max_iters / 2, needs_update: true, ..c }, ViewAction::Nothing)
                } else {
                    (c, ViewAction::Nothing)
                }
            },
            Key::C => (Controls { needs_update: true, ..c }, ViewAction::Nothing),
            Key::F | Key::Other => (c, key_to_action(key)),
            _ => (Controls { needs_update: true, ..c }, key_to_action(key)),
        }
    }
}

/// The domain transform that `key` asks for.
pub fn key_to_action(key: Key) -> (r: ViewAction)
    ensures
        r == key_action(key),
{
    match key {
        Key::Plus | Key::NumpadAdd => ViewAction::ZoomCentered { percent: KEY_ZOOM_PERCENT },
        Key::Minus | Key::NumpadSubtract => ViewAction::ZoomCentered { percent: -KEY_ZOOM_PERCENT },
        Key::Up => ViewAction::Shift { x_percent: 0, y_percent: -KEY_PAN_PERCENT },
        Key::Down => ViewAction::Shift { x_percent: 0, y_percent: KEY_PAN_PERCENT },
        Key::Right => ViewAction::Shift { x_percent: -KEY_PAN_PERCENT, y_percent: 0 },
        Key::Left => ViewAction::Shift { x_percent: KEY_PAN_PERCENT, y_percent: 0 },
        Key::R => ViewAction::Reset,
        Key::F => ViewAction::SaveImage,
        _ => ViewAction::Nothing,
    }
}

/// The state of the interactive view besides its domain model.
pub struct ViewState {
    pub controls: Controls,
    pub color_schemes: ColorSchemes,
}

impl ViewState {
    /// A freshly opened view of `resolution` pixels, first colour scheme.
    pub fn new(resolution: Resolution) -> (r: ViewState)
        ensures
            r.controls.resolution == resolution,
            r.controls.max_iters == DEFAULT_MAX_ITERS,
            !r.controls.pan.active,
            !r.controls.select.active,
            !r.controls.drawing,
            !r.controls.needs_update,
            r.color_schemes.index() == 0,
    {
        ViewState { controls: Controls::new(resolution), color_schemes: ColorSchemes::new() }
    }

    /// Applies event `e`: the controls move as `transition` says, the key `C`
    /// selects the next colour scheme, and the returned action is the one
    /// that `transition` names.
    pub fn handle(&mut self, e: InputEvent) -> (a: ViewAction)
        ensures
            (final(self).controls, a) == transition(old(self).controls, e),
            e == InputEvent::KeyPressed(Key::C) ==> final(self).color_schemes.index()
                == (old(self).color_schemes.index() + 1) % (SCHEME_COUNT as nat),
            e != InputEvent::KeyPressed(Key::C) ==> final(self).color_schemes == old(self).color_schemes,
    {
        let (controls, action) = self.controls.step(e);
        self.controls = controls;
        if e == InputEvent::KeyPressed(Key::C) {
            self.color_schemes.next();
        }
        action
    }

    /// The picture has been recomputed for the current state.
    pub fn mark_rendered(&mut self)
        ensures
            final(self).controls == (Controls { needs_update: false, ..old(self).controls }),
            final(self).color_schemes == old(self).color_schemes,
    {
        self.controls.needs_update = false;
    }
}

} // verus!
