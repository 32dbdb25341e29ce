use mandelbrot::{
    ColorScheme, Controls, InputEvent, Key, Resolution, ScreenPoint, ViewAction, ViewState,
};

fn p(x: i32, y: i32) -> ScreenPoint {
    ScreenPoint { x, y }
}

fn fresh() -> ViewState {
    ViewState::new(Resolution { x: 800, y: 450 })
}

#[test]
fn fresh_view() {
    let v = fresh();
    assert_eq!(v.controls, Controls::new(Resolution { x: 800, y: 450 }));
    assert_eq!(v.controls.max_iters, 128);
    assert!(!v.controls.needs_update);
    assert_eq!(*v.color_schemes.get(), ColorScheme::Bluey);
}

#[test]
fn mouse_drag_pans() {
    let mut v = fresh();
    assert_eq!(v.handle(InputEvent::MouseMoved(p(10, 20))), ViewAction::Nothing);
    assert_eq!(v.handle(InputEvent::MousePressed), ViewAction::Nothing);
    assert!(v.controls.pan.active);
    v.handle(InputEvent::MouseMoved(p(40, -5)));
    assert_eq!(v.controls.drag_offset(), (30, -25));
    let a = v.handle(InputEvent::MouseReleased);
    assert_eq!(a, ViewAction::Pan { from: p(10, 20), to: p(40, -5) });
    assert!(!v.controls.pan.active);
    assert!(v.controls.needs_update);
    assert_eq!(v.controls.drag_offset(), (0, 0));
}

#[test]
fn modifier_drag_zooms_to_rectangle() {
    let mut v = fresh();
    v.handle(InputEvent::KeyPressed(Key::LControl));
    v.handle(InputEvent::MouseMoved(p(-50, -40)));
    v.handle(InputEvent::MousePressed);
    assert!(!v.controls.pan.active);
    assert!(v.controls.drawing);
    v.handle(InputEvent::MouseMoved(p(60, 30)));
    let a = v.handle(InputEvent::MouseReleased);
    assert_eq!(a, ViewAction::ZoomToRect { corner_a: p(-50, -40), corner_b: p(60, 30) });
    assert!(!v.controls.select.active);
    assert!(v.controls.needs_update);
}

#[test]
fn small_selection_is_ignored() {
    for end in [p(3, 100), p(100, -3), p(0, 0), p(-2, 2)] {
        let mut v = fresh();
        v.handle(InputEvent::KeyPressed(Key::LShift));
        v.handle(InputEvent::MousePressed);
        v.handle(InputEvent::MouseMoved(end));
        assert_eq!(v.handle(InputEvent::MouseReleased), ViewAction::Nothing);
        assert!(!v.controls.needs_update);
        assert!(!v.controls.select.active);
    }
}

#[test]
fn selection_at_the_threshold_zooms() {
    let mut v = fresh();
    v.handle(InputEvent::KeyPressed(Key::LShift));
    v.handle(InputEvent::MousePressed);
    v.handle(InputEvent::MouseMoved(p(4, -4)));
    assert_eq!(
        v.handle(InputEvent::MouseReleased),
        ViewAction::ZoomToRect { corner_a: p(0, 0), corner_b: p(4, -4) }
    );
}

#[test]
fn releasing_the_modifier_cancels_the_selection() {
    let mut v = fresh();
    v.handle(InputEvent::KeyPressed(Key::LControl));
    v.handle(InputEvent::MousePressed);
    v.handle(InputEvent::MouseMoved(p(100, 100)));
    v.handle(InputEvent::KeyReleased(Key::LControl));
    assert!(!v.controls.select.active);
    assert_eq!(v.handle(InputEvent::MouseReleased), ViewAction::Nothing);
}

#[test]
fn wheel_zooms_at_the_cursor() {
    let mut v = fresh();
    v.handle(InputEvent::MouseMoved(p(7, -9)));
    assert_eq!(
        v.handle(InputEvent::WheelForward),
        ViewAction::ZoomAtCursor { cursor: p(7, -9), percent: 10 }
    );
    assert_eq!(
        v.handle(InputEvent::WheelBackward),
        ViewAction::ZoomAtCursor { cursor: p(7, -9), percent: -10 }
    );
    assert!(v.controls.needs_update);
}

#[test]
fn arrow_keys_shift_by_a_quarter() {
    let mut v = fresh();
    assert_eq!(
        v.handle(InputEvent::KeyPressed(Key::Up)),
        ViewAction::Shift { x_percent: 0, y_percent: -25 }
    );
    assert_eq!(
        v.handle(InputEvent::KeyPressed(Key::Down)),
        ViewAction::Shift { x_percent: 0, y_percent: 25 }
    );
    assert_eq!(
        v.handle(InputEvent::KeyPressed(Key::Right)),
        ViewAction::Shift { x_percent: -25, y_percent: 0 }
    );
    assert_eq!(
        v.handle(InputEvent::KeyPressed(Key::Left)),
        ViewAction::Shift { x_percent: 25, y_percent: 0 }
    );
}

#[test]
fn zoom_keys() {
    let mut v = fresh();
    for k in [Key::Plus, Key::NumpadAdd] {
        assert_eq!(v.handle(InputEvent::KeyPressed(k)), ViewAction::ZoomCentered { percent: 25 });
    }
    for k in [Key::Minus, Key::NumpadSubtract] {
        assert_eq!(v.handle(InputEvent::KeyPressed(k)), ViewAction::ZoomCentered { percent: -25 });
    }
}

#[test]
fn iteration_cap_keys_have_limits() {
    let mut v = fresh();
    v.handle(InputEvent::KeyPressed(Key::Period));
    assert_eq!(v.controls.max_iters, 256);
    for _ in 0..20 {
        v.handle(InputEvent::KeyPressed(Key::Period));
    }
    assert_eq!(v.controls.max_iters, 32768);
    for _ in 0..20 {
        v.handle(InputEvent::KeyPressed(Key::Comma));
    }
    assert_eq!(v.controls.max_iters, 32);
}

#[test]
fn colour_key_cycles_schemes() {
    let mut v = fresh();
    assert_eq!(v.handle(InputEvent::KeyPressed(Key::C)), ViewAction::Nothing);
    assert_eq!(*v.color_schemes.get(), ColorScheme::Greeny);
    assert!(v.controls.needs_update);
    for _ in 0..7 {
        v.handle(InputEvent::KeyPressed(Key::C));
    }
    assert_eq!(*v.color_schemes.get(), ColorScheme::Bluey);
}

#[test]
fn reset_save_and_other_keys() {
    let mut v = fresh();
    assert_eq!(v.handle(InputEvent::KeyPressed(Key::F)), ViewAction::SaveImage);
    assert!(!v.controls.needs_update);
    assert_eq!(v.handle(InputEvent::KeyPressed(Key::Other)), ViewAction::Nothing);
    assert_eq!(v.handle(InputEvent::KeyReleased(Key::R)), ViewAction::Nothing);
    assert!(!v.controls.needs_update);
    assert_eq!(v.handle(InputEvent::KeyPressed(Key::R)), ViewAction::Reset);
    assert!(v.controls.needs_update);
    v.mark_rendered();
    assert!(!v.controls.needs_update);
}

#[test]
fn resize_sets_resolution() {
    let mut v = fresh();
    v.handle(InputEvent::Resized { width: 0, height: 0 });
    assert_eq!(v.controls.resolution, Resolution { x: 800, y: 450 });
    assert!(!v.controls.needs_update);
    v.handle(InputEvent::Resized { width: 1600, height: 900 });
    assert_eq!(v.controls.resolution, Resolution { x: 1600, y: 900 });
    assert!(v.controls.needs_update);
}

#[test]
fn step_is_pure() {
    let c = Controls::new(Resolution { x: 10, y: 10 });
    let (next, a) = c.step(InputEvent::MouseMoved(p(1, 2)));
    assert_eq!(a, ViewAction::Nothing);
    assert_eq!(next.cursor, p(1, 2));
    assert_eq!(c.cursor, p(0, 0));
}
