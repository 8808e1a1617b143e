use aethon::pointer::{
    card_update, click_hover_event, CardEvent, mouse_event, Button, HoverOutcome, MouseHandlers, MouseState, Notice,
    PointerEvent,
};

const ALL: MouseHandlers = MouseHandlers {
    on_press: true,
    on_release: true,
    on_right_press: true,
    on_right_release: true,
    on_middle_press: true,
    on_middle_release: true,
    on_enter: true,
    on_exit: true,
    on_move: true,
    on_drag: true,
    on_click: true,
};

const FRESH: MouseState = MouseState { cursor_known: false, was_over: None, dragging: false };

#[test]
fn hover_changes_are_edge_triggered() {
    let mut hovered = false;
    let r = click_hover_event(&mut hovered, PointerEvent::CursorMoved, true, false, true, true);
    assert_eq!(r, HoverOutcome { click: false, hover_change: Some(true), captured: true });
    assert!(hovered);
    let r = click_hover_event(&mut hovered, PointerEvent::CursorMoved, true, false, true, true);
    assert_eq!(r, HoverOutcome { click: false, hover_change: None, captured: false });
    let r = click_hover_event(&mut hovered, PointerEvent::CursorMoved, false, false, true, true);
    assert_eq!(r.hover_change, Some(false));
    assert!(!hovered);
}

#[test]
fn click_needs_primary_press_inside() {
    let mut hovered = true;
    let press = PointerEvent::ButtonPressed(Button::Left);
    assert!(click_hover_event(&mut hovered, press, true, false, true, true).click);
    assert!(click_hover_event(&mut hovered, PointerEvent::FingerPressed, true, false, true, true).click);
    assert!(!click_hover_event(&mut hovered, PointerEvent::ButtonPressed(Button::Right), true, false, true, true).click);
    let mut hovered = false;
    assert!(!click_hover_event(&mut hovered, press, false, false, true, true).click);
    assert!(!click_hover_event(&mut hovered, press, true, false, false, true).click);
}

#[test]
fn child_capture_does_not_suppress_bookkeeping() {
    let mut hovered = false;
    let r = click_hover_event(&mut hovered, PointerEvent::ButtonPressed(Button::Left), true, true, true, true);
    assert_eq!(r, HoverOutcome { click: true, hover_change: Some(true), captured: true });
    assert!(hovered);
    let r = click_hover_event(&mut hovered, PointerEvent::Other, true, true, true, true);
    assert_eq!(r, HoverOutcome { click: false, hover_change: None, captured: true });
}

#[test]
fn hover_state_kept_without_handler() {
    let mut hovered = false;
    let r = click_hover_event(&mut hovered, PointerEvent::CursorMoved, true, false, false, false);
    assert_eq!(r, HoverOutcome { click: false, hover_change: None, captured: false });
    assert!(!hovered);
}

#[test]
fn mouse_enter_move_drag_exit() {
    let mut s = FRESH;
    let r = mouse_event(&mut s, &ALL, PointerEvent::CursorMoved, true);
    assert_eq!(r.notices, vec![Notice::Move]);
    assert_eq!(s, MouseState { cursor_known: true, was_over: Some(true), dragging: false });
    let r = mouse_event(&mut s, &ALL, PointerEvent::ButtonPressed(Button::Left), true);
    assert_eq!(r.notices, vec![Notice::Click, Notice::Press]);
    assert!(r.click_registered);
    assert!(s.dragging);
    let r = mouse_event(&mut s, &ALL, PointerEvent::CursorMoved, true);
    assert_eq!(r.notices, vec![Notice::Move, Notice::Drag]);
    let r = mouse_event(&mut s, &ALL, PointerEvent::CursorMoved, false);
    assert_eq!(r.notices, vec![Notice::Exit]);
    assert_eq!(s, MouseState { cursor_known: false, was_over: Some(false), dragging: false });
    let r = mouse_event(&mut s, &ALL, PointerEvent::CursorMoved, true);
    assert_eq!(r.notices, vec![Notice::Enter, Notice::Move]);
}

#[test]
fn mouse_press_without_known_cursor() {
    let mut s = FRESH;
    let r = mouse_event(&mut s, &ALL, PointerEvent::FingerPressed, true);
    assert_eq!(r.notices, vec![Notice::Press]);
    assert!(!r.click_registered);
    let r = mouse_event(&mut s, &ALL, PointerEvent::FingerLifted, true);
    assert_eq!(r.notices, vec![Notice::Release]);
    assert!(!s.dragging);
}

#[test]
fn mouse_other_buttons() {
    let mut s = FRESH;
    for (e, n) in [
        (PointerEvent::ButtonPressed(Button::Right), Notice::RightPress),
        (PointerEvent::ButtonReleased(Button::Right), Notice::RightRelease),
        (PointerEvent::ButtonPressed(Button::Middle), Notice::MiddlePress),
        (PointerEvent::ButtonReleased(Button::Middle), Notice::MiddleRelease),
    ] {
        assert_eq!(mouse_event(&mut s, &ALL, e, true).notices, vec![n]);
        assert!(mouse_event(&mut s, &ALL, e, false).notices.is_empty());
    }
}

#[test]
fn mouse_event_outside_ends_drag() {
    let mut s = MouseState { cursor_known: true, was_over: Some(true), dragging: true };
    let r = mouse_event(&mut s, &ALL, PointerEvent::OtherMouse, false);
    assert!(r.notices.is_empty());
    assert!(!s.dragging);
    let mut s = MouseState { cursor_known: true, was_over: Some(true), dragging: true };
    mouse_event(&mut s, &ALL, PointerEvent::Other, false);
    assert!(s.dragging);
}

#[test]
fn mouse_handlers_missing() {
    let none = MouseHandlers {
        on_press: false,
        on_release: false,
        on_right_press: false,
        on_right_release: false,
        on_middle_press: false,
        on_middle_release: false,
        on_enter: false,
        on_exit: false,
        on_move: false,
        on_drag: false,
        on_click: false,
    };
    let mut s = MouseState { cursor_known: true, was_over: Some(false), dragging: false };
    let r = mouse_event(&mut s, &none, PointerEvent::ButtonPressed(Button::Left), true);
    assert!(r.notices.is_empty());
    assert!(r.click_registered);
    assert!(s.dragging);
}

#[test]
fn card_hover_and_run() {
    let mut hovered = false;
    assert!(!card_update(&mut hovered, CardEvent::Hover(true)));
    assert!(hovered);
    assert!(!card_update(&mut hovered, CardEvent::Click));
    assert!(hovered);
    assert!(card_update(&mut hovered, CardEvent::Run));
    assert!(hovered);
    assert!(!card_update(&mut hovered, CardEvent::Hover(false)));
    assert!(!hovered);
}
