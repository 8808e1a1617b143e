//! What pointer events mean to the widgets that watch an element: clicks,
//! presses and releases inside it, and the pointer entering, moving over and
//! leaving it. Positions and timing stay with the toolkit; these functions
//! decide which notifications an event gives and how the widget's state
//! changes.
use vstd::prelude::*;

verus! {

broadcast use vstd::std_specs::vec::group_vec_axioms;

#[derive(Debug, Clone, Copy, PartialEq, Eq, Structural)]
pub enum Button {
    Left,
    Right,
    Middle,
    Other,
}

/// A pointer event, as far as the widgets tell events apart.
#[derive(Debug, Clone, Copy, PartialEq, Eq, Structural)]
pub enum PointerEvent {
    ButtonPressed(Button),
    ButtonReleased(Button),
    CursorMoved,
    /// Any other event of the mouse (a wheel turn, the cursor leaving the
    /// window).
    OtherMouse,
    FingerPressed,
    FingerLifted,
    /// Any event that is not of the mouse or of a finger.
    Other,
}

pub open spec fn is_mouse(e: PointerEvent) -> bool {
    !(e is FingerPressed || e is FingerLifted || e is Other)
}

/// A primary press: the left button, or a finger.
pub open spec fn is_primary_press(e: PointerEvent) -> bool {
    e == PointerEvent::ButtonPressed(Button::Left) || e is FingerPressed
}

/// A primary release: the left button, or a finger.
pub open spec fn is_primary_release(e: PointerEvent) -> bool {
    e == PointerEvent::ButtonReleased(Button::Left) || e is FingerLifted
}

fn primary_press(e: PointerEvent) -> (r: bool)
    ensures
        r == is_primary_press(e),
{
    match e {
        PointerEvent::ButtonPressed(Button::Left) => true,
        PointerEvent::FingerPressed => true,
        _ => false,
    }
}

fn primary_release(e: PointerEvent) -> (r: bool)
    ensures
        r == is_primary_release(e),
{
    match e {
        PointerEvent::ButtonReleased(Button::Left) => true,
        PointerEvent::FingerLifted => true,
        _ => false,
    }
}

/// What a click-and-hover area reports for one event.
#[derive(Debug, Clone, Copy, PartialEq, Eq, Structural)]
pub struct HoverOutcome {
    /// A click to publish.
    pub click: bool,
    /// A change of the hovered state to publish, with the new state.
    pub hover_change: Option<bool>,
    /// Whether the event is captured.
    pub captured: bool,
}

/// The click-and-hover area's reading of an event. A primary press over the
/// element is a click, where clicks are watched. Where hovering is watched,
/// the hovered state follows the pointer, and each change of it, and only a
/// change, is reported. Both happen whether or not the element inside
/// captured the event; the event is captured where it did or where anything
/// was reported.
pub open spec fn hover_spec(
    hovered: bool,
    event: PointerEvent,
    is_over: bool,
    child_captured: bool,
    on_click: bool,
    on_hover_change: bool,
) -> (bool, HoverOutcome) {
    let click = on_click && is_over && is_primary_press(event);
    let change = on_hover_change && hovered != is_over;
    let next = if on_hover_change {
        is_over
    } else {
        hovered
    };
    (
        next,
        HoverOutcome {
            click,
            hover_change: if change {
                Some(is_over)
            } else {
                None
            },
            captured: child_captured || click || change,
        },
    )
}

/// Handles one event on a click-and-hover area whose hovered state is
/// `hovered`, as [`hover_spec`] states.
pub fn click_hover_event(
    hovered: &mut bool,
    event: PointerEvent,
    is_over: bool,
    child_captured: bool,
    on_click: bool,
    on_hover_change: bool,
) -> (r: HoverOutcome)
    ensures
        (*final(hovered), r) == hover_spec(
            *old(hovered),
            event,
            is_over,
            child_captured,
            on_click,
            on_hover_change,
        ),
{
    let click = on_click && is_over && primary_press(event);
    let mut hover_change: Option<bool> = None;
    if on_hover_change {
        if *hovered != is_over {
            hover_change = Some(is_over);
        }
        *hovered = is_over;
    }
    HoverOutcome { click, hover_change, captured: child_captured || click || hover_change.is_some() }
}

/// What a mouse area remembers between events: whether the cursor's place
/// over it is known, whether the cursor was over it at the last move, and
/// whether a drag is under way.
#[derive(Debug, Clone, Copy, PartialEq, Eq, Structural)]
pub struct MouseState {
    pub cursor_known: bool,
    pub was_over: Option<bool>,
    pub dragging: bool,
}

/// Which notifications a mouse area was given messages for.
#[derive(Debug, Clone, Copy, PartialEq, Eq, Structural)]
pub struct MouseHandlers {
    pub on_press: bool,
    pub on_release: bool,
    pub on_right_press: bool,
    pub on_right_release: bool,
    pub on_middle_press: bool,
    pub on_middle_release: bool,
    pub on_enter: bool,
    pub on_exit: bool,
    pub on_move: bool,
    pub on_drag: bool,
    pub on_click: bool,
}

/// A notification of a mouse area.
#[derive(Debug, Clone, Copy, PartialEq, Eq, Structural)]
pub enum Notice {
    Click,
    Press,
    Enter,
    Move,
    Drag,
    Exit,
    Release,
    RightPress,
    RightRelease,
    MiddlePress,
    MiddleRelease,
}

/// What a mouse area does with one event.
#[derive(Debug, Clone, PartialEq, Eq)]
pub struct MouseOutcome {
    /// The notifications to publish, in order; the event is captured where
    /// there is any.
    pub notices: Vec<Notice>,
    /// Whether a click is registered at the last known cursor place (the
    /// toolkit counts repeated clicks from it).
    pub click_registered: bool,
}

pub open spec fn opt_notice(b: bool, n: Notice) -> Seq<Notice> {
    if b {
        seq![n]
    } else {
        Seq::empty()
    }
}

/// The mouse area's reading of an event: its next state, its notifications
/// in order, and whether a click is registered.
///
/// A mouse event off the element ends a drag. A primary press over it
/// registers a click where the cursor's place is known, starts a drag, and
/// reports the click and the press. A move over it reports an entry (where
/// the last move was off it), the move, and a drag where one is under way; a
/// move off it reports an exit where the last move was over it. A primary
/// release over it ends the drag and is reported, and so are presses and
/// releases of the other buttons over it.
pub open spec fn mouse_spec(
    s: MouseState,
    h: MouseHandlers,
    event: PointerEvent,
    is_over: bool,
) -> (MouseState, Seq<Notice>, bool) {
    let s0 = if is_mouse(event) && !is_over {
        MouseState { dragging: false, ..s }
    } else {
        s
    };
    if is_primary_press(event) {
        if is_over {
            let registered = s0.cursor_known;
            (
                MouseState { dragging: true, ..s0 },
                opt_notice(registered && h.on_click, Notice::Click) + opt_notice(
                    h.on_press,
                    Notice::Press,
                ),
                registered,
            )
        } else {
            (s0, Seq::empty(), false)
        }
    } else if event is CursorMoved {
        if is_over {
            (
                MouseState { cursor_known: true, was_over: Some(true), ..s0 },
                opt_notice(s0.was_over == Some(false) && h.on_enter, Notice::Enter) + opt_notice(
                    h.on_move,
                    Notice::Move,
                ) + opt_notice(s0.dragging && h.on_drag, Notice::Drag),
                false,
            )
        } else {
            (
                MouseState { cursor_known: false, was_over: Some(false), ..s0 },
                opt_notice(s0.was_over == Some(true) && h.on_exit, Notice::Exit),
                false,
            )
        }
    } else if is_primary_release(event) {
        if is_over {
            (
                MouseState { dragging: false, ..s0 },
                opt_notice(h.on_release, Notice::Release),
                false,
            )
        } else {
            (s0, Seq::empty(), false)
        }
    } else if is_over {
        let n = match event {
            PointerEvent::ButtonPressed(Button::Right) => opt_notice(
                h.on_right_press,
                Notice::RightPress,
            ),
            PointerEvent::ButtonReleased(Button::Right) => opt_notice(
                h.on_right_release,
                Notice::RightRelease,
            ),
            PointerEvent::ButtonPressed(Button::Middle) => opt_notice(
                h.on_middle_press,
                Notice::MiddlePress,
            ),
            PointerEvent::ButtonReleased(Button::Middle) => opt_notice(
                h.on_middle_release,
                Notice::MiddleRelease,
            ),
            _ => Seq::empty(),
        };
        (s0, n, false)
    } else {
        (s0, Seq::empty(), false)
    }
}

fn push_if(v: &mut Vec<Notice>, b: bool, n: Notice)
    ensures
        final(v)@ == old(v)@ + opt_notice(b, n),
{
    if b {
        v.push(n);
    }
    assert(final(v)@ =~= old(v)@ + opt_notice(b, n));
}

/// Handles one event on a mouse area, as [`mouse_spec`] states.
pub fn mouse_event(
    state: &mut MouseState,
    handlers: &MouseHandlers,
    event: PointerEvent,
    is_over: bool,
) -> (r: MouseOutcome)
    ensures
        (*final(state), r.notices@, r.click_registered) == mouse_spec(
            *old(state),
            *handlers,
            event,
            is_over,
        ),
{
    let h = *handlers;
    let mouse = match event {
        PointerEvent::FingerPressed | PointerEvent::FingerLifted | PointerEvent::Other => false,
        _ => true,
    };
    if mouse && !is_over {
        state.dragging = false;
    }
    let mut notices: Vec<Notice> = Vec::new();
    let mut click_registered = false;
    if primary_press(event) {
        if is_over {
            click_registered = state.cursor_known;
            push_if(&mut notices, click_registered && h.on_click, Notice::Click);
            state.dragging = true;
            push_if(&mut notices, h.on_press, Notice::Press);
        }
    } else if let PointerEvent::CursorMoved = event {
        if is_over {
            push_if(&mut notices, state.was_over == Some(false) && h.on_enter, Notice::Enter);
            push_if(&mut notices, h.on_move, Notice::Move);
            push_if(&mut notices, state.dragging && h.on_drag, Notice::Drag);
            state.cursor_known = true;
            state.was_over = Some(true);
        } else {
            push_if(&mut notices, state.was_over == Some(true) && h.on_exit, Notice::Exit);
            state.cursor_known = false;
            state.was_over = Some(false);
        }
    } else if primary_release(event) {
        if is_over {
            state.dragging = false;
            push_if(&mut notices, h.on_release, Notice::Release);
        }
    } else if is_over {
        match event {
            PointerEvent::ButtonPressed(Button::Right) => {
                push_if(&mut notices, h.on_right_press, Notice::RightPress);
            },
            PointerEvent::ButtonReleased(Button::Right) => {
                push_if(&mut notices, h.on_right_release, Notice::RightRelease);
            },
            PointerEvent::ButtonPressed(Button::Middle) => {
                push_if(&mut notices, h.on_middle_press, Notice::MiddlePress);
            },
            PointerEvent::ButtonReleased(Button::Middle) => {
                push_if(&mut notices, h.on_middle_release, Notice::MiddleRelease);
            },
            _ => {},
        }
    }
    assert(Seq::<Notice>::empty() + opt_notice(false, Notice::Click) =~= Seq::<Notice>::empty());
    MouseOutcome { notices, click_registered }
}

/// What happens on an instance card.
#[derive(Debug, Clone, Copy, PartialEq, Eq, Structural)]
pub enum CardEvent {
    /// The card was clicked outside its run button.
    Click,
    /// The pointer entered (`true`) or left (`false`) the card.
    Hover(bool),
    /// The run button was pressed.
    Run,
}

/// Handles an event on an instance card whose hovered state is
/// `is_hovered`: hovering follows the pointer, and only the run button asks
/// for a launch (the result).
pub fn card_update(is_hovered: &mut bool, event: CardEvent) -> (r: bool)
    ensures
        r == (event is Run),
        *final(is_hovered) == match event {
            CardEvent::Hover(h) => h,
            _ => *old(is_hovered),
        },
{
    match event {
        CardEvent::Click => false,
        CardEvent::Hover(h) => {
            *is_hovered = h;
            false
        },
        CardEvent::Run => true,
    }
}

} // verus!
