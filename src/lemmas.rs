//! Laws that relate the accessors of each type to one another.
use vstd::prelude::*;

use crate::button::{Button, ButtonTools};
use crate::event::{Event, EventTools};
use crate::inputs::{Input, InputTools};
use crate::motion::{Motion, MotionTools};

verus! {

/// A button answers the accessor of its own case with the payload it was
/// built from, and every other accessor with `None`. Wrapped in `Some`, it
/// answers as the bare button does.
pub proof fn lemma_button_exclusive(b: Button)
    ensures
        b matches Button::Keyboard(k) ==> b.keyboard_of() == Some(k) && b.mouse_of() is None
            && b.controller_of() is None,
        b matches Button::Mouse(m) ==> b.mouse_of() == Some(m) && b.keyboard_of() is None
            && b.controller_of() is None,
        b matches Button::Controller(c) ==> b.controller_of() == Some(c) && b.keyboard_of() is None
            && b.mouse_of() is None,
        Some(b).keyboard_of() == b.keyboard_of(),
        Some(b).mouse_of() == b.mouse_of(),
        Some(b).controller_of() == b.controller_of(),
{
}

/// The number of accessors of a `Motion` that answer with a value.
pub open spec fn motion_answers<S: Copy, T: MotionTools<S>>(m: T) -> int {
    (if m.mouse_cursor_of() is Some { 1int } else { 0 })
        + (if m.mouse_relative_of() is Some { 1int } else { 0 })
        + (if m.mouse_scroll_of() is Some { 1int } else { 0 })
        + (if m.controller_axis_of() is Some { 1int } else { 0 })
}

/// A motion sample answers the accessor of its own case with the payload it
/// was built from, and every other accessor with `None`, so exactly one of the
/// four accessors answers with a value. Wrapped in `Some`, it answers as the
/// bare sample does.
pub proof fn lemma_motion_exclusive<S: Copy>(m: Motion<S>)
    ensures
        motion_answers::<S, Motion<S>>(m) == 1,
        m matches Motion::MouseCursor(x, y) ==> m.mouse_cursor_of() == Some((x, y))
            && m.mouse_relative_of() is None && m.mouse_scroll_of() is None
            && m.controller_axis_of() is None,
        m matches Motion::MouseRelative(x, y) ==> m.mouse_relative_of() == Some((x, y))
            && m.mouse_cursor_of() is None && m.mouse_scroll_of() is None
            && m.controller_axis_of() is None,
        m matches Motion::MouseScroll(x, y) ==> m.mouse_scroll_of() == Some((x, y))
            && m.mouse_cursor_of() is None && m.mouse_relative_of() is None
            && m.controller_axis_of() is None,
        m matches Motion::ControllerAxis(a) ==> m.controller_axis_of() == Some(a)
            && m.mouse_cursor_of() is None && m.mouse_relative_of() is None
            && m.mouse_scroll_of() is None,
        Some(m).mouse_cursor_of() == m.mouse_cursor_of(),
        Some(m).mouse_relative_of() == m.mouse_relative_of(),
        Some(m).mouse_scroll_of() == m.mouse_scroll_of(),
        Some(m).controller_axis_of() == m.controller_axis_of(),
{
}

/// The number of accessors of an `Input` that answer with a value.
pub open spec fn input_answers<S: Copy, T: InputTools<S>>(i: T) -> int {
    (if i.press_of() is Some { 1int } else { 0 }) + (if i.release_of() is Some { 1int } else { 0 })
        + (if i.movement_of() is Some { 1int } else { 0 }) + (if i.text_of() is Some { 1int } else { 0 })
        + (if i.resize_of() is Some { 1int } else { 0 }) + (if i.focus_of() is Some { 1int } else { 0 })
        + (if i.cursor_of() is Some { 1int } else { 0 })
}

/// An input answers the accessor of its own case with the payload it was
/// built from, and so exactly one of the seven accessors answers with a value.
/// Wrapped in `Some`, it answers as the bare input does.
pub proof fn lemma_input_exclusive<S: Copy>(i: Input<S>)
    ensures
        input_answers::<S, Input<S>>(i) == 1,
        i matches Input::Press(b) ==> i.press_of() == Some(b),
        i matches Input::Release(b) ==> i.release_of() == Some(b),
        i matches Input::Move(m) ==> i.movement_of() == Some(m),
        i matches Input::Text(t) ==> i.text_of() == Some(t@),
        i matches Input::Resize(w, h) ==> i.resize_of() == Some((w, h)),
        i matches Input::Focus(f) ==> i.focus_of() == Some(f),
        i matches Input::Cursor(c) ==> i.cursor_of() == Some(c),
        Some(i).press_of() == i.press_of(),
        Some(i).release_of() == i.release_of(),
        Some(i).movement_of() == i.movement_of(),
        Some(i).text_of() == i.text_of(),
        Some(i).resize_of() == i.resize_of(),
        Some(i).focus_of() == i.focus_of(),
        Some(i).cursor_of() == i.cursor_of(),
{
}

/// Every accessor answers `None` on an absent value.
pub proof fn lemma_absent_answers_none<S: Copy, I>()
    ensures
        None::<Button>.keyboard_of() is None,
        None::<Button>.mouse_of() is None,
        None::<Button>.controller_of() is None,
        None::<Motion<S>>.mouse_cursor_of() is None,
        None::<Motion<S>>.mouse_relative_of() is None,
        None::<Motion<S>>.mouse_scroll_of() is None,
        None::<Motion<S>>.controller_axis_of() is None,
        motion_answers::<S, Option<Motion<S>>>(None) == 0,
        None::<Input<S>>.press_of() is None,
        None::<Input<S>>.release_of() is None,
        None::<Input<S>>.movement_of() is None,
        None::<Input<S>>.text_of() is None,
        None::<Input<S>>.resize_of() is None,
        None::<Input<S>>.focus_of() is None,
        None::<Input<S>>.cursor_of() is None,
        input_answers::<S, Option<Input<S>>>(None) == 0,
        None::<Event<I>>.input_of() is None,
{
}

/// An event answers with an input exactly when it is an `Input` event, and
/// then with the input it carries; an absent event answers `None`.
pub proof fn lemma_event_input<I>(e: Event<I>)
    ensures
        e.input_of() is Some <==> e is Input,
        e matches Event::Input(i) ==> e.input_of() == Some(i),
        Some(e).input_of() == e.input_of(),
        None::<Event<I>>.input_of() is None,
{
}

/// The button accessors depend on the value alone: equal values give equal
/// answers, so asking twice gives the same answer twice.
pub proof fn lemma_button_tools_deterministic<T: ButtonTools>(a: T, b: T)
    requires
        a == b,
    ensures
        a.keyboard_of() == b.keyboard_of(),
        a.mouse_of() == b.mouse_of(),
        a.controller_of() == b.controller_of(),
{
}

/// The motion accessors depend on the value alone: equal values give equal
/// answers, so asking twice gives the same answer twice.
pub proof fn lemma_motion_tools_deterministic<S, T: MotionTools<S>>(a: T, b: T)
    requires
        a == b,
    ensures
        a.mouse_cursor_of() == b.mouse_cursor_of(),
        a.mouse_relative_of() == b.mouse_relative_of(),
        a.mouse_scroll_of() == b.mouse_scroll_of(),
        a.controller_axis_of() == b.controller_axis_of(),
{
}

/// The input accessors depend on the value alone: equal values give equal
/// answers, so asking twice gives the same answer twice.
pub proof fn lemma_input_tools_deterministic<S, T: InputTools<S>>(a: T, b: T)
    requires
        a == b,
    ensures
        a.press_of() == b.press_of(),
        a.release_of() == b.release_of(),
        a.movement_of() == b.movement_of(),
        a.text_of() == b.text_of(),
        a.resize_of() == b.resize_of(),
        a.focus_of() == b.focus_of(),
        a.cursor_of() == b.cursor_of(),
{
}

/// The event accessor depends on the value alone: equal values give equal
/// answers, so asking twice gives the same answer twice.
pub proof fn lemma_event_tools_deterministic<I, T: EventTools<I>>(a: T, b: T)
    requires
        a == b,
    ensures
        a.input_of() == b.input_of(),
{
}

} // verus!
