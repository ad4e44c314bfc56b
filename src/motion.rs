//! Motion samples, and the accessors that pick out one kind of movement.
//!
//! The coordinates of a sample are of a type `S` chosen by the caller (the
//! event model uses 64-bit floats). They pass through unchanged: no accessor
//! reads, scales or clamps them.
use vstd::prelude::*;

use input::ControllerAxisArgs;

verus! {

/// A sample of continuous movement, with coordinates of type `S`.
#[derive(Copy, PartialEq, Debug)]
pub enum Motion<S> {
    /// Cursor position `(x, y)` in window coordinates.
    MouseCursor(S, S),
    /// Relative movement `(dx, dy)`.
    MouseRelative(S, S),
    /// Scroll amount `(sx, sy)` in scroll ticks.
    MouseScroll(S, S),
    /// A controller axis moved.
    ControllerAxis(ControllerAxisArgs),
}

impl<S: Copy> Clone for Motion<S> {
    fn clone(&self) -> (r: Self)
        ensures
            r == *self,
    {
        *self
    }
}

/// Accessors for the cases of a `Motion`.
pub trait MotionTools<S> {
    /// The cursor position, where the value is a `MouseCursor` sample.
    spec fn mouse_cursor_of(&self) -> Option<(S, S)>;

    /// The relative movement, where the value is a `MouseRelative` sample.
    spec fn mouse_relative_of(&self) -> Option<(S, S)>;

    /// The scroll amount, where the value is a `MouseScroll` sample.
    spec fn mouse_scroll_of(&self) -> Option<(S, S)>;

    /// The axis arguments, where the value is a `ControllerAxis` sample.
    spec fn controller_axis_of(&self) -> Option<ControllerAxisArgs>;

    /// The pair of a `MouseCursor` sample; `None` on any other case.
    fn mouse_cursor(&self) -> (r: Option<(S, S)>)
        ensures
            r == self.mouse_cursor_of(),
    ;

    /// The pair of a `MouseRelative` sample; `None` on any other case.
    fn mouse_relative(&self) -> (r: Option<(S, S)>)
        ensures
            r == self.mouse_relative_of(),
    ;

    /// The pair of a `MouseScroll` sample; `None` on any other case.
    fn mouse_scroll(&self) -> (r: Option<(S, S)>)
        ensures
            r == self.mouse_scroll_of(),
    ;

    /// The arguments of a `ControllerAxis` sample; `None` on any other case.
    fn controller_axis(&self) -> (r: Option<ControllerAxisArgs>)
        ensures
            r == self.controller_axis_of(),
    ;
}

impl<S: Copy> MotionTools<S> for Motion<S> {
    open spec fn mouse_cursor_of(&self) -> Option<(S, S)> {
        match self {
            Motion::MouseCursor(x, y) => Some((*x, *y)),
            _ => None,
        }
    }

    open spec fn mouse_relative_of(&self) -> Option<(S, S)> {
        match self {
            Motion::MouseRelative(x, y) => Some((*x, *y)),
            _ => None,
        }
    }

    open spec fn mouse_scroll_of(&self) -> Option<(S, S)> {
        match self {
            Motion::MouseScroll(x, y) => Some((*x, *y)),
            _ => None,
        }
    }

    open spec fn controller_axis_of(&self) -> Option<ControllerAxisArgs> {
        match self {
            Motion::ControllerAxis(a) => Some(*a),
            _ => None,
        }
    }

    fn mouse_cursor(&self) -> (r: Option<(S, S)>) {
        match self {
            Motion::MouseCursor(x, y) => Some((*x, *y)),
            _ => None,
        }
    }

    fn mouse_relative(&self) -> (r: Option<(S, S)>) {
        match self {
            Motion::MouseRelative(x, y) => Some((*x, *y)),
            _ => None,
        }
    }

    fn mouse_scroll(&self) -> (r: Option<(S, S)>) {
        match self {
            Motion::MouseScroll(x, y) => Some((*x, *y)),
            _ => None,
        }
    }

    fn controller_axis(&self) -> (r: Option<ControllerAxisArgs>) {
        match self {
            Motion::ControllerAxis(a) => Some(*a),
            _ => None,
        }
    }
}

impl<S: Copy> MotionTools<S> for Option<Motion<S>> {
    open spec fn mouse_cursor_of(&self) -> Option<(S, S)> {
        match self {
            Some(m) => m.mouse_cursor_of(),
            None => None,
        }
    }

    open spec fn mouse_relative_of(&self) -> Option<(S, S)> {
        match self {
            Some(m) => m.mouse_relative_of(),
            None => None,
        }
    }

    open spec fn mouse_scroll_of(&self) -> Option<(S, S)> {
        match self {
            Some(m) => m.mouse_scroll_of(),
            None => None,
        }
    }

    open spec fn controller_axis_of(&self) -> Option<ControllerAxisArgs> {
        match self {
            Some(m) => m.controller_axis_of(),
            None => None,
        }
    }

    fn mouse_cursor(&self) -> (r: Option<(S, S)>) {
        match self {
            Some(m) => m.mouse_cursor(),
            None => None,
        }
    }

    fn mouse_relative(&self) -> (r: Option<(S, S)>) {
        match self {
            Some(m) => m.mouse_relative(),
            None => None,
        }
    }

    fn mouse_scroll(&self) -> (r: Option<(S, S)>) {
        match self {
            Some(m) => m.mouse_scroll(),
            None => None,
        }
    }

    fn controller_axis(&self) -> (r: Option<ControllerAxisArgs>) {
        match self {
            Some(m) => m.controller_axis(),
            None => None,
        }
    }
}

} // verus!
