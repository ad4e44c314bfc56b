//! Buttons, and the accessors that tell which device a button belongs to.
use vstd::prelude::*;

use input::{ControllerButton, Key, MouseButton};

verus! {

/// The identity of a pressed or released button, by input device.
#[derive(Copy, Clone, PartialEq, Debug)]
pub enum Button {
    /// A keyboard key.
    Keyboard(Key),
    /// A mouse button.
    Mouse(MouseButton),
    /// A controller button.
    Controller(ControllerButton),
}

/// Accessors for the cases of a `Button`.
pub trait ButtonTools {
    /// The key, where the value is a keyboard button.
    spec fn keyboard_of(&self) -> Option<Key>;

    /// The mouse button, where the value is a mouse button.
    spec fn mouse_of(&self) -> Option<MouseButton>;

    /// The controller button, where the value is a controller button.
    spec fn controller_of(&self) -> Option<ControllerButton>;

    /// The key of a `Keyboard` button; `None` on any other case.
    fn keyboard(&self) -> (r: Option<Key>)
        ensures
            r == self.keyboard_of(),
    ;

    /// The mouse button of a `Mouse` button; `None` on any other case.
    fn mouse(&self) -> (r: Option<MouseButton>)
        ensures
            r == self.mouse_of(),
    ;

    /// The controller button of a `Controller` button; `None` on any other case.
    fn controller(&self) -> (r: Option<ControllerButton>)
        ensures
            r == self.controller_of(),
    ;
}

impl ButtonTools for Button {
    open spec fn keyboard_of(&self) -> Option<Key> {
        match self {
            Button::Keyboard(k) => Some(*k),
            _ => None,
        }
    }

    open spec fn mouse_of(&self) -> Option<MouseButton> {
        match self {
            Button::Mouse(m) => Some(*m),
            _ => None,
        }
    }

    open spec fn controller_of(&self) -> Option<ControllerButton> {
        match self {
            Button::Controller(c) => Some(*c),
            _ => None,
        }
    }

    fn keyboard(&self) -> (r: Option<Key>) {
        match self {
            Button::Keyboard(k) => Some(*k),
            _ => None,
        }
    }

    fn mouse(&self) -> (r: Option<MouseButton>) {
        match self {
            Button::Mouse(m) => Some(*m),
            _ => None,
        }
    }

    fn controller(&self) -> (r: Option<ControllerButton>) {
        match self {
            Button::Controller(c) => Some(*c),
            _ => None,
        }
    }
}

impl ButtonTools for Option<Button> {
    open spec fn keyboard_of(&self) -> Option<Key> {
        match self {
            Some(b) => b.keyboard_of(),
            None => None,
        }
    }

    open spec fn mouse_of(&self) -> Option<MouseButton> {
        match self {
            Some(b) => b.mouse_of(),
            None => None,
        }
    }

    open spec fn controller_of(&self) -> Option<ControllerButton> {
        match self {
            Some(b) => b.controller_of(),
            None => None,
        }
    }

    fn keyboard(&self) -> (r: Option<Key>) {
        match self {
            Some(b) => b.keyboard(),
            None => None,
        }
    }

    fn mouse(&self) -> (r: Option<MouseButton>) {
        match self {
            Some(b) => b.mouse(),
            None => None,
        }
    }

    fn controller(&self) -> (r: Option<ControllerButton>) {
        match self {
            Some(b) => b.controller(),
            None => None,
        }
    }
}

} // verus!
