//! Input occurrences, and the accessors that pick out one kind of them.
use vstd::prelude::*;

use crate::button::Button;
use crate::motion::Motion;

verus! {

/// Something that happened on an input device or to the window, with motion
/// coordinates of type `S`.
#[derive(PartialEq, Debug)]
pub enum Input<S> {
    /// A button went down.
    Press(Button),
    /// A button went up.
    Release(Button),
    /// Something moved.
    Move(Motion<S>),
    /// Text was entered, usually from the keyboard.
    Text(String),
    /// The window was resized to `(width, height)`.
    Resize(u32, u32),
    /// The window gained (`true`) or lost (`false`) focus.
    Focus(bool),
    /// The window gained (`true`) or lost (`false`) the cursor.
    Cursor(bool),
}

impl<S: Copy> Clone for Input<S> {
    fn clone(&self) -> (r: Self)
        ensures
            r == *self,
    {
        match self {
            Input::Press(b) => Input::Press(*b),
            Input::Release(b) => Input::Release(*b),
            Input::Move(m) => Input::Move(*m),
            Input::Text(t) => Input::Text(t.clone()),
            Input::Resize(w, h) => Input::Resize(*w, *h),
            Input::Focus(f) => Input::Focus(*f),
            Input::Cursor(c) => Input::Cursor(*c),
        }
    }
}

/// Accessors for the cases of an `Input`.
pub trait InputTools<S> {
    /// Where the value is a `Press`, the button that went down.
    spec fn press_of(&self) -> Option<Button>;

    /// Where the value is a `Release`, the button that went up.
    spec fn release_of(&self) -> Option<Button>;

    /// Where the value is a `Move`, the motion sample.
    spec fn movement_of(&self) -> Option<Motion<S>>;

    /// Where the value is a `Text`, the characters entered.
    spec fn text_of(&self) -> Option<Seq<char>>;

    /// Where the value is a `Resize`, the new `(width, height)`.
    spec fn resize_of(&self) -> Option<(u32, u32)>;

    /// Where the value is a `Focus`, whether the window gained focus.
    spec fn focus_of(&self) -> Option<bool>;

    /// Where the value is a `Cursor`, whether the window gained the cursor.
    spec fn cursor_of(&self) -> Option<bool>;

    /// The payload of a `Press`; `None` on any other case.
    fn press(&self) -> (r: Option<Button>)
        ensures
            r == self.press_of(),
    ;

    /// The payload of a `Release`; `None` on any other case.
    fn release(&self) -> (r: Option<Button>)
        ensures
            r == self.release_of(),
    ;

    /// The payload of a `Move`; `None` on any other case.
    fn movement(&self) -> (r: Option<Motion<S>>)
        ensures
            r == self.movement_of(),
    ;

    /// The text of a `Text`, borrowed from the value; `None` on any other case.
    fn text(&self) -> (r: Option<&str>)
        ensures
            (r is Some) == (self.text_of() is Some),
            r matches Some(t) ==> self.text_of() == Some(t@),
    ;

    /// The payload of a `Resize`; `None` on any other case.
    fn resize(&self) -> (r: Option<(u32, u32)>)
        ensures
            r == self.resize_of(),
    ;

    /// The payload of a `Focus`; `None` on any other case.
    fn focus(&self) -> (r: Option<bool>)
        ensures
            r == self.focus_of(),
    ;

    /// The payload of a `Cursor`; `None` on any other case.
    fn cursor(&self) -> (r: Option<bool>)
        ensures
            r == self.cursor_of(),
    ;
}

impl<S: Copy> InputTools<S> for Input<S> {
    open spec fn press_of(&self) -> Option<Button> {
        match self {
            Input::Press(b) => Some(*b),
            _ => None,
        }
    }

    open spec fn release_of(&self) -> Option<Button> {
        match self {
            Input::Release(b) => Some(*b),
            _ => None,
        }
    }

    open spec fn movement_of(&self) -> Option<Motion<S>> {
        match self {
            Input::Move(b) => Some(*b),
            _ => None,
        }
    }

    open spec fn text_of(&self) -> Option<Seq<char>> {
        match self {
            Input::Text(t) => Some(t@),
            _ => None,
        }
    }

    open spec fn resize_of(&self) -> Option<(u32, u32)> {
        match self {
            Input::Resize(w, h) => Some((*w, *h)),
            _ => None,
        }
    }

    open spec fn focus_of(&self) -> Option<bool> {
        match self {
            Input::Focus(b) => Some(*b),
            _ => None,
        }
    }

    open spec fn cursor_of(&self) -> Option<bool> {
        match self {
            Input::Cursor(b) => Some(*b),
            _ => None,
        }
    }

    fn press(&self) -> (r: Option<Button>) {
        match self {
            Input::Press(b) => Some(*b),
            _ => None,
        }
    }

    fn release(&self) -> (r: Option<Button>) {
        match self {
            Input::Release(b) => Some(*b),
            _ => None,
        }
    }

    fn movement(&self) -> (r: Option<Motion<S>>) {
        match self {
            Input::Move(b) => Some(*b),
            _ => None,
        }
    }

    fn text(&self) -> (r: Option<&str>) {
        match self {
            Input::Text(t) => Some(t.as_str()),
            _ => None,
        }
    }

    fn resize(&self) -> (r: Option<(u32, u32)>) {
        match self {
            Input::Resize(w, h) => Some((*w, *h)),
            _ => None,
        }
    }

    fn focus(&self) -> (r: Option<bool>) {
        match self {
            Input::Focus(b) => Some(*b),
            _ => None,
        }
    }

    fn cursor(&self) -> (r: Option<bool>) {
        match self {
            Input::Cursor(b) => Some(*b),
            _ => None,
        }
    }
}

impl<S: Copy> InputTools<S> for Option<Input<S>> {
    open spec fn press_of(&self) -> Option<Button> {
        match self {
            Some(i) => i.press_of(),
            None => None,
        }
    }

    open spec fn release_of(&self) -> Option<Button> {
        match self {
            Some(i) => i.release_of(),
            None => None,
        }
    }

    open spec fn movement_of(&self) -> Option<Motion<S>> {
        match self {
            Some(i) => i.movement_of(),
            None => None,
        }
    }

    open spec fn text_of(&self) -> Option<Seq<char>> {
        match self {
            Some(i) => i.text_of(),
            None => None,
        }
    }

    open spec fn resize_of(&self) -> Option<(u32, u32)> {
        match self {
            Some(i) => i.resize_of(),
            None => None,
        }
    }

    open spec fn focus_of(&self) -> Option<bool> {
        match self {
            Some(i) => i.focus_of(),
            None => None,
        }
    }

    open spec fn cursor_of(&self) -> Option<bool> {
        match self {
            Some(i) => i.cursor_of(),
            None => None,
        }
    }

    fn press(&self) -> (r: Option<Button>) {
        match self {
            Some(i) => i.press(),
            None => None,
        }
    }

    fn release(&self) -> (r: Option<Button>) {
        match self {
            Some(i) => i.release(),
            None => None,
        }
    }

    fn movement(&self) -> (r: Option<Motion<S>>) {
        match self {
            Some(i) => i.movement(),
            None => None,
        }
    }

    fn text(&self) -> (r: Option<&str>) {
        match self {
            Some(i) => i.text(),
            None => None,
        }
    }

    fn resize(&self) -> (r: Option<(u32, u32)>) {
        match self {
            Some(i) => i.resize(),
            None => None,
        }
    }

    fn focus(&self) -> (r: Option<bool>) {
        match self {
            Some(i) => i.focus(),
            None => None,
        }
    }

    fn cursor(&self) -> (r: Option<bool>) {
        match self {
            Some(i) => i.cursor(),
            None => None,
        }
    }
}

} // verus!
