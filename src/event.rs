//! Events, and the accessor that picks out the input they carry.
use vstd::prelude::*;

use input::{AfterRenderArgs, IdleArgs, RenderArgs, UpdateArgs};

verus! {

/// An event of an event loop: one of its ticks, or an input of type `I`.
#[derive(PartialEq, Debug)]
pub enum Event<I> {
    /// Render graphics.
    Render(RenderArgs),
    /// Rendering is done and the buffers are swapped.
    AfterRender(AfterRenderArgs),
    /// Update the state of the application.
    Update(UpdateArgs),
    /// Do background work that can be done piecewise.
    Idle(IdleArgs),
    /// An input occurred.
    Input(I),
}

/// The accessor for the `Input` case of an `Event`.
pub trait EventTools<I> {
    /// The input carried, where the value is an `Input` event.
    spec fn input_of(&self) -> Option<I>;

    /// The input of an `Input` event, borrowed from the value; `None` on any
    /// other case.
    fn input(&self) -> (r: Option<&I>)
        ensures
            (r is Some) == (self.input_of() is Some),
            r matches Some(i) ==> self.input_of() == Some(*i),
    ;
}

impl<I> EventTools<I> for Event<I> {
    open spec fn input_of(&self) -> Option<I> {
        match self {
            Event::Input(i) => Some(*i),
            _ => None,
        }
    }

    fn input(&self) -> (r: Option<&I>) {
        match self {
            Event::Input(i) => Some(i),
            _ => None,
        }
    }
}

impl<I> EventTools<I> for Option<Event<I>> {
    open spec fn input_of(&self) -> Option<I> {
        match self {
            Some(e) => e.input_of(),
            None => None,
        }
    }

    fn input(&self) -> (r: Option<&I>) {
        match self {
            Some(e) => e.input(),
            None => None,
        }
    }
}

} // verus!
