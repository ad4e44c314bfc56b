//! The leaf types of the event model, taken from the `input` crate.
//!
//! The accessors never look inside these values: they only move them out of
//! the case that carries them. They are declared opaque.
use vstd::prelude::*;

verus! {

/// `input::Key`, a keyboard key code.
#[verifier::external_type_specification]
#[verifier::external_body]
pub struct ExKey(input::Key);

/// `input::MouseButton`, a mouse button.
#[verifier::external_type_specification]
#[verifier::external_body]
pub struct ExMouseButton(input::MouseButton);

/// `input::ControllerButton`, a controller id with a button number.
#[verifier::external_type_specification]
#[verifier::external_body]
pub struct ExControllerButton(input::ControllerButton);

/// `input::ControllerAxisArgs`, a controller id, an axis and its position.
#[verifier::external_type_specification]
#[verifier::external_body]
pub struct ExControllerAxisArgs(input::ControllerAxisArgs);

/// `input::RenderArgs`, the arguments of a render tick.
#[verifier::external_type_specification]
#[verifier::external_body]
pub struct ExRenderArgs(input::RenderArgs);

/// `input::AfterRenderArgs`, the arguments of an after-render tick.
#[verifier::external_type_specification]
#[verifier::external_body]
pub struct ExAfterRenderArgs(input::AfterRenderArgs);

/// `input::UpdateArgs`, the arguments of an update tick.
#[verifier::external_type_specification]
#[verifier::external_body]
pub struct ExUpdateArgs(input::UpdateArgs);

/// `input::IdleArgs`, the arguments of an idle tick.
#[verifier::external_type_specification]
#[verifier::external_body]
pub struct ExIdleArgs(input::IdleArgs);

} // verus!
