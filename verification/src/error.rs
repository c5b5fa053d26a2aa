//! Errors raised while building controls.
use vstd::prelude::*;

verus! {

/// Errors raised by the control builders.
#[derive(Debug)]
pub enum NwgError {
    /// A control that requires a parent was built without one. Holds the control's name.
    NoParent(String),
    /// The control could not be created. Holds the reason.
    ControlCreationError(String),
}

/// Errors raised by the system side of the older builders.
#[derive(Debug, Clone, Copy, PartialEq, Eq, Structural)]
pub enum SystemError {
    /// A control that requires a parent was built without one.
    ControlWithoutParent,
}

impl NwgError {
    /// The error raised when the control named `name` is built without a parent
    pub fn no_parent(name: &str) -> (e: NwgError)
        ensures
            e matches NwgError::NoParent(s) && s@ == name@,
    {
        NwgError::NoParent(name.to_owned())
    }

    /// A control creation error with the message `msg`
    pub fn control_create(msg: &str) -> (e: NwgError)
        ensures
            e matches NwgError::ControlCreationError(s) && s@ == msg@,
    {
        NwgError::ControlCreationError(msg.to_owned())
    }
}

} // verus!
