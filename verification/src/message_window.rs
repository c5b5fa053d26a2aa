//! Message window: a message-only top level window, with no builder parameter.
use vstd::prelude::*;
use crate::control_handle::{ControlHandle, handle_eq};

verus! {

/// A message only top level window.
pub struct MessageWindow {
    pub handle: ControlHandle,
}

/// Builder of a `MessageWindow`: it has no parameter
pub struct MessageWindowBuilder {}

impl Default for MessageWindow {
    fn default() -> (r: MessageWindow)
        ensures
            r.handle == ControlHandle::NoHandle,
    {
        MessageWindow { handle: ControlHandle::NoHandle }
    }
}

impl PartialEq for MessageWindow {
    fn eq(&self, other: &Self) -> (r: bool) {
        self.handle == other.handle
    }
}

impl vstd::std_specs::cmp::PartialEqSpecImpl for MessageWindow {
    open spec fn obeys_eq_spec() -> bool {
        true
    }

    open spec fn eq_spec(&self, other: &MessageWindow) -> bool {
        handle_eq(self.handle, other.handle)
    }
}

impl MessageWindow {
    /// The builder of a message window: it has no parameter
    pub fn builder() -> (b: MessageWindowBuilder)
        ensures
            b == (MessageWindowBuilder {}),
    {
        MessageWindowBuilder {}
    }
}

impl MessageWindowBuilder {
    /// Building resets the window; the system then gives it the handle of the message
    /// window it creates (`created`)
    pub fn build(self, out: &mut MessageWindow, created: usize)
        ensures
            final(out).handle == ControlHandle::Hwnd(created),
    {
        *out = MessageWindow::default();
        out.handle = ControlHandle::Hwnd(created);
    }
}

/// The handle of a control
impl<'a> From<&'a MessageWindow> for ControlHandle {
    fn from(control: &'a MessageWindow) -> (r: ControlHandle) {
        control.handle
    }
}

impl<'a> vstd::std_specs::convert::FromSpecImpl<&'a MessageWindow> for ControlHandle {
    open spec fn obeys_from_spec() -> bool {
        true
    }

    open spec fn from_spec(control: &'a MessageWindow) -> ControlHandle {
        control.handle
    }
}

} // verus!
