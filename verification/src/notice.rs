//! Notice: an invisible component that another thread triggers to wake up the GUI
//! thread, bound to a window and an id.
use vstd::prelude::*;
use crate::control_handle::{ControlHandle, handle_eq};
use crate::control_base::require_window_parent;
use crate::error::NwgError;

verus! {

/// A notice: its handle names its window and its id
pub struct Notice {
    pub handle: ControlHandle,
}

/// What a thread keeps to trigger a notice: its window and its id
#[derive(Clone, Copy, Debug, PartialEq, Eq, Structural)]
pub struct NoticeSender {
    pub hwnd: usize,
    pub id: u32,
}

/// Builder of a `Notice`
pub struct NoticeBuilder {
    pub parent: Option<ControlHandle>,
}

impl Default for Notice {
    fn default() -> (r: Notice)
        ensures
            r.handle == ControlHandle::NoHandle,
    {
        Notice { handle: ControlHandle::NoHandle }
    }
}

impl PartialEq for Notice {
    fn eq(&self, other: &Self) -> (r: bool) {
        self.handle == other.handle
    }
}

impl vstd::std_specs::cmp::PartialEqSpecImpl for Notice {
    open spec fn obeys_eq_spec() -> bool {
        true
    }

    open spec fn eq_spec(&self, other: &Notice) -> bool {
        handle_eq(self.handle, other.handle)
    }
}

impl Notice {
    pub fn builder() -> (b: NoticeBuilder)
        ensures
            b.parent is None,
    {
        NoticeBuilder { parent: None }
    }

    /// Whether the notice can be used: it is bound, and its window is still alive
    /// (`window_alive`, as the system reports it)
    pub fn valid(&self, window_alive: bool) -> (r: bool)
        requires
            self.handle is NoHandle || self.handle is Notice,
        ensures
            r == (self.handle is Notice && window_alive),
    {
        match self.handle {
            ControlHandle::Notice(_, _) => window_alive,
            _ => false,
        }
    }

    /// The window of the notice, when the notice can be used
    pub fn window_handle(&self, window_alive: bool) -> (r: Option<ControlHandle>)
        requires
            self.handle is NoHandle || self.handle is Notice,
        ensures
            r is Some <==> (self.handle is Notice && window_alive),
            r matches Some(h) ==> h == ControlHandle::Hwnd(self.handle->Notice_0),
    {
        match self.handle {
            ControlHandle::Notice(hwnd, _) => if window_alive { Some(ControlHandle::Hwnd(hwnd)) } else { None },
            _ => None,
        }
    }

    /// Bind the notice to another window, keeping its id
    pub fn set_window_handle(&mut self, window: ControlHandle)
        requires
            old(self).handle is Notice,
            window is Hwnd,
        ensures
            final(self).handle == ControlHandle::Notice(window->Hwnd_0, old(self).handle->Notice_1),
    {
        let hwnd = match window {
            ControlHandle::Hwnd(h) => h,
            _ => 0,
        };
        let id = match self.handle {
            ControlHandle::Notice(_, id) => id,
            _ => 0,
        };
        self.handle = ControlHandle::Notice(hwnd, id);
    }

    /// What a thread keeps to trigger the notice, which must be bound to a live window
    pub fn sender(&self, window_alive: bool) -> (r: NoticeSender)
        requires
            self.handle is Notice,
            window_alive,
        ensures
            r == (NoticeSender { hwnd: self.handle->Notice_0, id: self.handle->Notice_1 }),
    {
        match self.handle {
            ControlHandle::Notice(hwnd, id) => NoticeSender { hwnd, id },
            _ => NoticeSender { hwnd: 0, id: 0 },
        }
    }
}

impl NoticeSender {
    /// The (window, id, window) triple sent to trigger the notice
    pub fn notice(&self) -> (r: (usize, usize, usize))
        ensures
            r == (self.hwnd, self.id as usize, self.hwnd),
    {
        (self.hwnd, self.id as usize, self.hwnd)
    }
}

impl NoticeBuilder {
    pub fn parent(self, p: ControlHandle) -> (b: NoticeBuilder)
        ensures
            b.parent == Some(p),
    {
        NoticeBuilder { parent: Some(p) }
    }

    /// The window the notice is created on: the parent, which must be a window
    pub fn build(self, out: &Notice) -> (r: Result<usize, NwgError>)
        ensures
            match self.parent {
                Some(ControlHandle::Hwnd(h)) => r == Ok::<usize, NwgError>(h),
                Some(_) => r matches Err(NwgError::ControlCreationError(s)) && s@ == "Wrong parent type"@,
                None => r matches Err(NwgError::NoParent(s)) && s@ == "Notice"@,
            },
    {
        require_window_parent(self.parent, "Notice")
    }
}

/// The handle of a control
impl<'a> From<&'a Notice> for ControlHandle {
    fn from(control: &'a Notice) -> (r: ControlHandle) {
        control.handle
    }
}

impl<'a> vstd::std_specs::convert::FromSpecImpl<&'a Notice> for ControlHandle {
    open spec fn obeys_from_spec() -> bool {
        true
    }

    open spec fn from_spec(control: &'a Notice) -> ControlHandle {
        control.handle
    }
}

} // verus!
