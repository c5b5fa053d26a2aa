//! The inner handle type shared by every control.
//!
//! System handles (`HWND`, `HMENU`) are opaque addresses; here they are
//! carried as `usize`, which is what the library compares and stores.
use vstd::prelude::*;

verus! {

/// Inner handle type used internally by each control.
#[derive(Debug, Clone, Copy)]
pub enum ControlHandle {
    NoHandle,
    Hwnd(usize),
    /// (Parent menu / Menu).
    /// Parent menu must be there as WINAPI does not have any function to fetch the parent
    Menu(usize, usize),
    /// (Parent window / Menu).
    PopMenu(usize, usize),
    /// (Parent menu / Unique ID).
    MenuItem(usize, u32),
    /// Notice control
    Notice(usize, u32),
    /// Timer control
    Timer(usize, u32),
    /// System tray control
    SystemTray(usize),
}

/// What must be released on the system side when a handle is destroyed.
#[derive(Debug, Clone, Copy, PartialEq, Eq, Structural)]
pub enum DestroyRequest {
    /// Nothing to release
    Nothing,
    /// Destroy a window
    Window(usize),
    /// Destroy a menu
    Menu(usize),
    /// Remove an item (parent menu, item id) from its menu
    MenuItem(usize, u32),
}

/// Equality of two handles: the same kind of handle, naming the same object.
/// Menus and popup menus are compared by the menu alone, menu items by their id
/// alone; timers and notices by both their window and their id.
pub open spec fn handle_eq(a: ControlHandle, b: ControlHandle) -> bool {
    match (a, b) {
        (ControlHandle::NoHandle, ControlHandle::NoHandle) => true,
        (ControlHandle::Hwnd(h1), ControlHandle::Hwnd(h2)) => h1 == h2,
        (ControlHandle::Menu(_, m1), ControlHandle::Menu(_, m2)) => m1 == m2,
        (ControlHandle::PopMenu(_, m1), ControlHandle::PopMenu(_, m2)) => m1 == m2,
        (ControlHandle::MenuItem(_, i1), ControlHandle::MenuItem(_, i2)) => i1 == i2,
        (ControlHandle::Timer(h1, i1), ControlHandle::Timer(h2, i2)) => h1 == h2 && i1 == i2,
        (ControlHandle::Notice(h1, i1), ControlHandle::Notice(h2, i2)) => h1 == h2 && i1 == i2,
        (ControlHandle::SystemTray(h1), ControlHandle::SystemTray(h2)) => h1 == h2,
        _ => false,
    }
}

/// The system object that destroying `h` releases.
pub open spec fn destroy_request_of(h: ControlHandle) -> DestroyRequest {
    match h {
        ControlHandle::Hwnd(w) => DestroyRequest::Window(w),
        ControlHandle::Menu(_, m) => DestroyRequest::Menu(m),
        ControlHandle::MenuItem(parent, id) => DestroyRequest::MenuItem(parent, id),
        ControlHandle::PopMenu(_, m) => DestroyRequest::Menu(m),
        _ => DestroyRequest::Nothing,
    }
}

impl ControlHandle {
    /// Destroy the underlying object and set the handle to `NoHandle`.
    /// Can be used to "reset" a UI component. The returned request names the
    /// system object that the caller releases.
    pub fn destroy(&mut self) -> (r: DestroyRequest)
        ensures
            *final(self) == ControlHandle::NoHandle,
            r == destroy_request_of(*old(self)),
    {
        let r = match *self {
            ControlHandle::Hwnd(h) => DestroyRequest::Window(h),
            ControlHandle::Menu(_parent, m) => DestroyRequest::Menu(m),
            ControlHandle::MenuItem(parent, id) => DestroyRequest::MenuItem(parent, id),
            ControlHandle::PopMenu(_parent, m) => DestroyRequest::Menu(m),
            _ => DestroyRequest::Nothing,
        };
        *self = ControlHandle::NoHandle;
        r
    }

    /// True if the handle is not bound to anything
    pub fn blank(&self) -> (r: bool)
        ensures
            r <==> *self is NoHandle,
    {
        match self {
            ControlHandle::NoHandle => true,
            _ => false,
        }
    }

    /// The window handle, if this is a window
    pub fn hwnd(&self) -> (r: Option<usize>)
        ensures
            r == (match *self {
                ControlHandle::Hwnd(h) => Some(h),
                _ => None::<usize>,
            }),
    {
        match self {
            ControlHandle::Hwnd(h) => Some(*h),
            _ => None,
        }
    }

    /// The (parent menu, menu) pair, if this is a menu
    pub fn hmenu(&self) -> (r: Option<(usize, usize)>)
        ensures
            r == (match *self {
                ControlHandle::Menu(h1, h2) => Some((h1, h2)),
                _ => None::<(usize, usize)>,
            }),
    {
        match self {
            ControlHandle::Menu(h1, h2) => Some((*h1, *h2)),
            _ => None,
        }
    }

    /// The (parent window, menu) pair, if this is a popup menu
    pub fn pop_hmenu(&self) -> (r: Option<(usize, usize)>)
        ensures
            r == (match *self {
                ControlHandle::PopMenu(h1, h2) => Some((h1, h2)),
                _ => None::<(usize, usize)>,
            }),
    {
        match self {
            ControlHandle::PopMenu(h1, h2) => Some((*h1, *h2)),
            _ => None,
        }
    }

    /// The (parent menu, item id) pair, if this is a menu item
    pub fn hmenu_item(&self) -> (r: Option<(usize, u32)>)
        ensures
            r == (match *self {
                ControlHandle::MenuItem(h, i) => Some((h, i)),
                _ => None::<(usize, u32)>,
            }),
    {
        match self {
            ControlHandle::MenuItem(h, i) => Some((*h, *i)),
            _ => None,
        }
    }

    /// The (window, timer id) pair, if this is a timer
    pub fn timer(&self) -> (r: Option<(usize, u32)>)
        ensures
            r == (match *self {
                ControlHandle::Timer(h, i) => Some((h, i)),
                _ => None::<(usize, u32)>,
            }),
    {
        match self {
            ControlHandle::Timer(h, i) => Some((*h, *i)),
            _ => None,
        }
    }

    /// The (window, notice id) pair, if this is a notice
    pub fn notice(&self) -> (r: Option<(usize, u32)>)
        ensures
            r == (match *self {
                ControlHandle::Notice(h, i) => Some((h, i)),
                _ => None::<(usize, u32)>,
            }),
    {
        match self {
            ControlHandle::Notice(h, i) => Some((*h, *i)),
            _ => None,
        }
    }

    /// The window of a system tray control
    pub fn tray(&self) -> (r: Option<usize>)
        ensures
            r == (match *self {
                ControlHandle::SystemTray(h) => Some(h),
                _ => None::<usize>,
            }),
    {
        match self {
            ControlHandle::SystemTray(h) => Some(*h),
            _ => None,
        }
    }
}

impl Default for ControlHandle {
    fn default() -> (r: ControlHandle)
        ensures
            r == ControlHandle::NoHandle,
    {
        ControlHandle::NoHandle
    }
}

impl PartialEq for ControlHandle {
    fn eq(&self, other: &Self) -> (r: bool) {
        match (self, other) {
            (ControlHandle::NoHandle, ControlHandle::NoHandle) => true,
            (ControlHandle::Hwnd(h1), ControlHandle::Hwnd(h2)) => *h1 == *h2,
            (ControlHandle::Menu(_, m1), ControlHandle::Menu(_, m2)) => *m1 == *m2,
            (ControlHandle::PopMenu(_, m1), ControlHandle::PopMenu(_, m2)) => *m1 == *m2,
            (ControlHandle::MenuItem(_, i1), ControlHandle::MenuItem(_, i2)) => *i1 == *i2,
            (ControlHandle::Timer(h1, i1), ControlHandle::Timer(h2, i2)) => *h1 == *h2 && *i1 == *i2,
            (ControlHandle::Notice(h1, i1), ControlHandle::Notice(h2, i2)) => *h1 == *h2 && *i1 == *i2,
            (ControlHandle::SystemTray(h1), ControlHandle::SystemTray(h2)) => *h1 == *h2,
            _ => false,
        }
    }
}

impl vstd::std_specs::cmp::PartialEqSpecImpl for ControlHandle {
    open spec fn obeys_eq_spec() -> bool {
        true
    }

    open spec fn eq_spec(&self, other: &ControlHandle) -> bool {
        handle_eq(*self, *other)
    }
}

impl Eq for ControlHandle {}

impl<'a> From<&'a ControlHandle> for ControlHandle {
    fn from(control: &'a ControlHandle) -> (r: ControlHandle) {
        *control
    }
}

impl<'a> vstd::std_specs::convert::FromSpecImpl<&'a ControlHandle> for ControlHandle {
    open spec fn obeys_from_spec() -> bool {
        true
    }

    open spec fn from_spec(v: &'a ControlHandle) -> ControlHandle {
        *v
    }
}

/// Handle equality is an equivalence relation: reflexive, symmetric and transitive,
/// as `Eq` promises.
pub proof fn lemma_handle_eq_equivalence(a: ControlHandle, b: ControlHandle, c: ControlHandle)
    ensures
        handle_eq(a, a),
        handle_eq(a, b) ==> handle_eq(b, a),
        handle_eq(a, b) && handle_eq(b, c) ==> handle_eq(a, c),
{
}

/// A handle equal to `NoHandle` is `NoHandle`: a blank handle never equals a bound one.
pub proof fn lemma_blank_only_equals_blank(a: ControlHandle)
    ensures
        handle_eq(a, ControlHandle::NoHandle) <==> a is NoHandle,
{
}

/// Two menu handles (or two popup menus, or two menu items) that differ only in their
/// parent are equal.
pub proof fn lemma_eq_ignores_menu_parent(p1: usize, p2: usize, m: usize, id: u32)
    ensures
        handle_eq(ControlHandle::Menu(p1, m), ControlHandle::Menu(p2, m)),
        handle_eq(ControlHandle::PopMenu(p1, m), ControlHandle::PopMenu(p2, m)),
        handle_eq(ControlHandle::MenuItem(p1, id), ControlHandle::MenuItem(p2, id)),
{
}

/// Destroying a handle a second time releases nothing: `destroy` leaves the handle blank,
/// and a blank handle names no system object. Only a window, a menu or a menu item is
/// released.
pub proof fn lemma_destroy_idempotent(h: ControlHandle)
    ensures
        destroy_request_of(ControlHandle::NoHandle) == DestroyRequest::Nothing,
        destroy_request_of(h) != DestroyRequest::Nothing ==> (h is Hwnd || h is Menu || h is PopMenu || h is MenuItem),
{
}

} // verus!
