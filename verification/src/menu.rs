//! Menus, menu items and separators: the handles they are bound to.
use vstd::prelude::*;
use crate::control_handle::ControlHandle;

verus! {

/// A windows menu. Can represent a menu in a window menubar or a submenu in another menu
#[derive(Debug)]
pub struct Menu {
    pub handle: ControlHandle,
}

/// A windows menu item. Can be added to a menubar or another menu
#[derive(Debug)]
pub struct MenuItem {
    pub handle: ControlHandle,
}

/// A menu separator. Cannot be added to a menubar
#[derive(Debug)]
pub struct MenuSeparator {
    pub handle: ControlHandle,
}

impl Default for Menu {
    fn default() -> (r: Menu)
        ensures
            r.handle == ControlHandle::NoHandle,
    {
        Menu { handle: ControlHandle::NoHandle }
    }
}

impl Default for MenuItem {
    fn default() -> (r: MenuItem)
        ensures
            r.handle == ControlHandle::NoHandle,
    {
        MenuItem { handle: ControlHandle::NoHandle }
    }
}

impl Default for MenuSeparator {
    fn default() -> (r: MenuSeparator)
        ensures
            r.handle == ControlHandle::NoHandle,
    {
        MenuSeparator { handle: ControlHandle::NoHandle }
    }
}

impl Menu {
    /// The (parent menu, menu) pair whose state is read or set; the menu must be bound
    pub fn target(&self) -> (r: (usize, usize))
        requires
            self.handle is Menu,
        ensures
            r == (self.handle->Menu_0, self.handle->Menu_1),
    {
        match self.handle {
            ControlHandle::Menu(p, m) => (p, m),
            _ => (0, 0),
        }
    }
}

impl MenuItem {
    /// The (parent menu, item id) pair whose state is read or set; the item must be bound
    pub fn target(&self) -> (r: (usize, u32))
        requires
            self.handle is MenuItem,
        ensures
            r == (self.handle->MenuItem_0, self.handle->MenuItem_1),
    {
        match self.handle {
            ControlHandle::MenuItem(p, id) => (p, id),
            _ => (0, 0),
        }
    }
}

/// The handle of a control
impl<'a> From<&'a Menu> for ControlHandle {
    fn from(control: &'a Menu) -> (r: ControlHandle) {
        control.handle
    }
}

impl<'a> vstd::std_specs::convert::FromSpecImpl<&'a Menu> for ControlHandle {
    open spec fn obeys_from_spec() -> bool {
        true
    }

    open spec fn from_spec(control: &'a Menu) -> ControlHandle {
        control.handle
    }
}

/// The handle of a control
impl<'a> From<&'a MenuItem> for ControlHandle {
    fn from(control: &'a MenuItem) -> (r: ControlHandle) {
        control.handle
    }
}

impl<'a> vstd::std_specs::convert::FromSpecImpl<&'a MenuItem> for ControlHandle {
    open spec fn obeys_from_spec() -> bool {
        true
    }

    open spec fn from_spec(control: &'a MenuItem) -> ControlHandle {
        control.handle
    }
}

/// The handle of a control
impl<'a> From<&'a MenuSeparator> for ControlHandle {
    fn from(control: &'a MenuSeparator) -> (r: ControlHandle) {
        control.handle
    }
}

impl<'a> vstd::std_specs::convert::FromSpecImpl<&'a MenuSeparator> for ControlHandle {
    open spec fn obeys_from_spec() -> bool {
        true
    }

    open spec fn from_spec(control: &'a MenuSeparator) -> ControlHandle {
        control.handle
    }
}

} // verus!
