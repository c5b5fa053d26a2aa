//! Tab navigation: a group of window controls, with their parent last, among which the
//! tab key moves.
use vstd::prelude::*;
use crate::control_handle::ControlHandle;

verus! {

/// The message of a key pressed
pub const WM_KEYDOWN: u32 = 0x0100;
/// The tab key
pub const VK_TAB: usize = 0x09;

/// A tab navigation: its id and the controls it moves among
pub struct TabNavigation {
    pub id: usize,
    pub children: Vec<ControlHandle>,
}

/// Builder of a `TabNavigation`
pub struct TabNavigationBuilder {
    pub parent: Option<ControlHandle>,
    pub children: Vec<ControlHandle>,
}

impl TabNavigation {
    pub fn builder() -> (b: TabNavigationBuilder)
        ensures
            b.parent is None,
            b.children@.len() == 0,
    {
        TabNavigationBuilder { parent: None, children: Vec::new() }
    }

    /// The answer of a control of the group to the message `msg` with the value `w`: the
    /// tab key is handled, answered 0; any other message is left to the control
    pub fn key_reply(&self, msg: u32, w: usize) -> (r: Option<isize>)
        ensures
            r == if msg == WM_KEYDOWN && w == VK_TAB { Some(0isize) } else { None::<isize> },
    {
        if msg == WM_KEYDOWN && w == VK_TAB { Some(0) } else { None }
    }
}

impl TabNavigationBuilder {
    /// Sets the parent, which must be a window-like control
    pub fn parent(self, parent: ControlHandle) -> (b: TabNavigationBuilder)
        requires
            parent is Hwnd,
        ensures
            b.parent == Some(parent),
            b.children@ == self.children@,
    {
        TabNavigationBuilder { parent: Some(parent), children: self.children }
    }

    /// Adds a control, which must be a window-like control, at the end of the group
    pub fn push(self, control: ControlHandle) -> (b: TabNavigationBuilder)
        requires
            control is Hwnd,
        ensures
            b.parent == self.parent,
            b.children@ == self.children@.push(control),
    {
        let mut b = self;
        b.children.push(control);
        b
    }

    /// Inserts a control, which must be a window-like control, at `index` in the group
    pub fn insert(self, index: usize, control: ControlHandle) -> (b: TabNavigationBuilder)
        requires
            control is Hwnd,
            index <= self.children@.len(),
        ensures
            b.parent == self.parent,
            b.children@ == self.children@.insert(index as int, control),
    {
        let mut b = self;
        b.children.insert(index, control);
        b
    }

    /// The tab navigation with the id `id`: its controls, then its parent, which must be
    /// set
    pub fn builder(self, id: usize) -> (r: TabNavigation)
        requires
            self.parent is Some,
        ensures
            r.id == id,
            r.children@ == self.children@.push(self.parent.unwrap()),
    {
        let mut children = self.children;
        match self.parent {
            Some(p) => { children.push(p); },
            None => {},
        }
        TabNavigation { id, children }
    }
}

} // verus!
