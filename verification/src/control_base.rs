//! The common description of a control to create, handed to the system by the
//! caller, and the two steps that every control builder shares.
use vstd::prelude::*;
use crate::control_handle::ControlHandle;
use crate::error::NwgError;

verus! {

/// A control's base: its handle
#[derive(Debug, Clone, Copy)]
pub struct ControlBase {
    pub handle: ControlHandle,
}

/// The parameters of a window to create.
#[derive(Debug)]
pub struct HwndBuilder {
    pub class_name: Option<String>,
    pub text: Option<String>,
    pub size: Option<(i32, i32)>,
    pub pos: Option<(i32, i32)>,
    pub forced_flags: u32,
    pub flags: Option<u32>,
    pub ex_flags: Option<u32>,
    pub parent: Option<usize>,
}

/// The parameters of a menu or menu item to create.
#[derive(Debug)]
pub struct HmenuBuilder {
    pub text: Option<String>,
    pub item: bool,
    pub separator: bool,
    pub popup: bool,
    pub parent_menu: Option<usize>,
    pub parent_window: Option<usize>,
}

/// The parameters of a system timer to create.
#[derive(Debug, Clone, Copy)]
pub struct TimerBuilder {
    pub parent: Option<usize>,
    pub interval: u32,
    pub stopped: bool,
}

/// The parameters of a notice to create.
#[derive(Debug, Clone, Copy)]
pub struct NoticeBuilder {
    pub parent: Option<usize>,
}

/// The option of a string slice, as an owned string
pub open spec fn opt_str_view(s: Option<String>) -> Option<Seq<char>> {
    match s {
        Some(v) => Some(v@),
        None => None,
    }
}

impl ControlBase {
    pub fn build_hwnd() -> (b: HwndBuilder)
        ensures
            b.class_name is None,
            b.text is None,
            b.size is None,
            b.pos is None,
            b.forced_flags == 0,
            b.flags is None,
            b.ex_flags is None,
            b.parent is None,
    {
        HwndBuilder {
            class_name: None,
            text: None,
            size: None,
            pos: None,
            forced_flags: 0,
            flags: None,
            ex_flags: None,
            parent: None,
        }
    }

    pub fn build_hmenu() -> (b: HmenuBuilder)
        ensures
            b.text is None,
            !b.item,
            !b.separator,
            !b.popup,
            b.parent_menu is None,
            b.parent_window is None,
    {
        HmenuBuilder { text: None, item: false, separator: false, popup: false, parent_menu: None, parent_window: None }
    }

    pub fn build_timer() -> (b: TimerBuilder)
        ensures
            b.parent is None,
            b.interval == 0,
            !b.stopped,
    {
        TimerBuilder { parent: None, interval: 0, stopped: false }
    }

    pub fn build_notice() -> (b: NoticeBuilder)
        ensures
            b.parent is None,
    {
        NoticeBuilder { parent: None }
    }
}

impl HwndBuilder {
    pub fn class_name(self, name: Option<&str>) -> (b: HwndBuilder)
        ensures
            opt_str_view(b.class_name) == (match name { Some(n) => Some(n@), None => None::<Seq<char>> }),
            b.text == self.text,
            b.size == self.size,
            b.pos == self.pos,
            b.forced_flags == self.forced_flags,
            b.flags == self.flags,
            b.ex_flags == self.ex_flags,
            b.parent == self.parent,
    {
        let class_name = match name {
            Some(v) => Some(v.to_owned()),
            None => None,
        };
        HwndBuilder { class_name, ..self }
    }

    pub fn text(self, text: &str) -> (b: HwndBuilder)
        ensures
            opt_str_view(b.text) == Some(text@),
            b.class_name == self.class_name,
            b.size == self.size,
            b.pos == self.pos,
            b.forced_flags == self.forced_flags,
            b.flags == self.flags,
            b.ex_flags == self.ex_flags,
            b.parent == self.parent,
    {
        HwndBuilder { text: Some(text.to_owned()), ..self }
    }

    pub fn size(self, size: (i32, i32)) -> (b: HwndBuilder)
        ensures
            b == (HwndBuilder { size: Some(size), ..self }),
    {
        HwndBuilder { size: Some(size), ..self }
    }

    pub fn position(self, pos: (i32, i32)) -> (b: HwndBuilder)
        ensures
            b == (HwndBuilder { pos: Some(pos), ..self }),
    {
        HwndBuilder { pos: Some(pos), ..self }
    }

    pub fn flags(self, flags: u32) -> (b: HwndBuilder)
        ensures
            b == (HwndBuilder { flags: Some(flags), ..self }),
    {
        HwndBuilder { flags: Some(flags), ..self }
    }

    pub fn ex_flags(self, flags: u32) -> (b: HwndBuilder)
        ensures
            b == (HwndBuilder { ex_flags: Some(flags), ..self }),
    {
        HwndBuilder { ex_flags: Some(flags), ..self }
    }

    pub fn forced_flags(self, flags: u32) -> (b: HwndBuilder)
        ensures
            b == (HwndBuilder { forced_flags: flags, ..self }),
    {
        HwndBuilder { forced_flags: flags, ..self }
    }

    /// Sets the parent window: the window of a window handle, nothing otherwise
    pub fn parent(self, parent: Option<ControlHandle>) -> (b: HwndBuilder)
        ensures
            b == (HwndBuilder {
                parent: match parent {
                    Some(ControlHandle::Hwnd(h)) => Some(h),
                    _ => None::<usize>,
                },
                ..self
            }),
    {
        let p = match parent {
            Some(p) => p.hwnd(),
            None => None,
        };
        HwndBuilder { parent: p, ..self }
    }
}

impl HmenuBuilder {
    /// Set the text of the Menu
    pub fn text(self, text: &str) -> (b: HmenuBuilder)
        ensures
            opt_str_view(b.text) == Some(text@),
            b.item == self.item,
            b.separator == self.separator,
            b.popup == self.popup,
            b.parent_menu == self.parent_menu,
            b.parent_window == self.parent_window,
    {
        HmenuBuilder { text: Some(text.to_owned()), ..self }
    }

    /// Set if the menu should be an item or a menu
    pub fn item(self, i: bool) -> (b: HmenuBuilder)
        ensures
            b == (HmenuBuilder { item: i, ..self }),
    {
        HmenuBuilder { item: i, ..self }
    }

    /// Set if the menu item should be a separator
    pub fn separator(self, i: bool) -> (b: HmenuBuilder)
        ensures
            b == (HmenuBuilder { separator: i, ..self }),
    {
        HmenuBuilder { separator: i, ..self }
    }

    /// Set if the menu should be a popup menu
    pub fn popup(self, i: bool) -> (b: HmenuBuilder)
        ensures
            b == (HmenuBuilder { popup: i, ..self }),
    {
        HmenuBuilder { popup: i, ..self }
    }

    /// Set the parent of the menu. Can be a window or another menu:
    /// a window becomes the parent window, a menu or popup menu the parent menu,
    /// and any other handle changes nothing.
    pub fn parent(self, parent: ControlHandle) -> (b: HmenuBuilder)
        ensures
            b == (match parent {
                ControlHandle::Hwnd(hwnd) => HmenuBuilder { parent_window: Some(hwnd), ..self },
                ControlHandle::Menu(_, menu) => HmenuBuilder { parent_menu: Some(menu), ..self },
                ControlHandle::PopMenu(_, menu) => HmenuBuilder { parent_menu: Some(menu), ..self },
                _ => self,
            }),
    {
        match parent {
            ControlHandle::Hwnd(hwnd) => HmenuBuilder { parent_window: Some(hwnd), ..self },
            ControlHandle::Menu(_parent, menu) => HmenuBuilder { parent_menu: Some(menu), ..self },
            ControlHandle::PopMenu(_hwnd, menu) => HmenuBuilder { parent_menu: Some(menu), ..self },
            _ => self,
        }
    }
}

impl TimerBuilder {
    pub fn stopped(self, v: bool) -> (b: TimerBuilder)
        ensures
            b == (TimerBuilder { stopped: v, ..self }),
    {
        TimerBuilder { stopped: v, ..self }
    }

    pub fn interval(self, i: u32) -> (b: TimerBuilder)
        ensures
            b == (TimerBuilder { interval: i, ..self }),
    {
        TimerBuilder { interval: i, ..self }
    }

    /// Sets the parent window: the window of the base, if it is a window
    pub fn parent(self, parent: &ControlBase) -> (b: TimerBuilder)
        ensures
            b == (TimerBuilder {
                parent: match parent.handle {
                    ControlHandle::Hwnd(h) => Some(h),
                    _ => None::<usize>,
                },
                ..self
            }),
    {
        TimerBuilder { parent: parent.handle.hwnd(), ..self }
    }
}

impl NoticeBuilder {
    /// Sets the parent window: the window of the base, if it is a window
    pub fn parent(self, parent: &ControlBase) -> (b: NoticeBuilder)
        ensures
            b.parent == (match parent.handle {
                ControlHandle::Hwnd(h) => Some(h),
                _ => None::<usize>,
            }),
    {
        NoticeBuilder { parent: parent.handle.hwnd() }
    }
}

/// The style flags a control is created with: the flags the user chose, or the
/// control's default flags.
pub fn resolve_flags(flags: Option<u32>, default: u32) -> (r: u32)
    ensures
        r == (match flags {
            Some(f) => f,
            None => default,
        }),
{
    match flags {
        Some(f) => f,
        None => default,
    }
}


/// Binds a control's handle to the window the system created for it (`created`): on
/// success the handle names that window; when the system could not create it, the handle
/// is left as it is and the system's error is returned.
pub fn bind_created(handle: &mut ControlHandle, created: Result<usize, NwgError>) -> (r: Result<(), NwgError>)
    ensures
        created matches Ok(h) ==> r is Ok && *final(handle) == ControlHandle::Hwnd(h),
        created matches Err(e) ==> r == Err::<(), NwgError>(e) && *final(handle) == *old(handle),
{
    match created {
        Ok(h) => {
            *handle = ControlHandle::Hwnd(h);
            Ok(())
        },
        Err(e) => Err(e),
    }
}
/// The parent of a control named `name`; a control without a parent is an error.
pub fn require_parent(parent: Option<ControlHandle>, name: &str) -> (r: Result<ControlHandle, NwgError>)
    ensures
        match parent {
            Some(p) => r == Ok::<ControlHandle, NwgError>(p),
            None => r matches Err(NwgError::NoParent(s)) && s@ == name@,
        },
{
    match parent {
        Some(p) => Ok(p),
        None => Err(NwgError::no_parent(name)),
    }
}

/// The parent window of an invisible component (timer, notice, custom event) named
/// `name`: it must be given, and it must be a window.
pub fn require_window_parent(parent: Option<ControlHandle>, name: &str) -> (r: Result<usize, NwgError>)
    ensures
        match parent {
            Some(ControlHandle::Hwnd(h)) => r == Ok::<usize, NwgError>(h),
            Some(_) => r matches Err(NwgError::ControlCreationError(s)) && s@ == "Wrong parent type"@,
            None => r matches Err(NwgError::NoParent(s)) && s@ == name@,
        },
{
    match parent {
        Some(p) => match p.hwnd() {
            Some(handle) => Ok(handle),
            None => Err(NwgError::control_create("Wrong parent type")),
        },
        None => Err(NwgError::no_parent(name)),
    }
}

/// The window creation parameters shared by every window control: class, forced
/// flags, flags, extended flags, size, position, optional text and parent window.
pub fn hwnd_params(
    class_name: &str,
    forced_flags: u32,
    flags: u32,
    ex_flags: u32,
    size: (i32, i32),
    position: (i32, i32),
    text: Option<&str>,
    parent: ControlHandle,
) -> (b: HwndBuilder)
    ensures
        opt_str_view(b.class_name) == Some(class_name@),
        opt_str_view(b.text) == (match text { Some(t) => Some(t@), None => None::<Seq<char>> }),
        b.size == Some(size),
        b.pos == Some(position),
        b.forced_flags == forced_flags,
        b.flags == Some(flags),
        b.ex_flags == Some(ex_flags),
        b.parent == (match parent {
            ControlHandle::Hwnd(h) => Some(h),
            _ => None::<usize>,
        }),
{
    let b = ControlBase::build_hwnd()
        .class_name(Some(class_name))
        .forced_flags(forced_flags)
        .flags(flags)
        .ex_flags(ex_flags)
        .size(size)
        .position(position)
        .parent(Some(parent));
    match text {
        Some(t) => b.text(t),
        None => b,
    }
}

} // verus!
