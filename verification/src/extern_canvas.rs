//! Extern canvas: a window, or a child control, painted by an outside API; only its
//! window is created here.
use vstd::prelude::*;
use crate::control_handle::{ControlHandle, handle_eq, DestroyRequest, destroy_request_of};
use crate::control_base::{HwndBuilder, ControlBase, resolve_flags, opt_str_view, bind_created};
use crate::error::NwgError;
use crate::image_frame::image_from_answer;
use crate::styles::{WS_VISIBLE, WS_DISABLED, WS_CHILD, WS_CAPTION, WS_SYSMENU, WS_MINIMIZEBOX, WS_MAXIMIZEBOX,
    WS_THICKFRAME, WS_MAXIMIZE, WS_MINIMIZE, WS_CLIPCHILDREN, WS_CLIPSIBLINGS, WS_OVERLAPPEDWINDOW};

verus! {

/// No flags
pub const NONE: u32 = 0;
/// A main window: a caption, a system menu, both boxes and a resizable frame
pub const MAIN_WINDOW: u32 = WS_CAPTION | WS_SYSMENU | WS_MINIMIZEBOX | WS_THICKFRAME | WS_MAXIMIZEBOX;
/// A window with a caption and a system menu
pub const WINDOW: u32 = WS_CAPTION | WS_SYSMENU;
/// The window has a minimize box
pub const MINIMIZE_BOX: u32 = WS_MINIMIZEBOX;
/// The window has a maximize box
pub const MAXIMIZE_BOX: u32 = WS_MAXIMIZEBOX;
/// The window has a system menu
pub const SYS_MENU: u32 = WS_SYSMENU;
/// The canvas is immediatly visible after creation
pub const VISIBLE: u32 = WS_VISIBLE;
/// The canvas cannot be interacted with by the user
pub const DISABLED: u32 = WS_DISABLED;
/// The window starts maximized
pub const MAXIMIZED: u32 = WS_MAXIMIZE;
/// The window starts minimized
pub const MINIMIZED: u32 = WS_MINIMIZE;
/// The window can be resized
pub const RESIZABLE: u32 = WS_THICKFRAME | WS_MAXIMIZEBOX;

/// The extern canvas flags: a combination of the constants above.
pub type ExternCanvasFlags = u32;

/// The bits of a top level window that a child canvas drops
pub open spec fn window_bits() -> u32 {
    WS_CAPTION | WS_SYSMENU | WS_MINIMIZEBOX | WS_THICKFRAME | WS_MAXIMIZEBOX
}

/// The style of a canvas created with `flags`: a canvas with a parent is a child window
/// without the bits of a top level window.
pub open spec fn canvas_style(flags: u32, has_parent: bool) -> u32 {
    if has_parent { (flags & !window_bits()) | WS_CHILD } else { flags }
}

/// What building an extern canvas sets up: the window to create, then its icon when one
/// is given, and what to release of the canvas built before
#[derive(Debug)]
pub struct ExternCanvasSetup {
    pub window: HwndBuilder,
    pub icon: Option<usize>,
    pub release: DestroyRequest,
}

/// A window or child control painted by an outside API
pub struct ExternCanvas {
    pub handle: ControlHandle,
}

/// Builder of an `ExternCanvas`
pub struct ExternCanvasBuilder<'a> {
    pub title: &'a str,
    pub size: (i32, i32),
    pub position: (i32, i32),
    pub flags: Option<ExternCanvasFlags>,
    pub ex_flags: u32,
    pub icon: Option<usize>,
    pub parent: Option<ControlHandle>,
}

impl Default for ExternCanvas {
    fn default() -> (r: ExternCanvas)
        ensures
            r.handle == ControlHandle::NoHandle,
    {
        ExternCanvas { handle: ControlHandle::NoHandle }
    }
}

impl PartialEq for ExternCanvas {
    fn eq(&self, other: &Self) -> (r: bool) {
        self.handle == other.handle
    }
}

impl vstd::std_specs::cmp::PartialEqSpecImpl for ExternCanvas {
    open spec fn obeys_eq_spec() -> bool {
        true
    }

    open spec fn eq_spec(&self, other: &ExternCanvas) -> bool {
        handle_eq(self.handle, other.handle)
    }
}

impl ExternCanvas {
    pub fn builder<'a>() -> (b: ExternCanvasBuilder<'a>)
        ensures
            b.title@ == "New Canvas"@,
            b.size == (500i32, 500i32),
            b.position == (300i32, 300i32),
            b.flags is None,
            b.ex_flags == 0,
            b.icon is None,
            b.parent is None,
    {
        ExternCanvasBuilder {
            title: "New Canvas",
            size: (500, 500),
            position: (300, 300),
            flags: None,
            ex_flags: 0,
            icon: None,
            parent: None,
        }
    }

    /// Binds the canvas to the window the system created for it (`created`): on success
    /// the canvas names that window; when the creation failed, the error is returned and
    /// the canvas is left as it is (empty, after a build).
    pub fn bind(&mut self, created: Result<usize, NwgError>) -> (r: Result<(), NwgError>)
        ensures
            created matches Ok(h) ==> r is Ok && final(self).handle == ControlHandle::Hwnd(h),
            created matches Err(e) ==> r == Err::<(), NwgError>(e) && final(self).handle == old(self).handle,
    {
        bind_created(&mut self.handle, created)
    }

    /// The icon of the canvas, from the answer of the window: none when it is null
    pub fn icon(&self, answer: isize) -> (r: Option<usize>)
        ensures
            r == if answer != 0 { Some(answer as usize) } else { None::<usize> },
    {
        image_from_answer(answer)
    }

    /// The icon sent to set the icon of the canvas; null removes it
    pub fn set_icon(&self, icon: Option<usize>) -> (r: usize)
        ensures
            r == (match icon { Some(i) => i, None => 0usize }),
    {
        match icon {
            Some(i) => i,
            None => 0,
        }
    }

    /// The (window, instance) pair that identifies the canvas to an outside API, given the
    /// instance the window reports: both null when the canvas is not bound to a window
    pub fn raw_window_handle(&self, hinstance: isize) -> (r: (usize, isize))
        ensures
            r == (match self.handle {
                ControlHandle::Hwnd(h) => (h, hinstance),
                _ => (0usize, 0isize),
            }),
    {
        match self.handle {
            ControlHandle::Hwnd(h) => (h, hinstance),
            _ => (0, 0),
        }
    }

    /// Winapi class name used during control creation
    pub fn class_name(&self) -> (r: &'static str)
        ensures
            r@ == "NWG_EXTERN_CANVAS"@,
    {
        "NWG_EXTERN_CANVAS"
    }

    /// Winapi base flags used during window creation
    pub fn flags(&self) -> (r: u32)
        ensures
            r == WS_OVERLAPPEDWINDOW | WS_VISIBLE,
    {
        WS_OVERLAPPEDWINDOW | WS_VISIBLE
    }

    /// Winapi flags required by the control
    pub fn forced_flags(&self) -> (r: u32)
        ensures
            r == WS_CLIPCHILDREN | WS_CLIPSIBLINGS,
    {
        WS_CLIPCHILDREN | WS_CLIPSIBLINGS
    }
}

impl<'a> ExternCanvasBuilder<'a> {
    pub fn flags(self, flags: ExternCanvasFlags) -> (b: ExternCanvasBuilder<'a>)
        ensures
            b == (ExternCanvasBuilder { flags: Some(flags), ..self }),
    {
        ExternCanvasBuilder { flags: Some(flags), ..self }
    }

    pub fn ex_flags(self, flags: u32) -> (b: ExternCanvasBuilder<'a>)
        ensures
            b == (ExternCanvasBuilder { ex_flags: flags, ..self }),
    {
        ExternCanvasBuilder { ex_flags: flags, ..self }
    }

    pub fn title(self, text: &'a str) -> (b: ExternCanvasBuilder<'a>)
        ensures
            b == (ExternCanvasBuilder { title: text, ..self }),
    {
        ExternCanvasBuilder { title: text, ..self }
    }

    pub fn size(self, size: (i32, i32)) -> (b: ExternCanvasBuilder<'a>)
        ensures
            b == (ExternCanvasBuilder { size: size, ..self }),
    {
        ExternCanvasBuilder { size: size, ..self }
    }

    pub fn position(self, pos: (i32, i32)) -> (b: ExternCanvasBuilder<'a>)
        ensures
            b == (ExternCanvasBuilder { position: pos, ..self }),
    {
        ExternCanvasBuilder { position: pos, ..self }
    }

    pub fn icon(self, ico: Option<usize>) -> (b: ExternCanvasBuilder<'a>)
        ensures
            b == (ExternCanvasBuilder { icon: ico, ..self }),
    {
        ExternCanvasBuilder { icon: ico, ..self }
    }

    pub fn parent(self, p: Option<ControlHandle>) -> (b: ExternCanvasBuilder<'a>)
        ensures
            b == (ExternCanvasBuilder { parent: p, ..self }),
    {
        ExternCanvasBuilder { parent: p, ..self }
    }

    /// What building the extern canvas sets up: a top level window without a parent, a
    /// child control with one (see `canvas_style`). `out` is reset to an empty canvas, and
    /// the setup names what to release of the canvas it held; the window the system then
    /// creates is bound with `bind`, and a failed creation leaves `out` empty.
    pub fn build(&self, out: &mut ExternCanvas) -> (r: ExternCanvasSetup)
        ensures
            final(out).handle == ControlHandle::NoHandle,
            r.release == destroy_request_of(old(out).handle),
            opt_str_view(r.window.class_name) == Some("NWG_EXTERN_CANVAS"@),
            r.window.forced_flags == WS_CLIPCHILDREN | WS_CLIPSIBLINGS,
            r.window.flags == Some(canvas_style(
                match self.flags { Some(f) => f, None => WS_OVERLAPPEDWINDOW | WS_VISIBLE },
                self.parent is Some)),
            r.window.ex_flags == Some(self.ex_flags),
            r.window.size == Some(self.size),
            r.window.pos == Some(self.position),
            opt_str_view(r.window.text) == Some(self.title@),
            r.window.parent == (match self.parent { Some(ControlHandle::Hwnd(h)) => Some(h), _ => None::<usize> }),
            r.icon == self.icon,
    {
        let release = out.handle.destroy();
        let mut flags = resolve_flags(self.flags, out.flags());
        if self.parent.is_some() {
            flags = flags & !(WS_CAPTION | WS_SYSMENU | WS_MINIMIZEBOX | WS_THICKFRAME | WS_MAXIMIZEBOX);
            flags = flags | WS_CHILD;
        }
        let window = ControlBase::build_hwnd()
            .class_name(Some(out.class_name()))
            .forced_flags(out.forced_flags())
            .flags(flags)
            .ex_flags(self.ex_flags)
            .size(self.size)
            .position(self.position)
            .text(self.title)
            .parent(self.parent);
        ExternCanvasSetup { window, icon: self.icon, release }
    }
}

/// A canvas with a parent is a child window that has none of the bits of a top level
/// window, and keeps every other bit it was given.
pub proof fn lemma_child_canvas_style(flags: u32)
    ensures
        canvas_style(flags, true) & WS_CHILD == WS_CHILD,
        canvas_style(flags, true) & window_bits() == 0,
        canvas_style(flags, true) & !(window_bits() | WS_CHILD) == flags & !(window_bits() | WS_CHILD),
        canvas_style(flags, false) == flags,
{
    assert(0x00C00000u32 | 0x00080000u32 | 0x00020000u32 | 0x00040000u32 | 0x00010000u32 == 0x00CF0000u32) by (bit_vector);
    assert(((flags & !0x00CF0000u32) | 0x40000000u32) & 0x40000000u32 == 0x40000000u32) by (bit_vector);
    assert(((flags & !0x00CF0000u32) | 0x40000000u32) & 0x00CF0000u32 == 0) by (bit_vector);
    assert(((flags & !0x00CF0000u32) | 0x40000000u32) & !(0x00CF0000u32 | 0x40000000u32)
        == flags & !(0x00CF0000u32 | 0x40000000u32)) by (bit_vector);
}

/// The handle of a control
impl<'a> From<&'a ExternCanvas> for ControlHandle {
    fn from(control: &'a ExternCanvas) -> (r: ControlHandle) {
        control.handle
    }
}

impl<'a> vstd::std_specs::convert::FromSpecImpl<&'a ExternCanvas> for ControlHandle {
    open spec fn obeys_from_spec() -> bool {
        true
    }

    open spec fn from_spec(control: &'a ExternCanvas) -> ControlHandle {
        control.handle
    }
}

} // verus!
