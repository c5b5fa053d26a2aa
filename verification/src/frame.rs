//! Frame: a rectangle that contains children controls.
use vstd::prelude::*;
use crate::control_handle::{ControlHandle, handle_eq, DestroyRequest, destroy_request_of};
use crate::control_base::{HwndBuilder, hwnd_params, require_parent, resolve_flags, opt_str_view};
use crate::error::NwgError;
use crate::tabs::WS_EX_CONTROLPARENT;
use crate::styles::{WS_VISIBLE, WS_DISABLED, WS_CHILD, WS_BORDER, WS_CLIPCHILDREN};

verus! {

/// No flags
pub const NONE: u32 = 0;
/// The frame is immediatly visible after creation
pub const VISIBLE: u32 = WS_VISIBLE;
/// The frame and its children cannot be interacted with by the user
pub const DISABLED: u32 = WS_DISABLED;
/// The frame has a thin border
pub const BORDER: u32 = WS_BORDER;

/// The frame flags: a combination of the constants above.
pub type FrameFlags = u32;

/// What building a frame sets up: the window to create, then whether it is enabled
#[derive(Debug)]
pub struct FrameSetup {
    pub window: HwndBuilder,
    pub enabled: bool,
    /// What to release of the control that `out` held before: building resets it to an
    /// empty control
    pub release: DestroyRequest,
}

/// A rectangle containing children controls
pub struct Frame {
    pub handle: ControlHandle,
}

/// Builder of a `Frame`
pub struct FrameBuilder {
    pub size: (i32, i32),
    pub position: (i32, i32),
    pub enabled: bool,
    pub flags: Option<FrameFlags>,
    pub ex_flags: u32,
    pub parent: Option<ControlHandle>,
}

impl Default for Frame {
    fn default() -> (r: Frame)
        ensures
            r.handle == ControlHandle::NoHandle,
    {
        Frame { handle: ControlHandle::NoHandle }
    }
}

impl PartialEq for Frame {
    fn eq(&self, other: &Self) -> (r: bool) {
        self.handle == other.handle
    }
}

impl vstd::std_specs::cmp::PartialEqSpecImpl for Frame {
    open spec fn obeys_eq_spec() -> bool {
        true
    }

    open spec fn eq_spec(&self, other: &Frame) -> bool {
        handle_eq(self.handle, other.handle)
    }
}

impl Frame {
    pub fn builder() -> (b: FrameBuilder)
        ensures
            b.size == (100i32, 25i32),
            b.position == (0i32, 0i32),
            b.enabled,
            b.flags is None,
            b.ex_flags == 0,
            b.parent is None,
    {
        FrameBuilder { size: (100, 25), position: (0, 0), enabled: true, flags: None, ex_flags: 0, parent: None }
    }

    /// Winapi class name used during control creation
    pub fn class_name(&self) -> (r: &'static str)
        ensures
            r@ == "NWG_FRAME"@,
    {
        "NWG_FRAME"
    }

    /// Winapi base flags used during window creation
    pub fn flags(&self) -> (r: u32)
        ensures
            r == WS_VISIBLE | WS_BORDER,
    {
        WS_VISIBLE | WS_BORDER
    }

    /// Winapi flags required by the control
    pub fn forced_flags(&self) -> (r: u32)
        ensures
            r == WS_CHILD | WS_CLIPCHILDREN,
    {
        WS_CHILD | WS_CLIPCHILDREN
    }
}

impl FrameBuilder {
    pub fn flags(self, flags: FrameFlags) -> (b: FrameBuilder)
        ensures
            b == (FrameBuilder { flags: Some(flags), ..self }),
    {
        FrameBuilder { flags: Some(flags), ..self }
    }

    pub fn ex_flags(self, flags: u32) -> (b: FrameBuilder)
        ensures
            b == (FrameBuilder { ex_flags: flags, ..self }),
    {
        FrameBuilder { ex_flags: flags, ..self }
    }

    pub fn size(self, size: (i32, i32)) -> (b: FrameBuilder)
        ensures
            b == (FrameBuilder { size: size, ..self }),
    {
        FrameBuilder { size: size, ..self }
    }

    pub fn position(self, pos: (i32, i32)) -> (b: FrameBuilder)
        ensures
            b == (FrameBuilder { position: pos, ..self }),
    {
        FrameBuilder { position: pos, ..self }
    }

    pub fn enabled(self, e: bool) -> (b: FrameBuilder)
        ensures
            b == (FrameBuilder { enabled: e, ..self }),
    {
        FrameBuilder { enabled: e, ..self }
    }

    pub fn parent(self, p: ControlHandle) -> (b: FrameBuilder)
        ensures
            b == (FrameBuilder { parent: Some(p), ..self }),
    {
        FrameBuilder { parent: Some(p), ..self }
    }

    /// What building the frame sets up: a window that holds controls, with the chosen
    /// flags (or the default ones); fails without a parent.
    pub fn build(&self, out: &mut Frame) -> (r: Result<FrameSetup, NwgError>)
        ensures
            r is Ok ==> final(out).handle == ControlHandle::NoHandle
                && r->Ok_0.release == destroy_request_of(old(out).handle),
            r is Err ==> *final(out) == *old(out),
            self.parent is None <==> r is Err,
            self.parent is None ==> (r matches Err(NwgError::NoParent(s)) && s@ == "Frame"@),
            r matches Ok(s) ==> {
                &&& opt_str_view(s.window.class_name) == Some("NWG_FRAME"@)
                &&& s.window.forced_flags == WS_CHILD | WS_CLIPCHILDREN
                &&& s.window.flags == Some(match self.flags { Some(f) => f, None => WS_VISIBLE | WS_BORDER })
                &&& s.window.ex_flags == Some(WS_EX_CONTROLPARENT | self.ex_flags)
                &&& s.window.size == Some(self.size)
                &&& s.window.pos == Some(self.position)
                &&& s.window.text is None
                &&& s.window.parent == (match self.parent.unwrap() { ControlHandle::Hwnd(h) => Some(h), _ => None::<usize> })
                &&& s.enabled == self.enabled
            },
    {
        let flags = resolve_flags(self.flags, out.flags());
        let parent = match require_parent(self.parent, "Frame") {
            Ok(p) => p,
            Err(e) => { return Err(e); },
        };
        let window = hwnd_params(out.class_name(), out.forced_flags(), flags, WS_EX_CONTROLPARENT | self.ex_flags, self.size, self.position, None, parent);
        let release = out.handle.destroy();
        Ok(FrameSetup {
            release, window, enabled: self.enabled })
    }
}

/// The handle of a control
impl<'a> From<&'a Frame> for ControlHandle {
    fn from(control: &'a Frame) -> (r: ControlHandle) {
        control.handle
    }
}

impl<'a> vstd::std_specs::convert::FromSpecImpl<&'a Frame> for ControlHandle {
    open spec fn obeys_from_spec() -> bool {
        true
    }

    open spec fn from_spec(control: &'a Frame) -> ControlHandle {
        control.handle
    }
}

} // verus!
