//! Status bar: a bar of text at the bottom of its parent window, resized with it.
use vstd::prelude::*;
use crate::control_handle::{ControlHandle, handle_eq, DestroyRequest, destroy_request_of};
use crate::control_base::{HwndBuilder, ControlBase, require_parent, opt_str_view};
use crate::error::NwgError;
use crate::scroll_bar::lo_word;
use crate::label::WM_SIZE;
use crate::styles::{WS_VISIBLE, WS_CHILD};

verus! {

/// What building a status bar sets up: the window to create, then the font (the one
/// given, or the default font when `None`), then the text of its first part
#[derive(Debug)]
pub struct StatusBarSetup {
    pub window: HwndBuilder,
    pub font: Option<usize>,
    pub text: String,
    /// What to release of the control that `out` held before: building resets it to an
    /// empty control
    pub release: DestroyRequest,
}

/// A status bar
pub struct StatusBar {
    pub handle: ControlHandle,
}

/// Builder of a `StatusBar`
pub struct StatusBarBuilder<'a> {
    pub text: &'a str,
    pub font: Option<usize>,
    pub parent: Option<ControlHandle>,
}

impl Default for StatusBar {
    fn default() -> (r: StatusBar)
        ensures
            r.handle == ControlHandle::NoHandle,
    {
        StatusBar { handle: ControlHandle::NoHandle }
    }
}

impl PartialEq for StatusBar {
    fn eq(&self, other: &Self) -> (r: bool) {
        self.handle == other.handle
    }
}

impl vstd::std_specs::cmp::PartialEqSpecImpl for StatusBar {
    open spec fn obeys_eq_spec() -> bool {
        true
    }

    open spec fn eq_spec(&self, other: &StatusBar) -> bool {
        handle_eq(self.handle, other.handle)
    }
}

impl StatusBar {
    pub fn builder<'a>() -> (b: StatusBarBuilder<'a>)
        ensures
            b.text@ == ""@,
            b.font is None,
            b.parent is None,
    {
        proof {
            reveal_strlit("");
        }
        StatusBarBuilder { text: "", font: None, parent: None }
    }

    /// The height sent to set the minimum height of the bar
    pub fn set_min_height(&self, height: u32) -> (r: usize)
        ensures
            r == height as usize,
    {
        height as usize
    }

    /// The size of the buffer the text of a part is read into, from the answer of the
    /// control: the length in its low word, and one more for the terminating null
    pub fn text_buffer_len(&self, answer: isize) -> (r: usize)
        ensures
            r == (answer as u32) % 65536 + 1,
    {
        (lo_word(answer as u32) as usize) + 1
    }

    /// The part index sent to read or set the text of a part
    pub fn part(&self, index: u8) -> (r: usize)
        ensures
            r == index as usize,
    {
        index as usize
    }

    /// Whether a message received by the parent window is passed on to the bar: only a
    /// change of size, so that the bar follows its parent
    pub fn parent_resize_forwards(&self, msg: u32) -> (r: bool)
        ensures
            r == (msg == WM_SIZE),
    {
        msg == WM_SIZE
    }

    /// Winapi class name used during control creation
    pub fn class_name(&self) -> (r: &'static str)
        ensures
            r@ == "msctls_statusbar32"@,
    {
        "msctls_statusbar32"
    }

    /// Winapi base flags used during window creation
    pub fn flags(&self) -> (r: u32)
        ensures
            r == WS_VISIBLE,
    {
        WS_VISIBLE
    }

    /// Winapi flags required by the control
    pub fn forced_flags(&self) -> (r: u32)
        ensures
            r == WS_CHILD,
    {
        WS_CHILD
    }
}

impl<'a> StatusBarBuilder<'a> {
    pub fn text(self, text: &'a str) -> (b: StatusBarBuilder<'a>)
        ensures
            b == (StatusBarBuilder { text: text, ..self }),
    {
        StatusBarBuilder { text, ..self }
    }

    pub fn font(self, font: Option<usize>) -> (b: StatusBarBuilder<'a>)
        ensures
            b == (StatusBarBuilder { font: font, ..self }),
    {
        StatusBarBuilder { font, ..self }
    }

    pub fn parent(self, p: ControlHandle) -> (b: StatusBarBuilder<'a>)
        ensures
            b == (StatusBarBuilder { parent: Some(p), ..self }),
    {
        StatusBarBuilder { parent: Some(p), ..self }
    }

    /// What building the status bar sets up; fails without a parent.
    pub fn build(&self, out: &mut StatusBar) -> (r: Result<StatusBarSetup, NwgError>)
        ensures
            r is Ok ==> final(out).handle == ControlHandle::NoHandle
                && r->Ok_0.release == destroy_request_of(old(out).handle),
            r is Err ==> *final(out) == *old(out),
            self.parent is None <==> r is Err,
            self.parent is None ==> (r matches Err(NwgError::NoParent(s)) && s@ == "StatusBar"@),
            r matches Ok(s) ==> {
                &&& opt_str_view(s.window.class_name) == Some("msctls_statusbar32"@)
                &&& s.window.forced_flags == WS_CHILD
                &&& s.window.flags == Some(WS_VISIBLE)
                &&& s.window.ex_flags is None
                &&& s.window.size is None
                &&& s.window.pos is None
                &&& s.window.text is None
                &&& s.window.parent == (match self.parent.unwrap() { ControlHandle::Hwnd(h) => Some(h), _ => None::<usize> })
                &&& s.font == self.font
                &&& s.text@ == self.text@
            },
    {
        let parent = match require_parent(self.parent, "StatusBar") {
            Ok(p) => p,
            Err(e) => { return Err(e); },
        };
        let window = ControlBase::build_hwnd()
            .class_name(Some(out.class_name()))
            .forced_flags(out.forced_flags())
            .flags(out.flags())
            .parent(Some(parent));
        let release = out.handle.destroy();
        Ok(StatusBarSetup {
            release, window, font: self.font, text: self.text.to_owned() })
    }
}

/// The handle of a control
impl<'a> From<&'a StatusBar> for ControlHandle {
    fn from(control: &'a StatusBar) -> (r: ControlHandle) {
        control.handle
    }
}

impl<'a> vstd::std_specs::convert::FromSpecImpl<&'a StatusBar> for ControlHandle {
    open spec fn obeys_from_spec() -> bool {
        true
    }

    open spec fn from_spec(control: &'a StatusBar) -> ControlHandle {
        control.handle
    }
}

} // verus!
