//! Rich label: a read only rich text box that behaves like a label and ignores the
//! mouse and the keyboard.
use vstd::prelude::*;
use crate::control_handle::{ControlHandle, handle_eq};
use crate::control_base::{HwndBuilder, hwnd_params, require_parent, resolve_flags, opt_str_view};
use crate::color::{rgb, rgb_spec};
use crate::error::NwgError;
use crate::styles::{WS_VISIBLE, WS_CHILD, ES_READONLY};

verus! {

/// The rich label is immediatly visible after creation
pub const VISIBLE: u32 = WS_VISIBLE;

/// The rich label flags: a combination of the constants above.
pub type RichLabelFlags = u32;

pub const WM_SETFOCUS: u32 = 0x0007;
pub const WM_MOUSEACTIVATE: u32 = 0x0021;
pub const WM_KEYDOWN: u32 = 0x0100;
pub const WM_KEYUP: u32 = 0x0101;
pub const WM_MOUSEFIRST: u32 = 0x0200;
pub const WM_MOUSELAST: u32 = 0x020E;

/// The messages a rich label swallows: every mouse message, activation by the mouse, the
/// keys and the focus
pub open spec fn swallowed(msg: u32) -> bool {
    (WM_MOUSEFIRST <= msg && msg <= WM_MOUSELAST)
        || msg == WM_MOUSEACTIVATE || msg == WM_KEYUP || msg == WM_KEYDOWN || msg == WM_SETFOCUS
}

/// What building a rich label sets up: the window to create, then the font (the one
/// given, or the default font when `None`)
#[derive(Debug)]
pub struct RichLabelSetup {
    pub window: HwndBuilder,
    pub font: Option<usize>,
}

/// A label that supports rich text
pub struct RichLabel {
    pub handle: ControlHandle,
}

/// Builder of a `RichLabel`
pub struct RichLabelBuilder<'a> {
    pub text: &'a str,
    pub size: (i32, i32),
    pub position: (i32, i32),
    pub flags: Option<RichLabelFlags>,
    pub font: Option<usize>,
    pub parent: Option<ControlHandle>,
}

impl Default for RichLabel {
    fn default() -> (r: RichLabel)
        ensures
            r.handle == ControlHandle::NoHandle,
    {
        RichLabel { handle: ControlHandle::NoHandle }
    }
}

impl PartialEq for RichLabel {
    fn eq(&self, other: &Self) -> (r: bool) {
        self.handle == other.handle
    }
}

impl vstd::std_specs::cmp::PartialEqSpecImpl for RichLabel {
    open spec fn obeys_eq_spec() -> bool {
        true
    }

    open spec fn eq_spec(&self, other: &RichLabel) -> bool {
        handle_eq(self.handle, other.handle)
    }
}

impl RichLabel {
    pub fn builder<'a>() -> (b: RichLabelBuilder<'a>)
        ensures
            b.text@ == "A rich label"@,
            b.size == (130i32, 25i32),
            b.position == (0i32, 0i32),
            b.flags is None,
            b.font is None,
            b.parent is None,
    {
        RichLabelBuilder { text: "A rich label", size: (130, 25), position: (0, 0), flags: None, font: None, parent: None }
    }

    /// The packed color sent to set the background color
    pub fn set_background_color(&self, color: [u8; 3]) -> (r: u32)
        ensures
            r == rgb_spec(color[0], color[1], color[2]),
    {
        rgb(color[0], color[1], color[2])
    }

    /// The answer of the label to the message `msg`: 0 for a swallowed message, none
    /// for the others, which the control handles
    pub fn event_reply(&self, msg: u32) -> (r: Option<isize>)
        ensures
            r == if swallowed(msg) { Some(0isize) } else { None::<isize> },
    {
        if (WM_MOUSEFIRST <= msg && msg <= WM_MOUSELAST) || msg == WM_MOUSEACTIVATE || msg == WM_KEYUP
            || msg == WM_KEYDOWN || msg == WM_SETFOCUS {
            Some(0)
        } else {
            None
        }
    }

    /// Winapi class name used during control creation
    pub fn class_name(&self) -> (r: &'static str)
        ensures
            r@ == "RICHEDIT50W"@,
    {
        "RICHEDIT50W"
    }

    /// Winapi base flags used during window creation
    pub fn flags(&self) -> (r: u32)
        ensures
            r == WS_VISIBLE,
    {
        WS_VISIBLE
    }

    /// Winapi flags required by the control
    pub fn forced_flags(&self) -> (r: u32)
        ensures
            r == ES_READONLY | WS_CHILD,
    {
        ES_READONLY | WS_CHILD
    }
}

impl<'a> RichLabelBuilder<'a> {
    pub fn text(self, text: &'a str) -> (b: RichLabelBuilder<'a>)
        ensures
            b == (RichLabelBuilder { text: text, ..self }),
    {
        RichLabelBuilder { text: text, ..self }
    }

    pub fn size(self, size: (i32, i32)) -> (b: RichLabelBuilder<'a>)
        ensures
            b == (RichLabelBuilder { size: size, ..self }),
    {
        RichLabelBuilder { size: size, ..self }
    }

    pub fn position(self, pos: (i32, i32)) -> (b: RichLabelBuilder<'a>)
        ensures
            b == (RichLabelBuilder { position: pos, ..self }),
    {
        RichLabelBuilder { position: pos, ..self }
    }

    pub fn font(self, font: Option<usize>) -> (b: RichLabelBuilder<'a>)
        ensures
            b == (RichLabelBuilder { font: font, ..self }),
    {
        RichLabelBuilder { font: font, ..self }
    }

    pub fn flags(self, flags: RichLabelFlags) -> (b: RichLabelBuilder<'a>)
        ensures
            b == (RichLabelBuilder { flags: Some(flags), ..self }),
    {
        RichLabelBuilder { flags: Some(flags), ..self }
    }

    pub fn parent(self, p: ControlHandle) -> (b: RichLabelBuilder<'a>)
        ensures
            b == (RichLabelBuilder { parent: Some(p), ..self }),
    {
        RichLabelBuilder { parent: Some(p), ..self }
    }

    /// What building the rich label sets up, with the chosen flags (or the default ones);
    /// fails without a parent, and the parent must be a window. The label then takes the
    /// background color of its parent.
    pub fn build(&self, out: &RichLabel) -> (r: Result<RichLabelSetup, NwgError>)
        requires
            self.parent matches Some(p) ==> p is Hwnd,
        ensures
            self.parent is None <==> r is Err,
            self.parent is None ==> (r matches Err(NwgError::NoParent(s)) && s@ == "RichTextBox"@),
            r matches Ok(s) ==> {
                &&& opt_str_view(s.window.class_name) == Some("RICHEDIT50W"@)
                &&& s.window.forced_flags == ES_READONLY | WS_CHILD
                &&& s.window.flags == Some(match self.flags { Some(f) => f, None => WS_VISIBLE })
                &&& s.window.size == Some(self.size)
                &&& s.window.pos == Some(self.position)
                &&& opt_str_view(s.window.text) == Some(self.text@)
                &&& s.window.parent == Some(self.parent.unwrap()->Hwnd_0)
                &&& s.font == self.font
            },
    {
        let flags = resolve_flags(self.flags, out.flags());
        let parent = match require_parent(self.parent, "RichTextBox") {
            Ok(p) => p,
            Err(e) => { return Err(e); },
        };
        let window = hwnd_params(out.class_name(), out.forced_flags(), flags, 0, self.size, self.position, Some(self.text), parent);
        Ok(RichLabelSetup { window, font: self.font })
    }
}

/// The handle of a control
impl<'a> From<&'a RichLabel> for ControlHandle {
    fn from(control: &'a RichLabel) -> (r: ControlHandle) {
        control.handle
    }
}

impl<'a> vstd::std_specs::convert::FromSpecImpl<&'a RichLabel> for ControlHandle {
    open spec fn obeys_from_spec() -> bool {
        true
    }

    open spec fn from_spec(control: &'a RichLabel) -> ControlHandle {
        control.handle
    }
}

} // verus!
