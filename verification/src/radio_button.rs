//! Radio button: its style flags and its check states.
use vstd::prelude::*;
use crate::color::rgb_spec;
use crate::control_handle::{ControlHandle, handle_eq, DestroyRequest, destroy_request_of};
use crate::control_base::{HwndBuilder, hwnd_params, require_parent, resolve_flags, opt_str_view};
use crate::error::NwgError;
use crate::check_box::{BST_UNCHECKED, BST_CHECKED};
use crate::styles::{WS_VISIBLE, WS_DISABLED, WS_TABSTOP, WS_CHILD, BS_NOTIFY, BS_AUTORADIOBUTTON};

verus! {

/// `WS_GROUP`: the window starts a group of controls
pub const WS_GROUP: u32 = 0x00020000;

/// The radio button is immediatly visible after creation
pub const VISIBLE: u32 = WS_VISIBLE;
/// The radio button cannot be interacted with by the user. It also has a grayed out look.
pub const DISABLED: u32 = WS_DISABLED;
/// The radio button can be selected using tab navigation
pub const TAB_STOP: u32 = WS_TABSTOP;
/// Creates a new radio button group
pub const GROUP: u32 = WS_GROUP;

/// The radio button flags: a combination of the constants above.
pub type RadioButtonFlags = u32;

/// Represents the check status of a radio button
#[derive(Debug, Copy, Clone, PartialEq, Eq, Structural)]
pub enum RadioButtonState {
    Checked,
    Unchecked,
}

/// The button state value of a radio button state
pub open spec fn radio_state_code(s: RadioButtonState) -> usize {
    match s {
        RadioButtonState::Unchecked => BST_UNCHECKED,
        RadioButtonState::Checked => BST_CHECKED,
    }
}

/// A radio button
pub struct RadioButton {
    pub handle: ControlHandle,
}

/// What building a radio button sets up: the window to create, then the font (the one given, or
/// the default font when `None`), the color of its background (packed) when one is given, the
/// focus, and its check state.
#[derive(Debug)]
pub struct RadioButtonSetup {
    pub window: HwndBuilder,
    pub font: Option<usize>,
    pub background: Option<u32>,
    pub focus: bool,
    pub check_state: usize,
    /// What to release of the control that `out` held before: building resets it to an
    /// empty control
    pub release: DestroyRequest,
}

/// Builder of a `RadioButton`
pub struct RadioButtonBuilder<'a> {
    pub text: &'a str,
    pub size: (i32, i32),
    pub position: (i32, i32),
    pub focus: bool,
    pub background_color: Option<[u8; 3]>,
    pub check_state: RadioButtonState,
    pub flags: Option<RadioButtonFlags>,
    pub ex_flags: u32,
    pub font: Option<usize>,
    pub parent: Option<ControlHandle>,
}

impl Default for RadioButton {
    fn default() -> (r: RadioButton)
        ensures
            r.handle == ControlHandle::NoHandle,
    {
        RadioButton { handle: ControlHandle::NoHandle }
    }
}

impl PartialEq for RadioButton {
    fn eq(&self, other: &Self) -> (r: bool) {
        self.handle == other.handle
    }
}

impl vstd::std_specs::cmp::PartialEqSpecImpl for RadioButton {
    open spec fn obeys_eq_spec() -> bool {
        true
    }

    open spec fn eq_spec(&self, other: &RadioButton) -> bool {
        handle_eq(self.handle, other.handle)
    }
}

impl RadioButton {
    /// The packed color of the brush that paints the background of the bound control; the
    /// parent then answers the control's requests for a background with that brush
    /// (`background_brush_reply`)
    pub fn hook_background_color(&self, c: [u8; 3]) -> (r: u32)
        requires
            self.handle is Hwnd,
        ensures
            r == rgb_spec(c[0], c[1], c[2]),
    {
        crate::color::rgb(c[0], c[1], c[2])
    }

    pub fn builder<'a>() -> (b: RadioButtonBuilder<'a>)
        ensures
            b.text@ == "A radio button"@,
            b.size == (100i32, 25i32),
            b.position == (0i32, 0i32),
            !b.focus,
            b.background_color is None,
            b.check_state == RadioButtonState::Unchecked,
            b.flags is None,
            b.ex_flags == 0,
            b.font is None,
            b.parent is None,
    {
        RadioButtonBuilder {
            text: "A radio button",
            size: (100, 25),
            position: (0, 0),
            focus: false,
            background_color: None,
            check_state: RadioButtonState::Unchecked,
            flags: None,
            ex_flags: 0,
            font: None,
            parent: None,
        }
    }

    /// The check state that the control reports as `state`
    pub fn check_state(&self, state: usize) -> (r: RadioButtonState)
        requires
            state <= BST_CHECKED,
        ensures
            radio_state_code(r) == state,
    {
        if state == BST_UNCHECKED { RadioButtonState::Unchecked } else { RadioButtonState::Checked }
    }

    /// The state value sent to the control to set the check state `state`
    pub fn set_check_state(&self, state: RadioButtonState) -> (r: usize)
        ensures
            r == radio_state_code(state),
    {
        match state {
            RadioButtonState::Unchecked => BST_UNCHECKED,
            RadioButtonState::Checked => BST_CHECKED,
        }
    }

    /// Winapi class name used during control creation
    pub fn class_name(&self) -> (r: &'static str)
        ensures
            r@ == "BUTTON"@,
    {
        "BUTTON"
    }

    /// Winapi base flags used during window creation
    pub fn flags(&self) -> (r: u32)
        ensures
            r == WS_VISIBLE,
    {
        WS_VISIBLE
    }

    /// Winapi flags required by the control
    pub fn forced_flags(&self) -> (r: u32)
        ensures
            r == BS_NOTIFY | WS_CHILD | BS_AUTORADIOBUTTON,
    {
        BS_NOTIFY | WS_CHILD | BS_AUTORADIOBUTTON
    }
}

impl<'a> RadioButtonBuilder<'a> {
    pub fn flags(self, flags: RadioButtonFlags) -> (b: RadioButtonBuilder<'a>)
        ensures
            b == (RadioButtonBuilder { flags: Some(flags), ..self }),
    {
        RadioButtonBuilder { flags: Some(flags), ..self }
    }

    pub fn ex_flags(self, flags: u32) -> (b: RadioButtonBuilder<'a>)
        ensures
            b == (RadioButtonBuilder { ex_flags: flags, ..self }),
    {
        RadioButtonBuilder { ex_flags: flags, ..self }
    }

    pub fn text(self, text: &'a str) -> (b: RadioButtonBuilder<'a>)
        ensures
            b == (RadioButtonBuilder { text: text, ..self }),
    {
        RadioButtonBuilder { text: text, ..self }
    }

    pub fn size(self, size: (i32, i32)) -> (b: RadioButtonBuilder<'a>)
        ensures
            b == (RadioButtonBuilder { size: size, ..self }),
    {
        RadioButtonBuilder { size: size, ..self }
    }

    pub fn position(self, pos: (i32, i32)) -> (b: RadioButtonBuilder<'a>)
        ensures
            b == (RadioButtonBuilder { position: pos, ..self }),
    {
        RadioButtonBuilder { position: pos, ..self }
    }

    pub fn focus(self, focus: bool) -> (b: RadioButtonBuilder<'a>)
        ensures
            b == (RadioButtonBuilder { focus: focus, ..self }),
    {
        RadioButtonBuilder { focus: focus, ..self }
    }

    pub fn check_state(self, check: RadioButtonState) -> (b: RadioButtonBuilder<'a>)
        ensures
            b == (RadioButtonBuilder { check_state: check, ..self }),
    {
        RadioButtonBuilder { check_state: check, ..self }
    }

    pub fn background_color(self, color: Option<[u8; 3]>) -> (b: RadioButtonBuilder<'a>)
        ensures
            b == (RadioButtonBuilder { background_color: color, ..self }),
    {
        RadioButtonBuilder { background_color: color, ..self }
    }

    pub fn font(self, font: Option<usize>) -> (b: RadioButtonBuilder<'a>)
        ensures
            b == (RadioButtonBuilder { font: font, ..self }),
    {
        RadioButtonBuilder { font: font, ..self }
    }

    pub fn parent(self, p: ControlHandle) -> (b: RadioButtonBuilder<'a>)
        ensures
            b == (RadioButtonBuilder { parent: Some(p), ..self }),
    {
        RadioButtonBuilder { parent: Some(p), ..self }
    }

    /// The window to create for the control; fails without a parent.
    pub fn build(&self, out: &mut RadioButton) -> (r: Result<RadioButtonSetup, NwgError>)
        ensures
            r is Ok ==> final(out).handle == ControlHandle::NoHandle
                && r->Ok_0.release == destroy_request_of(old(out).handle),
            r is Err ==> *final(out) == *old(out),
            self.parent is None <==> r is Err,
            self.parent is None ==> (r matches Err(NwgError::NoParent(s)) && s@ == "RadioButton"@),
            r matches Ok(s) ==> {
                &&& opt_str_view(s.window.class_name) == Some("BUTTON"@)
                &&& s.window.forced_flags == BS_NOTIFY | WS_CHILD | BS_AUTORADIOBUTTON
                &&& s.window.flags == Some((match self.flags { Some(f) => f, None => WS_VISIBLE }))
                &&& s.window.ex_flags == Some(self.ex_flags)
                &&& s.window.size == Some(self.size)
                &&& s.window.pos == Some(self.position)
                &&& opt_str_view(s.window.text) == Some(self.text@)
                &&& s.window.parent == (match self.parent.unwrap() { ControlHandle::Hwnd(h) => Some(h), _ => None::<usize> })
                &&& s.font == self.font
                &&& s.background == (match self.background_color { Some(c) => Some(rgb_spec(c[0], c[1], c[2])), None => None::<u32> })
                &&& s.focus == self.focus
                &&& s.check_state == radio_state_code(self.check_state)
            },
    {
        let flags = resolve_flags(self.flags, out.flags());
        let parent = match require_parent(self.parent, "RadioButton") {
            Ok(p) => p,
            Err(e) => { return Err(e); },
        };
        let release = out.handle.destroy();
        Ok(RadioButtonSetup {
            release,
            window: hwnd_params(out.class_name(), out.forced_flags(), flags, self.ex_flags, self.size, self.position, Some(self.text), parent),
            font: self.font,
            background: match self.background_color { Some(c) => Some(crate::color::rgb(c[0], c[1], c[2])), None => None },
            focus: self.focus,
            check_state: out.set_check_state(self.check_state),
        })
    }
}

/// Reading back a radio button state gives the state that was set.
pub proof fn lemma_radio_state_round_trip(s: RadioButtonState)
    ensures
        radio_state_code(s) <= BST_CHECKED,
        forall|t: RadioButtonState| radio_state_code(t) == radio_state_code(s) ==> t == s,
{
}

/// The handle of a control
impl<'a> From<&'a RadioButton> for ControlHandle {
    fn from(control: &'a RadioButton) -> (r: ControlHandle) {
        control.handle
    }
}

impl<'a> vstd::std_specs::convert::FromSpecImpl<&'a RadioButton> for ControlHandle {
    open spec fn obeys_from_spec() -> bool {
        true
    }

    open spec fn from_spec(control: &'a RadioButton) -> ControlHandle {
        control.handle
    }
}

} // verus!
