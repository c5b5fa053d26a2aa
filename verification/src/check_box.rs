//! Check box: its style flags, its check states and how they are encoded in the
//! messages exchanged with the control.
use vstd::prelude::*;
use crate::color::rgb_spec;
use crate::control_handle::{ControlHandle, handle_eq, DestroyRequest, destroy_request_of};
use crate::control_base::{HwndBuilder, hwnd_params, require_parent, resolve_flags, opt_str_view};
use crate::error::NwgError;
use crate::styles::{WS_VISIBLE, WS_DISABLED, WS_TABSTOP, WS_CHILD, BS_AUTO3STATE, BS_AUTOCHECKBOX, BS_PUSHLIKE, BS_NOTIFY};

verus! {

/// No flags. Equivalent to a invisible default checkbox.
pub const NONE: u32 = 0;
/// The checkbox is immediatly visible after creation
pub const VISIBLE: u32 = WS_VISIBLE;
/// The checkbox cannot be interacted with by the user. It also has a grayed out look.
pub const DISABLED: u32 = WS_DISABLED;
/// The checkbox will have a 3rd state
pub const TRISTATE: u32 = BS_AUTO3STATE;
/// The checkbox will look like a regular button
pub const PUSHLIKE: u32 = BS_PUSHLIKE;
/// The control can be selected using tab navigation
pub const TAB_STOP: u32 = WS_TABSTOP;

/// `BST_UNCHECKED`, `BST_CHECKED`, `BST_INDETERMINATE`: the check states of a button
pub const BST_UNCHECKED: usize = 0;
pub const BST_CHECKED: usize = 1;
pub const BST_INDETERMINATE: usize = 2;

/// The check box flags: a combination of the constants of this module.
pub type CheckBoxFlags = u32;

/// Represents the check status of a checkbox
#[derive(Debug, Copy, Clone, PartialEq, Eq, Structural)]
pub enum CheckBoxState {
    Checked,
    Unchecked,
    /// New state for the tristate checkbox
    Indeterminate,
}

/// The button state value of a check state
pub open spec fn state_code(s: CheckBoxState) -> usize {
    match s {
        CheckBoxState::Unchecked => BST_UNCHECKED,
        CheckBoxState::Checked => BST_CHECKED,
        CheckBoxState::Indeterminate => BST_INDETERMINATE,
    }
}

/// The style of a check box created with `flags`: a check box that is not
/// three-state is an automatic two-state check box.
pub open spec fn checkbox_style(flags: u32) -> u32 {
    if flags & BS_AUTO3STATE == 0 { flags | BS_AUTOCHECKBOX } else { flags }
}

/// A check box bound to a window
pub struct CheckBox {
    pub handle: ControlHandle,
}

/// What building a check box sets up: the window to create, then the font (the one given, or
/// the default font when `None`), whether it is enabled, the color of its background (packed)
/// when one is given, the focus, and its check state.
#[derive(Debug)]
pub struct CheckBoxSetup {
    pub window: HwndBuilder,
    pub font: Option<usize>,
    pub enabled: bool,
    pub background: Option<u32>,
    pub focus: bool,
    pub check_state: usize,
    /// What to release of the control that `out` held before: building resets it to an
    /// empty control
    pub release: DestroyRequest,
}

/// Builder of a `CheckBox`
pub struct CheckBoxBuilder<'a> {
    pub text: &'a str,
    pub size: (i32, i32),
    pub position: (i32, i32),
    pub enabled: bool,
    pub focus: bool,
    pub background_color: Option<[u8; 3]>,
    pub check_state: CheckBoxState,
    pub flags: Option<CheckBoxFlags>,
    pub ex_flags: u32,
    pub font: Option<usize>,
    pub parent: Option<ControlHandle>,
}

impl Default for CheckBox {
    fn default() -> (r: CheckBox)
        ensures
            r.handle == ControlHandle::NoHandle,
    {
        CheckBox { handle: ControlHandle::NoHandle }
    }
}

impl PartialEq for CheckBox {
    fn eq(&self, other: &Self) -> (r: bool) {
        self.handle == other.handle
    }
}

impl vstd::std_specs::cmp::PartialEqSpecImpl for CheckBox {
    open spec fn obeys_eq_spec() -> bool {
        true
    }

    open spec fn eq_spec(&self, other: &CheckBox) -> bool {
        handle_eq(self.handle, other.handle)
    }
}

impl CheckBox {
    /// The packed color of the brush that paints the background of the bound control; the
    /// parent then answers the control's requests for a background with that brush
    /// (`background_brush_reply`)
    pub fn hook_background_color(&self, c: [u8; 3]) -> (r: u32)
        requires
            self.handle is Hwnd,
        ensures
            r == rgb_spec(c[0], c[1], c[2]),
    {
        crate::color::rgb(c[0], c[1], c[2])
    }

    pub fn builder<'a>() -> (b: CheckBoxBuilder<'a>)
        ensures
            b.text@ == "A checkbox"@,
            b.size == (100i32, 25i32),
            b.position == (0i32, 0i32),
            b.enabled,
            !b.focus,
            b.background_color is None,
            b.check_state == CheckBoxState::Unchecked,
            b.flags is None,
            b.ex_flags == 0,
            b.font is None,
            b.parent is None,
    {
        CheckBoxBuilder {
            text: "A checkbox",
            size: (100, 25),
            position: (0, 0),
            enabled: true,
            focus: false,
            background_color: None,
            check_state: CheckBoxState::Unchecked,
            flags: None,
            ex_flags: 0,
            font: None,
            parent: None,
        }
    }

    /// True if a check box with the window style `style` has a third state
    pub fn tristate(&self, style: u32) -> (r: bool)
        ensures
            r == (style & BS_AUTO3STATE == BS_AUTO3STATE),
    {
        style & BS_AUTO3STATE == BS_AUTO3STATE
    }

    /// The button style that makes a check box tristate or not
    pub fn set_tristate(&self, tri: bool) -> (style: u32)
        ensures
            style == if tri { BS_AUTO3STATE } else { BS_AUTOCHECKBOX },
    {
        if tri { BS_AUTO3STATE } else { BS_AUTOCHECKBOX }
    }

    /// The check state that the control reports as `state`
    pub fn check_state(&self, state: usize) -> (r: CheckBoxState)
        requires
            state <= BST_INDETERMINATE,
        ensures
            state_code(r) == state,
    {
        match state {
            BST_UNCHECKED => CheckBoxState::Unchecked,
            BST_CHECKED => CheckBoxState::Checked,
            _ => CheckBoxState::Indeterminate,
        }
    }

    /// The state value sent to the control to set the check state `state`
    pub fn set_check_state(&self, state: CheckBoxState) -> (r: usize)
        ensures
            r == state_code(state),
    {
        match state {
            CheckBoxState::Unchecked => BST_UNCHECKED,
            CheckBoxState::Checked => BST_CHECKED,
            CheckBoxState::Indeterminate => BST_INDETERMINATE,
        }
    }

    /// Winapi class name used during control creation
    pub fn class_name(&self) -> (r: &'static str)
        ensures
            r@ == "BUTTON"@,
    {
        "BUTTON"
    }

    /// Winapi base flags used during window creation
    pub fn flags(&self) -> (r: u32)
        ensures
            r == WS_VISIBLE | WS_TABSTOP,
    {
        WS_VISIBLE | WS_TABSTOP
    }

    /// Winapi flags required by the control
    pub fn forced_flags(&self) -> (r: u32)
        ensures
            r == BS_NOTIFY | WS_CHILD,
    {
        BS_NOTIFY | WS_CHILD
    }
}

impl<'a> CheckBoxBuilder<'a> {
    pub fn flags(self, flags: CheckBoxFlags) -> (b: CheckBoxBuilder<'a>)
        ensures
            b == (CheckBoxBuilder { flags: Some(flags), ..self }),
    {
        CheckBoxBuilder { flags: Some(flags), ..self }
    }

    pub fn ex_flags(self, flags: u32) -> (b: CheckBoxBuilder<'a>)
        ensures
            b == (CheckBoxBuilder { ex_flags: flags, ..self }),
    {
        CheckBoxBuilder { ex_flags: flags, ..self }
    }

    pub fn text(self, text: &'a str) -> (b: CheckBoxBuilder<'a>)
        ensures
            b == (CheckBoxBuilder { text, ..self }),
    {
        CheckBoxBuilder { text, ..self }
    }

    pub fn size(self, size: (i32, i32)) -> (b: CheckBoxBuilder<'a>)
        ensures
            b == (CheckBoxBuilder { size, ..self }),
    {
        CheckBoxBuilder { size, ..self }
    }

    pub fn position(self, pos: (i32, i32)) -> (b: CheckBoxBuilder<'a>)
        ensures
            b == (CheckBoxBuilder { position: pos, ..self }),
    {
        CheckBoxBuilder { position: pos, ..self }
    }

    pub fn enabled(self, e: bool) -> (b: CheckBoxBuilder<'a>)
        ensures
            b == (CheckBoxBuilder { enabled: e, ..self }),
    {
        CheckBoxBuilder { enabled: e, ..self }
    }

    pub fn focus(self, focus: bool) -> (b: CheckBoxBuilder<'a>)
        ensures
            b == (CheckBoxBuilder { focus, ..self }),
    {
        CheckBoxBuilder { focus, ..self }
    }

    pub fn check_state(self, check: CheckBoxState) -> (b: CheckBoxBuilder<'a>)
        ensures
            b == (CheckBoxBuilder { check_state: check, ..self }),
    {
        CheckBoxBuilder { check_state: check, ..self }
    }

    pub fn background_color(self, color: Option<[u8; 3]>) -> (b: CheckBoxBuilder<'a>)
        ensures
            b == (CheckBoxBuilder { background_color: color, ..self }),
    {
        CheckBoxBuilder { background_color: color, ..self }
    }

    pub fn font(self, font: Option<usize>) -> (b: CheckBoxBuilder<'a>)
        ensures
            b == (CheckBoxBuilder { font, ..self }),
    {
        CheckBoxBuilder { font, ..self }
    }

    pub fn parent(self, p: ControlHandle) -> (b: CheckBoxBuilder<'a>)
        ensures
            b == (CheckBoxBuilder { parent: Some(p), ..self }),
    {
        CheckBoxBuilder { parent: Some(p), ..self }
    }

    /// The window to create for the check box: the chosen flags (or the default ones)
    /// made into an automatic two-state check box unless three-state; fails without a parent.
    pub fn build(&self, out: &mut CheckBox) -> (r: Result<CheckBoxSetup, NwgError>)
        ensures
            r is Ok ==> final(out).handle == ControlHandle::NoHandle
                && r->Ok_0.release == destroy_request_of(old(out).handle),
            r is Err ==> *final(out) == *old(out),
            self.parent is None <==> r is Err,
            self.parent is None ==> (r matches Err(NwgError::NoParent(s)) && s@ == "CheckBox"@),
            r matches Ok(s) ==> {
                &&& opt_str_view(s.window.class_name) == Some("BUTTON"@)
                &&& s.window.forced_flags == BS_NOTIFY | WS_CHILD
                &&& s.window.flags == Some(checkbox_style(match self.flags { Some(f) => f, None => WS_VISIBLE | WS_TABSTOP }))
                &&& s.window.ex_flags == Some(self.ex_flags)
                &&& s.window.size == Some(self.size)
                &&& s.window.pos == Some(self.position)
                &&& opt_str_view(s.window.text) == Some(self.text@)
                &&& s.window.parent == (match self.parent.unwrap() { ControlHandle::Hwnd(h) => Some(h), _ => None::<usize> })
                &&& s.font == self.font
                &&& s.enabled == self.enabled
                &&& s.background == (match self.background_color { Some(c) => Some(rgb_spec(c[0], c[1], c[2])), None => None::<u32> })
                &&& s.focus == self.focus
                &&& s.check_state == state_code(self.check_state)
            },
    {
        let mut flags = resolve_flags(self.flags, out.flags());
        if flags & BS_AUTO3STATE == 0 {
            flags = flags | BS_AUTOCHECKBOX;
        }
        let parent = match require_parent(self.parent, "CheckBox") {
            Ok(p) => p,
            Err(e) => { return Err(e); },
        };
        let release = out.handle.destroy();
        Ok(CheckBoxSetup {
            release,
            window: hwnd_params(out.class_name(), out.forced_flags(), flags, self.ex_flags, self.size, self.position, Some(self.text), parent),
            font: self.font,
            enabled: self.enabled,
            background: match self.background_color { Some(c) => Some(crate::color::rgb(c[0], c[1], c[2])), None => None },
            focus: self.focus,
            check_state: out.set_check_state(self.check_state),
        })
    }
}

/// Reading back a check state gives the state that was set.
pub proof fn lemma_check_state_round_trip(s: CheckBoxState)
    ensures
        state_code(s) <= BST_INDETERMINATE,
        forall|t: CheckBoxState| state_code(t) == state_code(s) ==> t == s,
{
}

/// A check box built with the three-state flag has a third state; one built with
/// none of its bits is an automatic two-state check box.
pub proof fn lemma_checkbox_style(flags: u32)
    ensures
        (flags & BS_AUTO3STATE == BS_AUTO3STATE) ==> checkbox_style(flags) & BS_AUTO3STATE == BS_AUTO3STATE,
        (flags & BS_AUTO3STATE == 0) ==> {
            &&& checkbox_style(flags) & BS_AUTO3STATE != BS_AUTO3STATE
            &&& checkbox_style(flags) & BS_AUTOCHECKBOX == BS_AUTOCHECKBOX
        },
        checkbox_style(flags) & !(BS_AUTOCHECKBOX) == flags & !(BS_AUTOCHECKBOX),
{
    assert((flags & 6u32 == 6u32) ==> (flags & 6u32 == 0u32 ==> false)) by (bit_vector);
    assert((flags & 6u32 == 0u32) ==> ((flags | 3u32) & 6u32 != 6u32 && (flags | 3u32) & 3u32 == 3u32)) by (bit_vector);
    assert((flags | 3u32) & !3u32 == flags & !3u32) by (bit_vector);
}

/// The handle of a control
impl<'a> From<&'a CheckBox> for ControlHandle {
    fn from(control: &'a CheckBox) -> (r: ControlHandle) {
        control.handle
    }
}

impl<'a> vstd::std_specs::convert::FromSpecImpl<&'a CheckBox> for ControlHandle {
    open spec fn obeys_from_spec() -> bool {
        true
    }

    open spec fn from_spec(control: &'a CheckBox) -> ControlHandle {
        control.handle
    }
}

} // verus!
