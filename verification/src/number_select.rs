//! Number select: a text input with two arrow buttons, laid out inside a container
//! window of the size asked.
use vstd::prelude::*;
use crate::control_handle::{ControlHandle, handle_eq};
use crate::control_base::{HwndBuilder, hwnd_params, require_parent, resolve_flags, opt_str_view};
use crate::error::NwgError;
use crate::label::half_toward_zero;
use crate::styles::{WS_VISIBLE, WS_DISABLED, WS_CHILD, WS_BORDER, WS_CLIPCHILDREN};

verus! {

/// No flags. Equivalent to a invisible blank NumberSelect.
pub const NONE: u32 = 0;
/// The NumberSelect is immediatly visible after creation
pub const VISIBLE: u32 = WS_VISIBLE;
/// The NumberSelect cannot be interacted with by the user. It also has a grayed out look.
pub const DISABLED: u32 = WS_DISABLED;

/// The number select flags: a combination of the constants above.
pub type NumberSelectFlags = u32;

/// Where the parts of a number select go inside its container, as (size, position)
/// pairs: the text input at the origin, then the up and the down buttons on the right
#[derive(Clone, Copy, Debug)]
pub struct NumberSelectLayout {
    pub edit_size: (i32, i32),
    pub up_size: (i32, i32),
    pub up_position: (i32, i32),
    pub down_size: (i32, i32),
    pub down_position: (i32, i32),
}

/// A container of size (`w`, `h`) can be laid out without overflow
pub open spec fn layout_fits(w: i32, h: i32) -> bool {
    w >= i32::MIN + 20
}

/// The layout of a number select whose container has the size (`w`, `h`): the text input
/// leaves 19 pixels on the right, where two buttons 20 pixels wide, each a half of the
/// height and one pixel more, are stacked from one pixel above the top.
pub open spec fn layout_spec(w: i32, h: i32) -> NumberSelectLayout {
    let half = half_toward_zero(h as int);
    NumberSelectLayout {
        edit_size: ((w - 19) as i32, h),
        up_size: (20i32, (half + 1) as i32),
        up_position: ((w - 20) as i32, -1i32),
        down_size: (20i32, (half + 1) as i32),
        down_position: ((w - 20) as i32, (half - 1) as i32),
    }
}

/// The layout of a number select whose container has the size `size`
pub fn number_select_layout(size: (i32, i32)) -> (r: NumberSelectLayout)
    requires
        layout_fits(size.0, size.1),
    ensures
        r == layout_spec(size.0, size.1),
{
    let (w, h) = size;
    let half = h / 2;
    NumberSelectLayout {
        edit_size: (w - 19, h),
        up_size: (20, half + 1),
        up_position: (w - 20, -1),
        down_size: (20, half + 1),
        down_position: (w - 20, half - 1),
    }
}

/// What building a number select sets up: its container window, the layout of its text
/// input and buttons, and the font of the three parts when one is given
#[derive(Debug)]
pub struct NumberSelectSetup {
    pub window: HwndBuilder,
    pub layout: NumberSelectLayout,
    pub font: Option<usize>,
}

/// A number select: its container, its text input and its two buttons
pub struct NumberSelect {
    pub handle: ControlHandle,
    pub edit: ControlHandle,
    pub btn_up: ControlHandle,
    pub btn_down: ControlHandle,
}

/// Builder of a `NumberSelect`
pub struct NumberSelectBuilder {
    pub size: (i32, i32),
    pub position: (i32, i32),
    pub enabled: bool,
    pub flags: Option<NumberSelectFlags>,
    pub font: Option<usize>,
    pub parent: Option<ControlHandle>,
}

impl Default for NumberSelect {
    fn default() -> (r: NumberSelect)
        ensures
            r.handle == ControlHandle::NoHandle,
            r.edit == ControlHandle::NoHandle,
            r.btn_up == ControlHandle::NoHandle,
            r.btn_down == ControlHandle::NoHandle,
    {
        NumberSelect {
            handle: ControlHandle::NoHandle,
            edit: ControlHandle::NoHandle,
            btn_up: ControlHandle::NoHandle,
            btn_down: ControlHandle::NoHandle,
        }
    }
}

impl PartialEq for NumberSelect {
    fn eq(&self, other: &Self) -> (r: bool) {
        self.handle == other.handle
    }
}

impl vstd::std_specs::cmp::PartialEqSpecImpl for NumberSelect {
    open spec fn obeys_eq_spec() -> bool {
        true
    }

    open spec fn eq_spec(&self, other: &NumberSelect) -> bool {
        handle_eq(self.handle, other.handle)
    }
}

impl NumberSelect {
    pub fn builder() -> (b: NumberSelectBuilder)
        ensures
            b.size == (100i32, 25i32),
            b.position == (0i32, 0i32),
            b.enabled,
            b.flags is None,
            b.font is None,
            b.parent is None,
    {
        NumberSelectBuilder { size: (100, 25), position: (0, 0), enabled: true, flags: None, font: None, parent: None }
    }

    /// Winapi class name used during control creation
    pub fn class_name(&self) -> (r: &'static str)
        ensures
            r@ == "NativeWindowsGuiWindow"@,
    {
        "NativeWindowsGuiWindow"
    }

    /// Winapi base flags used during window creation
    pub fn flags(&self) -> (r: u32)
        ensures
            r == WS_VISIBLE,
    {
        WS_VISIBLE
    }

    /// Winapi flags required by the control
    pub fn forced_flags(&self) -> (r: u32)
        ensures
            r == WS_CHILD | WS_BORDER | WS_CLIPCHILDREN,
    {
        WS_CHILD | WS_BORDER | WS_CLIPCHILDREN
    }
}

impl NumberSelectBuilder {
    pub fn flags(self, flags: NumberSelectFlags) -> (b: NumberSelectBuilder)
        ensures
            b == (NumberSelectBuilder { flags: Some(flags), ..self }),
    {
        NumberSelectBuilder { flags: Some(flags), ..self }
    }

    pub fn size(self, size: (i32, i32)) -> (b: NumberSelectBuilder)
        ensures
            b == (NumberSelectBuilder { size: size, ..self }),
    {
        NumberSelectBuilder { size: size, ..self }
    }

    pub fn position(self, pos: (i32, i32)) -> (b: NumberSelectBuilder)
        ensures
            b == (NumberSelectBuilder { position: pos, ..self }),
    {
        NumberSelectBuilder { position: pos, ..self }
    }

    pub fn enabled(self, e: bool) -> (b: NumberSelectBuilder)
        ensures
            b == (NumberSelectBuilder { enabled: e, ..self }),
    {
        NumberSelectBuilder { enabled: e, ..self }
    }

    pub fn font(self, font: Option<usize>) -> (b: NumberSelectBuilder)
        ensures
            b == (NumberSelectBuilder { font: font, ..self }),
    {
        NumberSelectBuilder { font: font, ..self }
    }

    pub fn parent(self, p: ControlHandle) -> (b: NumberSelectBuilder)
        ensures
            b == (NumberSelectBuilder { parent: Some(p), ..self }),
    {
        NumberSelectBuilder { parent: Some(p), ..self }
    }

    /// What building the number select sets up: its container with the chosen flags (or
    /// the default ones), and the layout of its parts; fails without a parent.
    pub fn build(&self, out: &NumberSelect) -> (r: Result<NumberSelectSetup, NwgError>)
        requires
            layout_fits(self.size.0, self.size.1),
        ensures
            self.parent is None <==> r is Err,
            self.parent is None ==> (r matches Err(NwgError::NoParent(s)) && s@ == "NumberSelect"@),
            r matches Ok(s) ==> {
                &&& opt_str_view(s.window.class_name) == Some("NativeWindowsGuiWindow"@)
                &&& s.window.forced_flags == WS_CHILD | WS_BORDER | WS_CLIPCHILDREN
                &&& s.window.flags == Some(match self.flags { Some(f) => f, None => WS_VISIBLE })
                &&& s.window.size == Some(self.size)
                &&& s.window.pos == Some(self.position)
                &&& s.window.parent == (match self.parent.unwrap() { ControlHandle::Hwnd(h) => Some(h), _ => None::<usize> })
                &&& s.layout == layout_spec(self.size.0, self.size.1)
                &&& s.font == self.font
            },
    {
        let flags = resolve_flags(self.flags, out.flags());
        let parent = match require_parent(self.parent, "NumberSelect") {
            Ok(p) => p,
            Err(e) => { return Err(e); },
        };
        let window = hwnd_params(out.class_name(), out.forced_flags(), flags, 0, self.size, self.position, None, parent);
        Ok(NumberSelectSetup { window, layout: number_select_layout(self.size), font: self.font })
    }
}

/// The two buttons of a number select are stacked on the right of its text input: they
/// have the same size, the down button starts two pixels above the end of the up button
/// (they overlap by one pixel at each end of the shared edge), and the text input ends
/// one pixel past the left edge of the buttons.
pub proof fn lemma_layout_buttons_stacked(w: i32, h: i32)
    requires
        layout_fits(w, h),
    ensures
        ({
            let l = layout_spec(w, h);
            &&& l.up_size == l.down_size
            &&& l.down_position.1 == l.up_position.1 + l.up_size.1 - 1
            &&& l.up_position.0 == l.down_position.0
            &&& l.edit_size.0 == l.up_position.0 + 1
        }),
{
}

/// The handle of a control
impl<'a> From<&'a NumberSelect> for ControlHandle {
    fn from(control: &'a NumberSelect) -> (r: ControlHandle) {
        control.handle
    }
}

impl<'a> vstd::std_specs::convert::FromSpecImpl<&'a NumberSelect> for ControlHandle {
    open spec fn obeys_from_spec() -> bool {
        true
    }

    open spec fn from_spec(control: &'a NumberSelect) -> ControlHandle {
        control.handle
    }
}

} // verus!
