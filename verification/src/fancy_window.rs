//! Fancy window: a top level layered window, which supports transparency.
use vstd::prelude::*;
use crate::control_handle::ControlHandle;
use crate::color::rgb_spec;
use crate::image_frame::image_from_answer;
use crate::tooltip::WS_POPUP;
use crate::styles::{WS_VISIBLE, WS_CLIPCHILDREN};

verus! {

/// The window is layered
pub const WS_EX_LAYERED: usize = 0x00080000;
/// Layered window attributes use a color key
pub const LWA_COLORKEY: u32 = 0x00000001;

/// How a layered window is drawn: its color key, its opacity and which of the two is used
#[derive(Clone, Copy, Debug, PartialEq, Eq, Structural)]
pub struct LayeredAttributes {
    pub color_key: u32,
    pub alpha: u8,
    pub flags: u32,
}

/// A top level window that supports transparency
pub struct FancyWindow {
    pub handle: ControlHandle,
}

impl Default for FancyWindow {
    fn default() -> (r: FancyWindow)
        ensures
            r.handle == ControlHandle::NoHandle,
    {
        FancyWindow { handle: ControlHandle::NoHandle }
    }
}

impl FancyWindow {
    /// The extended style that makes the window layered, from its current one, and the
    /// attributes then set: black as color key, opaque
    pub fn init_layered(&self, ex_style: usize) -> (r: (usize, LayeredAttributes))
        ensures
            r.0 == ex_style | WS_EX_LAYERED,
            r.1 == (LayeredAttributes { color_key: rgb_spec(0, 0, 0), alpha: 255, flags: LWA_COLORKEY }),
    {
        let color = crate::color::rgb(0, 0, 0);
        (ex_style | WS_EX_LAYERED, LayeredAttributes { color_key: color, alpha: 255, flags: LWA_COLORKEY })
    }

    /// The icon of the window, from the answer of the window: none when it is null
    pub fn icon(&self, answer: isize) -> (r: Option<usize>)
        ensures
            r == if answer != 0 { Some(answer as usize) } else { None::<usize> },
    {
        image_from_answer(answer)
    }

    /// The icon sent to set the icon of the window; null removes it
    pub fn set_icon(&self, icon: Option<usize>) -> (r: usize)
        ensures
            r == (match icon { Some(i) => i, None => 0usize }),
    {
        match icon {
            Some(i) => i,
            None => 0,
        }
    }

    /// Winapi class name used during control creation
    pub fn class_name(&self) -> (r: &'static str)
        ensures
            r@ == "NativeWindowsGuiWindow"@,
    {
        "NativeWindowsGuiWindow"
    }

    /// Winapi base flags used during window creation
    pub fn flags(&self) -> (r: u32)
        ensures
            r == WS_VISIBLE | WS_POPUP,
    {
        WS_VISIBLE | WS_POPUP
    }

    /// Winapi flags required by the control
    pub fn forced_flags(&self) -> (r: u32)
        ensures
            r == WS_CLIPCHILDREN,
    {
        WS_CLIPCHILDREN
    }
}

} // verus!
