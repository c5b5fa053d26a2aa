//! Image button: a push button that displays a bitmap in place of a label.
use vstd::prelude::*;
use crate::control_handle::{ControlHandle, handle_eq};
use crate::control_base::{HwndBuilder, ControlBase, resolve_flags, opt_str_view};
use crate::error::SystemError;
use crate::image_frame::{IMAGE_BITMAP, image_to_send};
use crate::styles::{WS_VISIBLE, WS_DISABLED, WS_CHILD, BS_NOTIFY};

verus! {

/// The button has a flat look
pub const BS_FLAT: u32 = 0x00008000;
/// The button displays a bitmap
pub const BS_BITMAP: u32 = 0x00000080;

/// The image button is immediatly visible after creation
pub const VISIBLE: u32 = WS_VISIBLE;
/// The image button cannot be interacted with by the user
pub const DISABLED: u32 = WS_DISABLED;
/// The image button has a flat look
pub const FLAT: u32 = BS_FLAT;

/// The image button flags: a combination of the constants above.
pub type ImageButtonFlags = u32;

/// What building an image button sets up: the window to create, then its image when one
/// is given, then whether it is enabled
#[derive(Debug)]
pub struct ImageButtonSetup {
    pub window: HwndBuilder,
    pub image: Option<usize>,
    pub enabled: bool,
}

/// A push button that displays an icon or a bitmap
pub struct ImageButton {
    pub handle: ControlHandle,
}

/// Builder of an `ImageButton`
pub struct ImageButtonBuilder {
    pub size: (i32, i32),
    pub position: (i32, i32),
    pub enabled: bool,
    pub image: Option<usize>,
    pub flags: Option<ImageButtonFlags>,
    pub parent: Option<ControlHandle>,
}

impl Default for ImageButton {
    fn default() -> (r: ImageButton)
        ensures
            r.handle == ControlHandle::NoHandle,
    {
        ImageButton { handle: ControlHandle::NoHandle }
    }
}

impl PartialEq for ImageButton {
    fn eq(&self, other: &Self) -> (r: bool) {
        self.handle == other.handle
    }
}

impl vstd::std_specs::cmp::PartialEqSpecImpl for ImageButton {
    open spec fn obeys_eq_spec() -> bool {
        true
    }

    open spec fn eq_spec(&self, other: &ImageButton) -> bool {
        handle_eq(self.handle, other.handle)
    }
}

impl ImageButton {
    pub fn builder() -> (b: ImageButtonBuilder)
        ensures
            b.size == (100i32, 25i32),
            b.position == (0i32, 0i32),
            b.enabled,
            b.flags is None,
            b.parent is None,
            b.image is None,
    {
        ImageButtonBuilder { size: (100, 25), position: (0, 0), enabled: true, flags: None, parent: None, image: None }
    }

    /// The image of the button, from the answer of the control to the window `hwnd` of the
    /// button: none when the control answers null, else an image that holds the window
    /// handle of the button
    pub fn image(&self, hwnd: usize, answer: isize) -> (r: Option<usize>)
        ensures
            r == if answer == 0 { None::<usize> } else { Some(hwnd) },
    {
        if answer == 0 { None } else { Some(hwnd) }
    }

    /// The (kind, bitmap) pair sent to set the image of the button; null removes it
    pub fn set_image(&self, image: Option<usize>) -> (r: (usize, isize))
        ensures
            r == (IMAGE_BITMAP, match image { Some(i) => i as isize, None => 0isize }),
    {
        (IMAGE_BITMAP, image_to_send(image))
    }

    /// Winapi class name used during control creation
    pub fn class_name(&self) -> (r: &'static str)
        ensures
            r@ == "BUTTON"@,
    {
        "BUTTON"
    }

    /// Winapi base flags used during window creation
    pub fn flags(&self) -> (r: u32)
        ensures
            r == WS_VISIBLE,
    {
        WS_VISIBLE
    }

    /// Winapi flags required by the control
    pub fn forced_flags(&self) -> (r: u32)
        ensures
            r == BS_NOTIFY | WS_CHILD | BS_BITMAP,
    {
        BS_NOTIFY | WS_CHILD | BS_BITMAP
    }
}

impl ImageButtonBuilder {
    pub fn flags(self, flags: ImageButtonFlags) -> (b: ImageButtonBuilder)
        ensures
            b == (ImageButtonBuilder { flags: Some(flags), ..self }),
    {
        ImageButtonBuilder { flags: Some(flags), ..self }
    }

    pub fn size(self, size: (i32, i32)) -> (b: ImageButtonBuilder)
        ensures
            b == (ImageButtonBuilder { size: size, ..self }),
    {
        ImageButtonBuilder { size: size, ..self }
    }

    pub fn position(self, pos: (i32, i32)) -> (b: ImageButtonBuilder)
        ensures
            b == (ImageButtonBuilder { position: pos, ..self }),
    {
        ImageButtonBuilder { position: pos, ..self }
    }

    pub fn enabled(self, e: bool) -> (b: ImageButtonBuilder)
        ensures
            b == (ImageButtonBuilder { enabled: e, ..self }),
    {
        ImageButtonBuilder { enabled: e, ..self }
    }

    pub fn parent(self, p: ControlHandle) -> (b: ImageButtonBuilder)
        ensures
            b == (ImageButtonBuilder { parent: Some(p), ..self }),
    {
        ImageButtonBuilder { parent: Some(p), ..self }
    }

    pub fn image(self, i: Option<usize>) -> (b: ImageButtonBuilder)
        ensures
            b == (ImageButtonBuilder { image: i, ..self }),
    {
        ImageButtonBuilder { image: i, ..self }
    }

    /// What building the image button sets up: the window with the chosen flags (or the
    /// default ones); fails without a parent.
    pub fn build(&self, out: &ImageButton) -> (r: Result<ImageButtonSetup, SystemError>)
        ensures
            self.parent is None <==> r is Err,
            self.parent is None ==> r == Err::<ImageButtonSetup, SystemError>(SystemError::ControlWithoutParent),
            r matches Ok(s) ==> {
                &&& opt_str_view(s.window.class_name) == Some("BUTTON"@)
                &&& s.window.forced_flags == BS_NOTIFY | WS_CHILD | BS_BITMAP
                &&& s.window.flags == Some(match self.flags { Some(f) => f, None => WS_VISIBLE })
                &&& s.window.ex_flags is None
                &&& s.window.size == Some(self.size)
                &&& s.window.pos == Some(self.position)
                &&& s.window.text is None
                &&& s.window.parent == (match self.parent.unwrap() { ControlHandle::Hwnd(h) => Some(h), _ => None::<usize> })
                &&& s.image == self.image
                &&& s.enabled == self.enabled
            },
    {
        let flags = resolve_flags(self.flags, out.flags());
        let parent = match self.parent {
            Some(p) => p,
            None => { return Err(SystemError::ControlWithoutParent); },
        };
        let window = ControlBase::build_hwnd()
            .class_name(Some(out.class_name()))
            .forced_flags(out.forced_flags())
            .flags(flags)
            .size(self.size)
            .position(self.position)
            .parent(Some(parent));
        Ok(ImageButtonSetup { window, image: self.image, enabled: self.enabled })
    }
}

} // verus!
