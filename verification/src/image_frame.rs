//! Image frame: a control that displays a bitmap and accepts mouse clicks.
use vstd::prelude::*;
use crate::control_handle::{ControlHandle, handle_eq};
use crate::control_base::{HwndBuilder, hwnd_params, require_parent, resolve_flags, opt_str_view};
use crate::color::{rgb, rgb_spec};
use crate::error::NwgError;
use crate::styles::{WS_VISIBLE, WS_DISABLED, WS_CHILD, SS_NOTIFY};

verus! {

/// The image frame is immediatly visible after creation
pub const VISIBLE: u32 = WS_VISIBLE;
/// The image frame cannot be interacted with by the user
pub const DISABLED: u32 = WS_DISABLED;

/// The image frame flags: a combination of the constants above.
pub type ImageFrameFlags = u32;

/// The static control displays a bitmap
pub const SS_BITMAP: u32 = 0x0000000E;
/// The bitmap is centered in the control
pub const SS_CENTERIMAGE: u32 = 0x00000200;
/// The window is painted after the windows below it
pub const WS_EX_TRANSPARENT: u32 = 0x00000020;
/// The kind of image exchanged with the control: a bitmap
pub const IMAGE_BITMAP: usize = 0;

/// The bitmap a control reports, from its answer: none when it is null
pub fn image_from_answer(answer: isize) -> (r: Option<usize>)
    ensures
        r == if answer != 0 { Some(answer as usize) } else { None::<usize> },
{
    if answer != 0 { Some(answer as usize) } else { None }
}

/// What setting the image of a control sends: the bitmap, null for none
pub fn image_to_send(image: Option<usize>) -> (r: isize)
    ensures
        r == (match image { Some(i) => i as isize, None => 0isize }),
{
    match image {
        Some(i) => i as isize,
        None => 0,
    }
}

/// What building an image frame sets up: the window to create, then its image when one
/// is given, then the color of its background (packed) when one is given
#[derive(Debug)]
pub struct ImageFrameSetup {
    pub window: HwndBuilder,
    pub image: Option<usize>,
    pub background: Option<u32>,
}

/// Display a bitmap image in the application
pub struct ImageFrame {
    pub handle: ControlHandle,
}

/// Builder of an `ImageFrame`
pub struct ImageFrameBuilder {
    pub size: (i32, i32),
    pub position: (i32, i32),
    pub flags: Option<ImageFrameFlags>,
    pub image: Option<usize>,
    pub parent: Option<ControlHandle>,
    pub background_color: Option<[u8; 3]>,
}

impl Default for ImageFrame {
    fn default() -> (r: ImageFrame)
        ensures
            r.handle == ControlHandle::NoHandle,
    {
        ImageFrame { handle: ControlHandle::NoHandle }
    }
}

impl PartialEq for ImageFrame {
    fn eq(&self, other: &Self) -> (r: bool) {
        self.handle == other.handle
    }
}

impl vstd::std_specs::cmp::PartialEqSpecImpl for ImageFrame {
    open spec fn obeys_eq_spec() -> bool {
        true
    }

    open spec fn eq_spec(&self, other: &ImageFrame) -> bool {
        handle_eq(self.handle, other.handle)
    }
}

impl ImageFrame {
    pub fn builder() -> (b: ImageFrameBuilder)
        ensures
            b.size == (100i32, 100i32),
            b.position == (0i32, 0i32),
            b.flags is None,
            b.image is None,
            b.parent is None,
            b.background_color is None,
    {
        ImageFrameBuilder { size: (100, 100), position: (0, 0), flags: None, image: None, parent: None, background_color: None }
    }

    /// The image of the frame, from the answer of the control: none when it has none
    pub fn image(&self, answer: isize) -> (r: Option<usize>)
        ensures
            r == if answer != 0 { Some(answer as usize) } else { None::<usize> },
    {
        image_from_answer(answer)
    }

    /// The (kind, bitmap) pair sent to set the image of the frame; null removes it
    pub fn set_image(&self, image: Option<usize>) -> (r: (usize, isize))
        ensures
            r == (IMAGE_BITMAP, match image { Some(i) => i as isize, None => 0isize }),
    {
        (IMAGE_BITMAP, image_to_send(image))
    }

    /// The image that setting a new one replaced, which is then deleted: none when the
    /// control answered null
    pub fn replaced_image(&self, old: isize) -> (r: Option<usize>)
        ensures
            r == if old != 0 { Some(old as usize) } else { None::<usize> },
    {
        image_from_answer(old)
    }

    /// The packed color of the brush that paints the background of the bound control; the
    /// parent then answers the control's requests for a background with that brush
    /// (`background_brush_reply`)
    pub fn hook_background_color(&self, c: [u8; 3]) -> (r: u32)
        requires
            self.handle is Hwnd,
        ensures
            r == rgb_spec(c[0], c[1], c[2]),
    {
        rgb(c[0], c[1], c[2])
    }

    /// Winapi class name used during control creation
    pub fn class_name(&self) -> (r: &'static str)
        ensures
            r@ == "STATIC"@,
    {
        "STATIC"
    }

    /// Winapi base flags used during window creation
    pub fn flags(&self) -> (r: u32)
        ensures
            r == WS_VISIBLE | SS_BITMAP | SS_CENTERIMAGE,
    {
        WS_VISIBLE | SS_BITMAP | SS_CENTERIMAGE
    }

    /// Winapi flags required by the control
    pub fn forced_flags(&self) -> (r: u32)
        ensures
            r == WS_CHILD | SS_NOTIFY,
    {
        WS_CHILD | SS_NOTIFY
    }
}

impl ImageFrameBuilder {
    pub fn flags(self, flags: ImageFrameFlags) -> (b: ImageFrameBuilder)
        ensures
            b == (ImageFrameBuilder { flags: Some(flags), ..self }),
    {
        ImageFrameBuilder { flags: Some(flags), ..self }
    }

    pub fn size(self, size: (i32, i32)) -> (b: ImageFrameBuilder)
        ensures
            b == (ImageFrameBuilder { size: size, ..self }),
    {
        ImageFrameBuilder { size: size, ..self }
    }

    pub fn position(self, pos: (i32, i32)) -> (b: ImageFrameBuilder)
        ensures
            b == (ImageFrameBuilder { position: pos, ..self }),
    {
        ImageFrameBuilder { position: pos, ..self }
    }

    pub fn image(self, image: Option<usize>) -> (b: ImageFrameBuilder)
        ensures
            b == (ImageFrameBuilder { image: image, ..self }),
    {
        ImageFrameBuilder { image: image, ..self }
    }

    pub fn parent(self, p: ControlHandle) -> (b: ImageFrameBuilder)
        ensures
            b == (ImageFrameBuilder { parent: Some(p), ..self }),
    {
        ImageFrameBuilder { parent: Some(p), ..self }
    }

    pub fn background_color(self, color: Option<[u8; 3]>) -> (b: ImageFrameBuilder)
        ensures
            b == (ImageFrameBuilder { background_color: color, ..self }),
    {
        ImageFrameBuilder { background_color: color, ..self }
    }

    /// What building the image frame sets up: a transparent window with the chosen flags
    /// (or the default ones); fails without a parent.
    pub fn build(&self, out: &ImageFrame) -> (r: Result<ImageFrameSetup, NwgError>)
        ensures
            self.parent is None <==> r is Err,
            self.parent is None ==> (r matches Err(NwgError::NoParent(s)) && s@ == "ImageFrame"@),
            r matches Ok(s) ==> {
                &&& opt_str_view(s.window.class_name) == Some("STATIC"@)
                &&& s.window.forced_flags == WS_CHILD | SS_NOTIFY
                &&& s.window.flags == Some(match self.flags { Some(f) => f, None => WS_VISIBLE | SS_BITMAP | SS_CENTERIMAGE })
                &&& s.window.ex_flags == Some(WS_EX_TRANSPARENT)
                &&& s.window.size == Some(self.size)
                &&& s.window.pos == Some(self.position)
                &&& s.window.text is None
                &&& s.window.parent == (match self.parent.unwrap() { ControlHandle::Hwnd(h) => Some(h), _ => None::<usize> })
                &&& s.image == self.image
                &&& s.background == (match self.background_color { Some(c) => Some(rgb_spec(c[0], c[1], c[2])), None => None::<u32> })
            },
    {
        let flags = resolve_flags(self.flags, out.flags());
        let parent = match require_parent(self.parent, "ImageFrame") {
            Ok(p) => p,
            Err(e) => { return Err(e); },
        };
        let window = hwnd_params(out.class_name(), out.forced_flags(), flags, WS_EX_TRANSPARENT, self.size, self.position, None, parent);
        let background = match self.background_color {
            Some(c) => Some(crate::color::rgb(c[0], c[1], c[2])),
            None => None,
        };
        Ok(ImageFrameSetup { window, image: self.image, background })
    }
}

/// The handle of a control
impl<'a> From<&'a ImageFrame> for ControlHandle {
    fn from(control: &'a ImageFrame) -> (r: ControlHandle) {
        control.handle
    }
}

impl<'a> vstd::std_specs::convert::FromSpecImpl<&'a ImageFrame> for ControlHandle {
    open spec fn obeys_from_spec() -> bool {
        true
    }

    open spec fn from_spec(control: &'a ImageFrame) -> ControlHandle {
        control.handle
    }
}

} // verus!
