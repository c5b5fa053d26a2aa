//! Canvas drawing: the Direct2D codes of the stroke, gradient and text options, and what
//! the end of a drawing pass answers.
use vstd::prelude::*;
use crate::control_handle::{ControlHandle, handle_eq};
use crate::control_base::{HwndBuilder, ControlBase, resolve_flags, opt_str_view};
use crate::error::SystemError;
use crate::styles::{WS_VISIBLE, WS_DISABLED, WS_CHILD};

verus! {

/// Success
pub const S_OK: i32 = 0;
/// The render target must be created again (`0x8899000C`)
pub const D2DERR_RECREATE_TARGET: i32 = -2003238900;
/// Objects were not all created from the same factory (`0x88990012`)
pub const D2DERR_WRONG_FACTORY: i32 = -2003238894;

/// Describes the shape at the end of a line or segment.
#[derive(Copy, Clone, Debug, PartialEq, Eq, Structural)]
pub enum CapStyle {
    Flat,
    Square,
    Round,
    Triangle,
}

/// Describes the shape that joins two lines or segments.
#[derive(Copy, Clone, Debug, PartialEq, Eq, Structural)]
pub enum LineJoin {
    Miter,
    Bevel,
    Round,
    MiterOrBevel,
}

/// Describes the sequence of dashes and gaps in a stroke.
#[derive(Copy, Clone, Debug, PartialEq, Eq, Structural)]
pub enum DashStyle {
    Solid,
    Dash,
    Dot,
    DashDot,
    DashDotDot,
    Custom,
}

/// Specifies which gamma is used for interpolation.
#[allow(non_camel_case_types)]
#[derive(Copy, Clone, Debug, PartialEq, Eq, Structural)]
pub enum Gamma {
    _2_2,
    _1_0,
}

/// Specifies how a brush paints areas outside of its normal content area.
#[derive(Copy, Clone, Debug, PartialEq, Eq, Structural)]
pub enum ExtendMode {
    Clamp,
    Wrap,
    Mirror,
}

/// Specifies how glyph metrics are used to measure text.
#[derive(Copy, Clone, Debug, PartialEq, Eq, Structural)]
pub enum MeasuringMode {
    Natural,
    GdiClassic,
    GdiNatural,
}

/// Text is not vertically snapped to pixel boundaries.
pub const NO_SNAP: u32 = 0x00000001;
/// Text is clipped to the layout rectangle.
pub const CLIP: u32 = 0x00000002;
/// Text is rendered using color versions of glyphs, if defined by the font.
pub const ENABLE_COLOR_FONT: u32 = 0x00000004;
/// Text is vertically snapped and not clipped.
pub const OPTIONS_NONE: u32 = 0x00000000;

/// The options of a text drawing: a combination of the constants above.
pub type DrawTextOptions = u32;

/// Errors that can be returned when drawing to a canvas
#[derive(Copy, Clone, Debug, PartialEq, Eq, Structural)]
pub enum CanvasError {
    /// A presentation error has occurred that may be recoverable: the render target must be
    /// created again and the frame drawn again.
    RecreateTarget,
    /// Objects used together were not all created from the same factory instance.
    WrongFactory,
    /// Other errors, with their code
    Other(i32),
}

/// The Direct2D code of a cap style
pub open spec fn cap_code(c: CapStyle) -> u32 {
    match c {
        CapStyle::Flat => 0,
        CapStyle::Square => 1,
        CapStyle::Round => 2,
        CapStyle::Triangle => 3,
    }
}

/// The Direct2D code of a line join
pub open spec fn join_code(j: LineJoin) -> u32 {
    match j {
        LineJoin::Miter => 0,
        LineJoin::Bevel => 1,
        LineJoin::Round => 2,
        LineJoin::MiterOrBevel => 3,
    }
}

/// The Direct2D code of a dash style
pub open spec fn dash_code(d: DashStyle) -> u32 {
    match d {
        DashStyle::Solid => 0,
        DashStyle::Dash => 1,
        DashStyle::Dot => 2,
        DashStyle::DashDot => 3,
        DashStyle::DashDotDot => 4,
        DashStyle::Custom => 5,
    }
}

impl CapStyle {
    /// The Direct2D code of the cap style
    pub fn code(&self) -> (r: u32)
        ensures
            r == cap_code(*self),
    {
        match self {
            CapStyle::Flat => 0,
            CapStyle::Square => 1,
            CapStyle::Round => 2,
            CapStyle::Triangle => 3,
        }
    }
}

impl LineJoin {
    /// The Direct2D code of the line join
    pub fn code(&self) -> (r: u32)
        ensures
            r == join_code(*self),
    {
        match self {
            LineJoin::Miter => 0,
            LineJoin::Bevel => 1,
            LineJoin::Round => 2,
            LineJoin::MiterOrBevel => 3,
        }
    }
}

impl DashStyle {
    /// The Direct2D code of the dash style
    pub fn code(&self) -> (r: u32)
        ensures
            r == dash_code(*self),
    {
        match self {
            DashStyle::Solid => 0,
            DashStyle::Dash => 1,
            DashStyle::Dot => 2,
            DashStyle::DashDot => 3,
            DashStyle::DashDotDot => 4,
            DashStyle::Custom => 5,
        }
    }
}

/// The shapes of a stroke, without its miter limit and dash offset (which are floating
/// point values that the caller passes on as they are)
#[derive(Copy, Clone, Debug)]
pub struct StrokeStyleProperties {
    pub start_cap: CapStyle,
    pub end_cap: CapStyle,
    pub dash_cap: CapStyle,
    pub line_join: LineJoin,
    pub dash_style: DashStyle,
}

/// The Direct2D codes sent to create a stroke style
#[derive(Copy, Clone, Debug, PartialEq, Eq, Structural)]
pub struct StrokeStyleCodes {
    pub start_cap: u32,
    pub end_cap: u32,
    pub dash_cap: u32,
    pub line_join: u32,
    pub dash_style: u32,
}

/// A stroke style: the codes it was created with and the handle of the Direct2D object
pub struct StrokeStyle {
    pub codes: StrokeStyleCodes,
    pub handle: usize,
}

impl StrokeStyle {
    /// The codes sent to create a stroke style from `prop`: each cap, the join and the
    /// dash style by its own property
    pub fn new(prop: &StrokeStyleProperties) -> (r: StrokeStyleCodes)
        ensures
            r.start_cap == cap_code(prop.start_cap),
            r.end_cap == cap_code(prop.end_cap),
            r.dash_cap == cap_code(prop.dash_cap),
            r.line_join == join_code(prop.line_join),
            r.dash_style == dash_code(prop.dash_style),
    {
        StrokeStyleCodes {
            start_cap: prop.start_cap.code(),
            end_cap: prop.end_cap.code(),
            dash_cap: prop.dash_cap.code(),
            line_join: prop.line_join.code(),
            dash_style: prop.dash_style.code(),
        }
    }

    /// The properties of a stroke style made only from a dash style: flat caps and a
    /// miter join
    pub fn from_style(style: DashStyle) -> (r: StrokeStyleProperties)
        ensures
            r.start_cap == CapStyle::Flat,
            r.end_cap == CapStyle::Flat,
            r.dash_cap == CapStyle::Flat,
            r.line_join == LineJoin::Miter,
            r.dash_style == style,
    {
        StrokeStyleProperties {
            start_cap: CapStyle::Flat,
            end_cap: CapStyle::Flat,
            dash_cap: CapStyle::Flat,
            line_join: LineJoin::Miter,
            dash_style: style,
        }
    }

    /// Whether the stroke style is bound to a Direct2D object
    pub fn is_null(&self) -> (r: bool)
        ensures
            r == (self.handle == 0),
    {
        self.handle == 0
    }
}

impl Gamma {
    /// The Direct2D code of the gamma
    pub fn code(&self) -> (r: u32)
        ensures
            r == (match *self { Gamma::_2_2 => 0u32, Gamma::_1_0 => 1u32 }),
    {
        match self {
            Gamma::_2_2 => 0,
            Gamma::_1_0 => 1,
        }
    }

    /// The gamma of a Direct2D code: 1.0 for its code, 2.2 for any other
    pub fn from_code(code: u32) -> (r: Gamma)
        ensures
            r == (if code == 1 { Gamma::_1_0 } else { Gamma::_2_2 }),
    {
        if code == 1 { Gamma::_1_0 } else { Gamma::_2_2 }
    }
}

impl ExtendMode {
    /// The Direct2D code of the extend mode
    pub fn code(&self) -> (r: u32)
        ensures
            r == (match *self { ExtendMode::Clamp => 0u32, ExtendMode::Wrap => 1u32, ExtendMode::Mirror => 2u32 }),
    {
        match self {
            ExtendMode::Clamp => 0,
            ExtendMode::Wrap => 1,
            ExtendMode::Mirror => 2,
        }
    }

    /// The extend mode of a Direct2D code: clamp for any unknown code
    pub fn from_code(code: u32) -> (r: ExtendMode)
        ensures
            r == (if code == 1 { ExtendMode::Wrap } else if code == 2 { ExtendMode::Mirror } else { ExtendMode::Clamp }),
    {
        if code == 1 {
            ExtendMode::Wrap
        } else if code == 2 {
            ExtendMode::Mirror
        } else {
            ExtendMode::Clamp
        }
    }
}

impl MeasuringMode {
    /// The DirectWrite code of the measuring mode
    pub fn code(&self) -> (r: u32)
        ensures
            r == (match *self {
                MeasuringMode::Natural => 0u32,
                MeasuringMode::GdiClassic => 1u32,
                MeasuringMode::GdiNatural => 2u32,
            }),
    {
        match self {
            MeasuringMode::Natural => 0,
            MeasuringMode::GdiClassic => 1,
            MeasuringMode::GdiNatural => 2,
        }
    }
}

/// What the end of a drawing pass answers for the code `hr` that the render target gave
pub open spec fn end_draw_spec(hr: i32) -> Result<(), CanvasError> {
    if hr == S_OK {
        Ok(())
    } else if hr == D2DERR_RECREATE_TARGET {
        Err(CanvasError::RecreateTarget)
    } else if hr == D2DERR_WRONG_FACTORY {
        Err(CanvasError::WrongFactory)
    } else {
        Err(CanvasError::Other(hr))
    }
}

/// A drawing pass on a canvas, started on the render target `render_target`
pub struct CanvasDraw {
    pub render_target: usize,
}

impl CanvasDraw {
    /// A drawing pass on the render target `render_target`
    pub fn new(render_target: usize) -> (r: CanvasDraw)
        ensures
            r.render_target == render_target,
    {
        CanvasDraw { render_target }
    }

    /// Finish drawing, with the code `hr` that ending the pass gave
    pub fn end_draw(self, hr: i32) -> (r: Result<(), CanvasError>)
        ensures
            r == end_draw_spec(hr),
    {
        if hr == S_OK {
            Ok(())
        } else if hr == D2DERR_RECREATE_TARGET {
            Err(CanvasError::RecreateTarget)
        } else if hr == D2DERR_WRONG_FACTORY {
            Err(CanvasError::WrongFactory)
        } else {
            Err(CanvasError::Other(hr))
        }
    }
}

/// A pass ends in success exactly on success, and every failure keeps enough to tell it
/// apart: its code can be told again from the error.
pub proof fn lemma_end_draw_keeps_code(hr1: i32, hr2: i32)
    ensures
        end_draw_spec(hr1) is Ok <==> hr1 == S_OK,
        end_draw_spec(hr1) == end_draw_spec(hr2) ==> hr1 == hr2,
{
}

/// Each dash style, cap style and line join has a code of its own.
pub proof fn lemma_codes_distinct(a: DashStyle, b: DashStyle, c: CapStyle, d: CapStyle, e: LineJoin, f: LineJoin)
    ensures
        dash_code(a) == dash_code(b) ==> a == b,
        cap_code(c) == cap_code(d) ==> c == d,
        join_code(e) == join_code(f) ==> e == f,
{
}

/// The canvas is immediatly visible after creation
pub const VISIBLE: u32 = WS_VISIBLE;
/// The canvas cannot be interacted with by the user
pub const DISABLED: u32 = WS_DISABLED;

/// The canvas flags: a combination of the constants above.
pub type CanvasFlags = u32;

/// A control entirely painted by the user: its window and its render target
pub struct Canvas {
    pub handle: ControlHandle,
    pub renderer: usize,
}

/// Builder of a `Canvas`
pub struct CanvasBuilder {
    pub size: (i32, i32),
    pub position: (i32, i32),
    pub flags: Option<CanvasFlags>,
    pub parent: Option<ControlHandle>,
}

impl Default for Canvas {
    fn default() -> (r: Canvas)
        ensures
            r.handle == ControlHandle::NoHandle,
            r.renderer == 0,
    {
        Canvas { handle: ControlHandle::NoHandle, renderer: 0 }
    }
}

impl PartialEq for Canvas {
    fn eq(&self, other: &Self) -> (r: bool) {
        self.handle == other.handle
    }
}

impl vstd::std_specs::cmp::PartialEqSpecImpl for Canvas {
    open spec fn obeys_eq_spec() -> bool {
        true
    }

    open spec fn eq_spec(&self, other: &Canvas) -> bool {
        handle_eq(self.handle, other.handle)
    }
}

impl Canvas {
    pub fn builder() -> (b: CanvasBuilder)
        ensures
            b.size == (500i32, 500i32),
            b.position == (300i32, 300i32),
            b.flags is None,
            b.parent is None,
    {
        CanvasBuilder { size: (500, 500), position: (300, 300), flags: None, parent: None }
    }

    /// A drawing pass on the render target of the canvas
    pub fn begin_draw(&self) -> (r: CanvasDraw)
        ensures
            r.render_target == self.renderer,
    {
        CanvasDraw::new(self.renderer)
    }

    /// Winapi class name used during control creation
    pub fn class_name(&self) -> (r: &'static str)
        ensures
            r@ == "NWG_CANVAS"@,
    {
        "NWG_CANVAS"
    }

    /// Winapi base flags used during window creation
    pub fn flags(&self) -> (r: u32)
        ensures
            r == WS_VISIBLE,
    {
        WS_VISIBLE
    }

    /// Winapi flags required by the control
    pub fn forced_flags(&self) -> (r: u32)
        ensures
            r == WS_CHILD,
    {
        WS_CHILD
    }
}

impl CanvasBuilder {
    pub fn flags(self, flags: CanvasFlags) -> (b: CanvasBuilder)
        ensures
            b == (CanvasBuilder { flags: Some(flags), ..self }),
    {
        CanvasBuilder { flags: Some(flags), ..self }
    }

    pub fn size(self, size: (i32, i32)) -> (b: CanvasBuilder)
        ensures
            b == (CanvasBuilder { size: size, ..self }),
    {
        CanvasBuilder { size: size, ..self }
    }

    pub fn position(self, pos: (i32, i32)) -> (b: CanvasBuilder)
        ensures
            b == (CanvasBuilder { position: pos, ..self }),
    {
        CanvasBuilder { position: pos, ..self }
    }

    pub fn parent(self, p: Option<ControlHandle>) -> (b: CanvasBuilder)
        ensures
            b == (CanvasBuilder { parent: p, ..self }),
    {
        CanvasBuilder { parent: p, ..self }
    }

    /// The window to create for the canvas, with the chosen flags (or the default ones);
    /// fails without a parent. Its render target is built on the window once created.
    pub fn build(&self, out: &Canvas) -> (r: Result<HwndBuilder, SystemError>)
        ensures
            self.parent is None <==> r is Err,
            self.parent is None ==> r == Err::<HwndBuilder, SystemError>(SystemError::ControlWithoutParent),
            r matches Ok(w) ==> {
                &&& opt_str_view(w.class_name) == Some("NWG_CANVAS"@)
                &&& w.forced_flags == WS_CHILD
                &&& w.flags == Some(match self.flags { Some(f) => f, None => WS_VISIBLE })
                &&& w.ex_flags is None
                &&& w.size == Some(self.size)
                &&& w.pos == Some(self.position)
                &&& w.text is None
                &&& w.parent == (match self.parent.unwrap() { ControlHandle::Hwnd(h) => Some(h), _ => None::<usize> })
            },
    {
        let flags = resolve_flags(self.flags, out.flags());
        let parent = match self.parent {
            Some(p) => p,
            None => { return Err(SystemError::ControlWithoutParent); },
        };
        Ok(ControlBase::build_hwnd()
            .class_name(Some(out.class_name()))
            .forced_flags(out.forced_flags())
            .flags(flags)
            .size(self.size)
            .position(self.position)
            .parent(Some(parent)))
    }
}

} // verus!
