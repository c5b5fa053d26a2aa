//! Track bar: a slider in a channel, with optional tick marks and a selected range.
use vstd::prelude::*;
use std::ops::Range;
use crate::control_handle::{ControlHandle, handle_eq, DestroyRequest, destroy_request_of};
use crate::control_base::{HwndBuilder, hwnd_params, require_parent, resolve_flags, opt_str_view};
use crate::color::{rgb, rgb_spec};
use crate::error::NwgError;
use crate::styles::{WS_VISIBLE, WS_TABSTOP, WS_CHILD};

verus! {

pub const TBS_AUTOTICKS: u32 = 0x0001;
pub const TBS_VERT: u32 = 0x0002;
pub const TBS_HORZ: u32 = 0x0000;
pub const TBS_TOP: u32 = 0x0004;
pub const TBS_BOTTOM: u32 = 0x0000;
pub const TBS_LEFT: u32 = 0x0004;
pub const TBS_RIGHT: u32 = 0x0000;
pub const TBS_NOTICKS: u32 = 0x0010;
pub const TBS_ENABLESELRANGE: u32 = 0x0020;

/// The track bar is immediatly visible after creation
pub const VISIBLE: u32 = WS_VISIBLE;
/// Add a tick for each increment in the range
pub const AUTO_TICK: u32 = TBS_AUTOTICKS;
/// The track bar is vertical
pub const VERTICAL: u32 = TBS_VERT;
/// The track bar is horizontal
pub const HORIZONTAL: u32 = TBS_HORZ;
/// The ticks are above a horizontal bar
pub const TICK_TOP: u32 = TBS_TOP;
/// The ticks are below a horizontal bar
pub const TICK_BOTTOM: u32 = TBS_BOTTOM;
/// The ticks are left of a vertical bar
pub const TICK_LEFT: u32 = TBS_LEFT;
/// The ticks are right of a vertical bar
pub const TICK_RIGHT: u32 = TBS_RIGHT;
/// The bar has no ticks
pub const NO_TICK: u32 = TBS_NOTICKS;
/// The bar shows a selected range
pub const RANGE: u32 = TBS_ENABLESELRANGE;
/// The control can be selected using tab navigation
pub const TAB_STOP: u32 = WS_TABSTOP;

/// The track bar flags: a combination of the constants above.
pub type TrackBarFlags = u32;

/// What building a track bar sets up: the window to create, then the color of its
/// background (packed) when one is given, the focus, the range (low and high bounds), the
/// selected range and the position, each when given
#[derive(Debug)]
pub struct TrackBarSetup {
    pub window: HwndBuilder,
    pub background: Option<u32>,
    pub focus: bool,
    pub range: Option<(usize, usize)>,
    pub selected_range: Option<Range<usize>>,
    pub pos: Option<usize>,
    /// What to release of the control that `out` held before: building resets it to an
    /// empty control
    pub release: DestroyRequest,
}

/// A track bar: its handle, and the brush that paints its background when it has one
pub struct TrackBar {
    pub handle: ControlHandle,
    pub background_brush: Option<usize>,
}

/// Builder of a `TrackBar`
pub struct TrackBarBuilder {
    pub size: (i32, i32),
    pub position: (i32, i32),
    pub focus: bool,
    pub range: Option<Range<usize>>,
    pub selected_range: Option<Range<usize>>,
    pub pos: Option<usize>,
    pub flags: Option<TrackBarFlags>,
    pub ex_flags: u32,
    pub parent: Option<ControlHandle>,
    pub background_color: Option<[u8; 3]>,
}

impl Default for TrackBar {
    fn default() -> (r: TrackBar)
        ensures
            r.handle == ControlHandle::NoHandle,
            r.background_brush is None,
    {
        TrackBar { handle: ControlHandle::NoHandle, background_brush: None }
    }
}

impl PartialEq for TrackBar {
    fn eq(&self, other: &Self) -> (r: bool) {
        self.handle == other.handle
    }
}

impl vstd::std_specs::cmp::PartialEqSpecImpl for TrackBar {
    open spec fn obeys_eq_spec() -> bool {
        true
    }

    open spec fn eq_spec(&self, other: &TrackBar) -> bool {
        handle_eq(self.handle, other.handle)
    }
}

impl TrackBar {
    pub fn builder() -> (b: TrackBarBuilder)
        ensures
            b.size == (100i32, 20i32),
            b.position == (0i32, 0i32),
            !b.focus,
            b.range is None,
            b.selected_range is None,
            b.pos is None,
            b.flags is None,
            b.ex_flags == 0,
            b.parent is None,
            b.background_color is None,
    {
        TrackBarBuilder {
            size: (100, 20),
            position: (0, 0),
            focus: false,
            range: None,
            selected_range: None,
            pos: None,
            flags: None,
            ex_flags: 0,
            parent: None,
            background_color: None,
        }
    }

    /// The position of the slider, from the answer of the control
    pub fn pos(&self, answer: isize) -> (r: usize)
        ensures
            r == answer as usize,
    {
        answer as usize
    }

    /// The (redraw, position) pair sent to move the slider
    pub fn set_pos(&self, p: usize) -> (r: (usize, usize))
        ensures
            r == (1usize, p),
    {
        (1, p)
    }

    /// The selected range, from the end and the start the control reports
    pub fn selection_range_pos(&self, end_answer: isize, start_answer: isize) -> (r: Range<usize>)
        ensures
            r.start == start_answer as usize,
            r.end == end_answer as usize,
    {
        let end = end_answer as usize;
        let start = start_answer as usize;
        start..end
    }

    /// The two (redraw, value) pairs sent to set the selected range: its end without a
    /// redraw, then its start with one
    pub fn set_selection_range_pos(&self, value: Range<usize>) -> (r: ((usize, usize), (usize, usize)))
        ensures
            r == ((0usize, value.end), (1usize, value.start)),
    {
        ((0, value.end), (1, value.start))
    }

    /// The lowest position, from the answer of the control
    pub fn range_min(&self, answer: isize) -> (r: usize)
        ensures
            r == answer as usize,
    {
        answer as usize
    }

    /// The (redraw, value) pair sent to set the lowest position
    pub fn set_range_min(&self, min: usize) -> (r: (usize, usize))
        ensures
            r == (1usize, min),
    {
        (1, min)
    }

    /// The highest position, from the answer of the control
    pub fn range_max(&self, answer: isize) -> (r: usize)
        ensures
            r == answer as usize,
    {
        answer as usize
    }

    /// The (redraw, value) pair sent to set the highest position
    pub fn set_range_max(&self, max: usize) -> (r: (usize, usize))
        ensures
            r == (1usize, max),
    {
        (1, max)
    }

    /// The number of ticks, from the answer of the control
    pub fn tics_len(&self, answer: isize) -> (r: usize)
        ensures
            r == answer as usize,
    {
        answer as usize
    }

    /// The position of a tick, from the answer of the control
    pub fn tic_value(&self, answer: isize) -> (r: usize)
        ensures
            r == answer as usize,
    {
        answer as usize
    }

    /// The packed color of the brush that paints the background of the bound control; the
    /// parent then answers the control's requests for a background with that brush
    /// (`background_brush_reply`)
    pub fn hook_background_color(&self, c: [u8; 3]) -> (r: u32)
        requires
            self.handle is Hwnd,
        ensures
            r == rgb_spec(c[0], c[1], c[2]),
    {
        rgb(c[0], c[1], c[2])
    }

    /// Keep the brush that paints the background, to delete it with the control
    pub fn set_background_brush(&mut self, brush: usize)
        ensures
            final(self).handle == old(self).handle,
            final(self).background_brush == Some(brush),
    {
        self.background_brush = Some(brush);
    }

    /// Winapi class name used during control creation
    pub fn class_name(&self) -> (r: &'static str)
        ensures
            r@ == "msctls_trackbar32"@,
    {
        "msctls_trackbar32"
    }

    /// Winapi base flags used during window creation
    pub fn flags(&self) -> (r: u32)
        ensures
            r == WS_VISIBLE | TBS_AUTOTICKS | WS_TABSTOP,
    {
        WS_VISIBLE | TBS_AUTOTICKS | WS_TABSTOP
    }

    /// Winapi flags required by the control
    pub fn forced_flags(&self) -> (r: u32)
        ensures
            r == WS_CHILD,
    {
        WS_CHILD
    }
}

impl TrackBarBuilder {
    pub fn flags(self, flags: TrackBarFlags) -> (b: TrackBarBuilder)
        ensures
            b == (TrackBarBuilder { flags: Some(flags), ..self }),
    {
        TrackBarBuilder { flags: Some(flags), ..self }
    }

    pub fn ex_flags(self, flags: u32) -> (b: TrackBarBuilder)
        ensures
            b == (TrackBarBuilder { ex_flags: flags, ..self }),
    {
        TrackBarBuilder { ex_flags: flags, ..self }
    }

    pub fn size(self, size: (i32, i32)) -> (b: TrackBarBuilder)
        ensures
            b == (TrackBarBuilder { size: size, ..self }),
    {
        TrackBarBuilder { size: size, ..self }
    }

    pub fn position(self, pos: (i32, i32)) -> (b: TrackBarBuilder)
        ensures
            b == (TrackBarBuilder { position: pos, ..self }),
    {
        TrackBarBuilder { position: pos, ..self }
    }

    pub fn focus(self, focus: bool) -> (b: TrackBarBuilder)
        ensures
            b == (TrackBarBuilder { focus: focus, ..self }),
    {
        TrackBarBuilder { focus: focus, ..self }
    }

    pub fn range(self, range: Option<Range<usize>>) -> (b: TrackBarBuilder)
        ensures
            b == (TrackBarBuilder { range: range, ..self }),
    {
        TrackBarBuilder { range: range, ..self }
    }

    pub fn selected_range(self, range: Option<Range<usize>>) -> (b: TrackBarBuilder)
        ensures
            b == (TrackBarBuilder { selected_range: range, ..self }),
    {
        TrackBarBuilder { selected_range: range, ..self }
    }

    pub fn pos(self, pos: Option<usize>) -> (b: TrackBarBuilder)
        ensures
            b == (TrackBarBuilder { pos: pos, ..self }),
    {
        TrackBarBuilder { pos: pos, ..self }
    }

    pub fn parent(self, p: ControlHandle) -> (b: TrackBarBuilder)
        ensures
            b == (TrackBarBuilder { parent: Some(p), ..self }),
    {
        TrackBarBuilder { parent: Some(p), ..self }
    }

    pub fn background_color(self, color: Option<[u8; 3]>) -> (b: TrackBarBuilder)
        ensures
            b == (TrackBarBuilder { background_color: color, ..self }),
    {
        TrackBarBuilder { background_color: color, ..self }
    }

    /// What building the track bar sets up, with the chosen flags (or the default ones);
    /// fails without a parent.
    pub fn build(&self, out: &mut TrackBar) -> (r: Result<TrackBarSetup, NwgError>)
        ensures
            r is Ok ==> final(out).handle == ControlHandle::NoHandle
                && r->Ok_0.release == destroy_request_of(old(out).handle)
                && final(out).background_brush is None,
            r is Err ==> *final(out) == *old(out),
            self.parent is None <==> r is Err,
            self.parent is None ==> (r matches Err(NwgError::NoParent(s)) && s@ == "TrackBar"@),
            r matches Ok(s) ==> {
                &&& opt_str_view(s.window.class_name) == Some("msctls_trackbar32"@)
                &&& s.window.forced_flags == WS_CHILD
                &&& s.window.flags == Some(match self.flags { Some(f) => f, None => WS_VISIBLE | TBS_AUTOTICKS | WS_TABSTOP })
                &&& s.window.ex_flags == Some(self.ex_flags)
                &&& s.window.size == Some(self.size)
                &&& s.window.pos == Some(self.position)
                &&& s.window.text is None
                &&& s.window.parent == (match self.parent.unwrap() { ControlHandle::Hwnd(h) => Some(h), _ => None::<usize> })
                &&& s.background == (match self.background_color { Some(c) => Some(rgb_spec(c[0], c[1], c[2])), None => None::<u32> })
                &&& s.focus == self.focus
                &&& s.range == (match self.range { Some(r) => Some((r.start, r.end)), None => None::<(usize, usize)> })
                &&& s.selected_range == self.selected_range
                &&& s.pos == self.pos
            },
    {
        let flags = resolve_flags(self.flags, out.flags());
        let parent = match require_parent(self.parent, "TrackBar") {
            Ok(p) => p,
            Err(e) => { return Err(e); },
        };
        let window = hwnd_params(out.class_name(), out.forced_flags(), flags, self.ex_flags, self.size, self.position, None, parent);
        let background = match self.background_color {
            Some(c) => Some(crate::color::rgb(c[0], c[1], c[2])),
            None => None,
        };
        let range = match &self.range {
            Some(r) => Some((r.start, r.end)),
            None => None,
        };
        let selected_range = match &self.selected_range {
            Some(r) => Some(r.start..r.end),
            None => None,
        };
        let release = out.handle.destroy();
        out.background_brush = None;
        Ok(TrackBarSetup {
            release, window, background, focus: self.focus, range, selected_range, pos: self.pos })
    }
}

/// The handle of a control
impl<'a> From<&'a TrackBar> for ControlHandle {
    fn from(control: &'a TrackBar) -> (r: ControlHandle) {
        control.handle
    }
}

impl<'a> vstd::std_specs::convert::FromSpecImpl<&'a TrackBar> for ControlHandle {
    open spec fn obeys_from_spec() -> bool {
        true
    }

    open spec fn from_spec(control: &'a TrackBar) -> ControlHandle {
        control.handle
    }
}

} // verus!
