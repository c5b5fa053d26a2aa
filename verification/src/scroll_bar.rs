//! Scroll bar: its style flags, and how it moves its thumb in answer to the scroll
//! messages and the mouse wheel, which the library handles itself.
use vstd::prelude::*;
use crate::control_handle::{ControlHandle, handle_eq, DestroyRequest, destroy_request_of};
use crate::control_base::{HwndBuilder, hwnd_params, require_parent, resolve_flags, opt_str_view};
use crate::error::NwgError;
use crate::label::fits_i32;
use crate::styles::{WS_VISIBLE, WS_DISABLED, WS_TABSTOP, WS_CHILD};
use std::ops::Range;

verus! {

/// `SBS_HORZ`, `SBS_VERT`: the orientation styles of a scroll bar
pub const SBS_HORZ: u32 = 0x0000;
pub const SBS_VERT: u32 = 0x0001;

pub const NONE: u32 = 0;
pub const VISIBLE: u32 = WS_VISIBLE;
pub const DISABLED: u32 = WS_DISABLED;
pub const TAB_STOP: u32 = WS_TABSTOP;
pub const HORIZONTAL: u32 = SBS_HORZ;
pub const VERTICAL: u32 = SBS_VERT;

/// The scroll bar flags: a combination of the constants above.
pub type ScrollBarFlags = u32;

/// The scroll requests carried in the low word of a scroll message
pub const SB_LINEUP: isize = 0;
pub const SB_LINELEFT: isize = 0;
pub const SB_LINEDOWN: isize = 1;
pub const SB_LINERIGHT: isize = 1;
pub const SB_PAGEUP: isize = 2;
pub const SB_PAGELEFT: isize = 2;
pub const SB_PAGEDOWN: isize = 3;
pub const SB_PAGERIGHT: isize = 3;
pub const SB_THUMBTRACK: isize = 5;
pub const SB_TOP: isize = 6;
pub const SB_BOTTOM: isize = 7;

/// The scroll messages
pub const WM_HSCROLL: u32 = 0x0114;
pub const WM_VSCROLL: u32 = 0x0115;
/// The message sent when the mouse wheel moves
pub const WM_MOUSEWHEEL: u32 = 0x020A;

/// The state of a scroll bar (`SCROLLINFO`)
#[derive(Copy, Clone, Debug, PartialEq, Eq, Structural)]
pub struct ScrollInfo {
    pub min: i32,
    pub max: i32,
    pub page: u32,
    pub pos: i32,
    pub track_pos: i32,
}

/// The thumb position a scroll request `event` asks for, from the state `si`; a horizontal
/// bar knows the line, page and track requests, a vertical one also top and bottom.
/// Other requests keep the position.
pub open spec fn scroll_target(si: ScrollInfo, event: isize, vertical: bool) -> int {
    if event == SB_LINEUP {
        si.pos - 1
    } else if event == SB_LINEDOWN {
        si.pos + 1
    } else if event == SB_PAGEUP {
        si.pos - (si.page as i32)
    } else if event == SB_PAGEDOWN {
        si.pos + (si.page as i32)
    } else if event == SB_THUMBTRACK {
        si.track_pos as int
    } else if vertical && event == SB_TOP {
        si.min as int
    } else if vertical && event == SB_BOTTOM {
        si.max as int
    } else {
        si.pos as int
    }
}

/// The low word of a 32-bit value
pub fn lo_word(l: u32) -> (r: u16)
    ensures
        r == l % 65536,
{
    let v = l & 0xffff;
    assert(l & 0xffff == l % 65536) by (bit_vector);
    v as u16
}

/// The high word of a 32-bit value
pub fn hi_word(l: u32) -> (r: u16)
    ensures
        r == l / 65536,
{
    let v = (l >> 16u32) & 0xffff;
    assert((l >> 16u32) & 0xffff == l / 65536) by (bit_vector);
    v as u16
}

/// The scroll request of a scroll message whose word parameter is `w`: its low word
pub fn scroll_event(w: usize) -> (r: isize)
    ensures
        r == (w as u32) % 65536,
{
    lo_word(w as u32) as isize
}

/// The wheel movement of a mouse wheel message whose word parameter is `w`:
/// its high word, read as a signed value (`GET_WHEEL_DELTA_WPARAM`)
pub fn wheel_delta(w: usize) -> (r: i16)
    ensures
        r == ((w as u32) / 65536) as i16,
{
    hi_word(w as u32) as i16
}

/// The new thumb position for the scroll request `event` on a bar in the state `si`
pub fn scroll_pos(si: ScrollInfo, event: isize, vertical: bool) -> (r: i32)
    requires
        fits_i32(scroll_target(si, event, vertical)),
    ensures
        r == scroll_target(si, event, vertical),
{
    if event == SB_LINEUP {
        si.pos - 1
    } else if event == SB_LINEDOWN {
        si.pos + 1
    } else if event == SB_PAGEUP {
        si.pos - (si.page as i32)
    } else if event == SB_PAGEDOWN {
        si.pos + (si.page as i32)
    } else if event == SB_THUMBTRACK {
        si.track_pos
    } else if vertical && event == SB_TOP {
        si.min
    } else if vertical && event == SB_BOTTOM {
        si.max
    } else {
        si.pos
    }
}

/// What a scroll bar `handle` does with a message of its parent, and the reply given to
/// the system: for a horizontal or vertical scroll message sent for this bar, the new thumb
/// position; for any other message, or one sent for another bar, none. The reply is none
/// for every message, so that the parent goes on with its own processing.
pub fn scroll_message(msg: u32, w: usize, l: isize, handle: usize, si: ScrollInfo) -> (r: (Option<i32>, Option<isize>))
    requires
        (msg == WM_HSCROLL || msg == WM_VSCROLL) && l as usize == handle ==>
            fits_i32(scroll_target(si, ((w as u32) % 65536) as isize, msg == WM_VSCROLL)),
    ensures
        r.0 == if (msg == WM_HSCROLL || msg == WM_VSCROLL) && l as usize == handle {
            Some(scroll_target(si, ((w as u32) % 65536) as isize, msg == WM_VSCROLL) as i32)
        } else {
            None::<i32>
        },
        r.1 == None::<isize>,
{
    if msg == WM_HSCROLL || msg == WM_VSCROLL {
        if l as usize != handle {
            return (None, None);
        }
        let event = scroll_event(w);
        (Some(scroll_pos(si, event, msg == WM_VSCROLL)), None)
    } else {
        (None, None)
    }
}

/// The new thumb position after a mouse wheel movement `delta`: one line up when the
/// wheel moves forward, one line down otherwise
pub fn wheel_pos(si: ScrollInfo, delta: i16) -> (r: i32)
    requires
        delta > 0 ==> si.pos > i32::MIN,
        delta <= 0 ==> si.pos < i32::MAX,
    ensures
        r == if delta > 0 { si.pos - 1 } else { si.pos + 1 },
{
    if delta > 0 { si.pos - 1 } else { si.pos + 1 }
}

/// What a scroll bar in the state `si` does with a message sent to itself, and the reply
/// given to the system: a mouse wheel message moves the thumb (`wheel_pos`) and is answered
/// with 0, so that the system does no more with it; any other message changes nothing and
/// gets no reply.
pub fn wheel_message(msg: u32, w: usize, si: ScrollInfo) -> (r: (Option<i32>, Option<isize>))
    requires
        msg == WM_MOUSEWHEEL && ((w as u32) / 65536) as i16 > 0 ==> si.pos > i32::MIN,
        msg == WM_MOUSEWHEEL && ((w as u32) / 65536) as i16 <= 0 ==> si.pos < i32::MAX,
    ensures
        msg == WM_MOUSEWHEEL ==> r == (Some(
            if ((w as u32) / 65536) as i16 > 0 { si.pos - 1 } else { si.pos + 1 } as i32), Some(0isize)),
        msg != WM_MOUSEWHEEL ==> r == (None::<i32>, None::<isize>),
{
    if msg == WM_MOUSEWHEEL {
        let delta = wheel_delta(w);
        (Some(wheel_pos(si, delta)), Some(0))
    } else {
        (None, None)
    }
}

/// A scroll bar
pub struct ScrollBar {
    pub handle: ControlHandle,
}

/// What building a scroll bar sets up: the window to create, then whether it is enabled, its
/// range and its position when given, and the focus.
#[derive(Debug)]
pub struct ScrollBarSetup {
    pub window: HwndBuilder,
    pub enabled: bool,
    pub range: Option<Range<usize>>,
    pub pos: Option<usize>,
    pub focus: bool,
    /// What to release of the control that `out` held before: building resets it to an
    /// empty control
    pub release: DestroyRequest,
}

/// Builder of a `ScrollBar`
pub struct ScrollBarBuilder {
    pub size: (i32, i32),
    pub position: (i32, i32),
    pub enabled: bool,
    pub flags: Option<ScrollBarFlags>,
    pub ex_flags: u32,
    pub parent: Option<ControlHandle>,
    pub focus: bool,
    pub range: Option<Range<usize>>,
    pub pos: Option<usize>,
}

impl Default for ScrollBar {
    fn default() -> (r: ScrollBar)
        ensures
            r.handle == ControlHandle::NoHandle,
    {
        ScrollBar { handle: ControlHandle::NoHandle }
    }
}

impl PartialEq for ScrollBar {
    fn eq(&self, other: &Self) -> (r: bool) {
        self.handle == other.handle
    }
}

impl vstd::std_specs::cmp::PartialEqSpecImpl for ScrollBar {
    open spec fn obeys_eq_spec() -> bool {
        true
    }

    open spec fn eq_spec(&self, other: &ScrollBar) -> bool {
        handle_eq(self.handle, other.handle)
    }
}

impl ScrollBar {
    /// The position of the bar, from the answer of the control
    pub fn pos(&self, answer: isize) -> (r: usize)
        ensures
            r == answer as usize,
    {
        answer as usize
    }

    /// The (position, redraw) pair sent to set the position of the bar
    pub fn set_pos(&self, p: usize) -> (r: (usize, isize))
        ensures
            r == (p, 1isize),
    {
        (p, 1)
    }

    /// The (low, high) pair sent to set the range of the bar
    pub fn set_range(&self, range: Range<usize>) -> (r: (usize, usize))
        ensures
            r == (range.start, range.end),
    {
        (range.start, range.end)
    }

    pub fn builder() -> (b: ScrollBarBuilder)
        ensures
            b.size == (25i32, 100i32),
            b.position == (0i32, 0i32),
            b.enabled,
            b.flags is None,
            b.ex_flags == 0,
            b.parent is None,
            !b.focus,
            b.range is None,
            b.pos is None,
    {
        ScrollBarBuilder {
            size: (25, 100),
            position: (0, 0),
            enabled: true,
            flags: None,
            ex_flags: 0,
            parent: None,
            focus: false,
            range: None,
            pos: None,
        }
    }

    /// The range of values of the bar from the limits it reports
    pub fn range(&self, min: u32, max: u32) -> (r: Range<usize>)
        ensures
            r == (Range { start: min as usize, end: max as usize }),
    {
        Range { start: min as usize, end: max as usize }
    }

    /// Winapi class name used during control creation
    pub fn class_name(&self) -> (r: &'static str)
        ensures
            r@ == "SCROLLBAR"@,
    {
        "SCROLLBAR"
    }

    /// Winapi base flags used during window creation
    pub fn flags(&self) -> (r: u32)
        ensures
            r == WS_VISIBLE | WS_TABSTOP | SBS_VERT,
    {
        WS_VISIBLE | WS_TABSTOP | SBS_VERT
    }

    /// Winapi flags required by the control
    pub fn forced_flags(&self) -> (r: u32)
        ensures
            r == WS_CHILD,
    {
        WS_CHILD
    }
}

impl ScrollBarBuilder {
    pub fn flags(self, flags: ScrollBarFlags) -> (b: ScrollBarBuilder)
        ensures
            b == (ScrollBarBuilder { flags: Some(flags), ..self }),
    {
        ScrollBarBuilder { flags: Some(flags), ..self }
    }

    pub fn ex_flags(self, flags: u32) -> (b: ScrollBarBuilder)
        ensures
            b == (ScrollBarBuilder { ex_flags: flags, ..self }),
    {
        ScrollBarBuilder { ex_flags: flags, ..self }
    }

    pub fn size(self, size: (i32, i32)) -> (b: ScrollBarBuilder)
        ensures
            b == (ScrollBarBuilder { size: size, ..self }),
    {
        ScrollBarBuilder { size: size, ..self }
    }

    pub fn position(self, pos: (i32, i32)) -> (b: ScrollBarBuilder)
        ensures
            b == (ScrollBarBuilder { position: pos, ..self }),
    {
        ScrollBarBuilder { position: pos, ..self }
    }

    pub fn enabled(self, e: bool) -> (b: ScrollBarBuilder)
        ensures
            b == (ScrollBarBuilder { enabled: e, ..self }),
    {
        ScrollBarBuilder { enabled: e, ..self }
    }

    pub fn focus(self, focus: bool) -> (b: ScrollBarBuilder)
        ensures
            b == (ScrollBarBuilder { focus: focus, ..self }),
    {
        ScrollBarBuilder { focus: focus, ..self }
    }

    pub fn range(self, range: Option<Range<usize>>) -> (b: ScrollBarBuilder)
        ensures
            b == (ScrollBarBuilder { range: range, ..self }),
    {
        ScrollBarBuilder { range: range, ..self }
    }

    pub fn pos(self, pos: Option<usize>) -> (b: ScrollBarBuilder)
        ensures
            b == (ScrollBarBuilder { pos: pos, ..self }),
    {
        ScrollBarBuilder { pos: pos, ..self }
    }

    pub fn parent(self, p: ControlHandle) -> (b: ScrollBarBuilder)
        ensures
            b == (ScrollBarBuilder { parent: Some(p), ..self }),
    {
        ScrollBarBuilder { parent: Some(p), ..self }
    }

    /// The window to create for the control; fails without a parent.
    pub fn build(&self, out: &mut ScrollBar) -> (r: Result<ScrollBarSetup, NwgError>)
        ensures
            r is Ok ==> final(out).handle == ControlHandle::NoHandle
                && r->Ok_0.release == destroy_request_of(old(out).handle),
            r is Err ==> *final(out) == *old(out),
            self.parent is None <==> r is Err,
            self.parent is None ==> (r matches Err(NwgError::NoParent(s)) && s@ == "ScrollBar"@),
            r matches Ok(s) ==> {
                &&& opt_str_view(s.window.class_name) == Some("SCROLLBAR"@)
                &&& s.window.forced_flags == WS_CHILD
                &&& s.window.flags == Some((match self.flags { Some(f) => f, None => WS_VISIBLE | WS_TABSTOP | SBS_VERT }))
                &&& s.window.ex_flags == Some(self.ex_flags)
                &&& s.window.size == Some(self.size)
                &&& s.window.pos == Some(self.position)
                &&& opt_str_view(s.window.text) == None::<Seq<char>>
                &&& s.window.parent == (match self.parent.unwrap() { ControlHandle::Hwnd(h) => Some(h), _ => None::<usize> })
                &&& s.enabled == self.enabled
                &&& s.range == self.range
                &&& s.pos == self.pos
                &&& s.focus == self.focus
            },
    {
        let flags = resolve_flags(self.flags, out.flags());
        let parent = match require_parent(self.parent, "ScrollBar") {
            Ok(p) => p,
            Err(e) => { return Err(e); },
        };
        let release = out.handle.destroy();
        Ok(ScrollBarSetup {
            release,
            window: hwnd_params(out.class_name(), out.forced_flags(), flags, self.ex_flags, self.size, self.position, None, parent),
            enabled: self.enabled,
            range: match &self.range { Some(r) => Some(r.start..r.end), None => None },
            pos: self.pos,
            focus: self.focus,
        })
    }
}

/// Each scroll request moves the thumb the same way on both kinds of bar: a line request
/// by one, a page request by the page size, a track request to the tracked position;
/// "top" and "bottom" are the only requests that depend on the orientation.
pub proof fn lemma_scroll_requests(si: ScrollInfo, vertical: bool)
    ensures
        scroll_target(si, SB_LINEUP, vertical) == si.pos - 1,
        scroll_target(si, SB_LINEDOWN, vertical) == si.pos + 1,
        scroll_target(si, SB_PAGEUP, vertical) == si.pos - (si.page as i32),
        scroll_target(si, SB_PAGEDOWN, vertical) == si.pos + (si.page as i32),
        scroll_target(si, SB_THUMBTRACK, vertical) == si.track_pos,
        scroll_target(si, SB_LINELEFT, false) == scroll_target(si, SB_LINEUP, true),
        scroll_target(si, SB_LINERIGHT, false) == scroll_target(si, SB_LINEDOWN, true),
        scroll_target(si, SB_PAGELEFT, false) == scroll_target(si, SB_PAGEUP, true),
        scroll_target(si, SB_PAGERIGHT, false) == scroll_target(si, SB_PAGEDOWN, true),
        si.page <= i32::MAX ==> scroll_target(si, SB_PAGERIGHT, vertical) - scroll_target(si, SB_PAGELEFT, vertical) == 2 * si.page,
{
}

/// One line down, then one line up, brings the thumb back where it was; so does one
/// page down then one page up.
pub proof fn lemma_line_and_page_undo(si: ScrollInfo, vertical: bool)
    requires
        fits_i32(si.pos + 1),
        fits_i32(si.pos + (si.page as i32)),
    ensures
        scroll_target(ScrollInfo { pos: scroll_target(si, SB_LINEDOWN, vertical) as i32, ..si }, SB_LINEUP, vertical) == si.pos,
        scroll_target(ScrollInfo { pos: scroll_target(si, SB_PAGEDOWN, vertical) as i32, ..si }, SB_PAGEUP, vertical) == si.pos,
{
}

/// A vertical bar goes to its minimum on "top" and to its maximum on "bottom"; a
/// horizontal bar ignores both requests, and both ignore unknown requests.
pub proof fn lemma_top_bottom(si: ScrollInfo, event: isize)
    ensures
        scroll_target(si, SB_TOP, true) == si.min,
        scroll_target(si, SB_BOTTOM, true) == si.max,
        scroll_target(si, SB_TOP, false) == si.pos,
        scroll_target(si, SB_BOTTOM, false) == si.pos,
        (event < 0 || event == 4 || event > 7) ==> scroll_target(si, event, true) == si.pos && scroll_target(si, event, false) == si.pos,
{
}

/// The handle of a control
impl<'a> From<&'a ScrollBar> for ControlHandle {
    fn from(control: &'a ScrollBar) -> (r: ControlHandle) {
        control.handle
    }
}

impl<'a> vstd::std_specs::convert::FromSpecImpl<&'a ScrollBar> for ControlHandle {
    open spec fn obeys_from_spec() -> bool {
        true
    }

    open spec fn from_spec(control: &'a ScrollBar) -> ControlHandle {
        control.handle
    }
}

} // verus!
