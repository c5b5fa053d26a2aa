//! Static text label: its style flags, and the layout it computes to align its
//! text vertically inside its window.
//!
//! A label centers (or aligns) its text by shrinking its client area: when asked
//! for its client size it measures one line of text, multiplies it by the number
//! of lines, and takes the rest of the window height out of the top, the bottom,
//! or both. The strips left outside the client area are painted with its
//! background brush.
use vstd::prelude::*;
use crate::control_handle::{ControlHandle, handle_eq, DestroyRequest, destroy_request_of};
use crate::control_base::{HwndBuilder, hwnd_params, require_parent, resolve_flags, opt_str_view};
use crate::error::NwgError;
use crate::color::rgb_spec;
use crate::styles::{WS_VISIBLE, WS_DISABLED, WS_CHILD, SS_WORDELLIPSIS, SS_NOPREFIX, SS_LEFT, SS_RIGHT, SS_CENTER, SS_NOTIFY};

verus! {

/// No flags. Equivalent to a invisible blank label.
pub const NONE: u32 = 0;
/// The label is immediatly visible after creation
pub const VISIBLE: u32 = WS_VISIBLE;
/// The label cannot be interacted with by the user. It also has a grayed out look.
pub const DISABLED: u32 = WS_DISABLED;
/// Truncate the label if the text is too long. A label with this style CANNOT have multiple
/// lines.
pub const ELIPSIS: u32 = SS_WORDELLIPSIS;

/// The label flags: a combination of the constants above.
pub type LabelFlags = u32;

/// `COLOR_WINDOW`: the system color index used as brush when no background color is given
pub const COLOR_WINDOW: usize = 5;

/// Horizontal text alignment
#[derive(Copy, Clone, Debug, PartialEq, Eq, Structural)]
pub enum HTextAlign {
    Left,
    Center,
    Right,
}

/// Vertical text alignment
#[derive(Copy, Clone, Debug, PartialEq, Eq, Structural)]
pub enum VTextAlign {
    Top,
    Center,
    Bottom,
}

/// A rectangle in pixels
#[derive(Copy, Clone, Debug, PartialEq, Eq, Structural)]
pub struct Rect {
    pub left: i32,
    pub top: i32,
    pub right: i32,
    pub bottom: i32,
}

/// The background of a label: a brush of the given color, or the window color
#[derive(Copy, Clone, Debug, PartialEq, Eq, Structural)]
pub enum LabelBackground {
    /// A solid brush of this packed color
    Solid(u32),
    /// The system brush of this color index
    System(usize),
}

/// Integer division by two rounded toward zero
pub open spec fn half_toward_zero(x: int) -> int {
    if x >= 0 { x / 2 } else { -((-x) / 2) }
}

/// The number of '\n' in a UTF-16 text
pub open spec fn count_newlines(s: Seq<u16>) -> nat
    decreases s.len(),
{
    if s.len() == 0 {
        0
    } else {
        count_newlines(s.drop_last()) + if s.last() == 10 { 1nat } else { 0nat }
    }
}

/// The client rectangle of a label whose window is `window_height` high and whose text
/// is `client_height` high: the space left is taken out of the bottom, of both sides
/// (one pixel less each, rounded toward zero), or out of the top.
pub open spec fn nc_rect_spec(rect: Rect, window_height: int, client_height: int, v_align: VTextAlign) -> Rect {
    match v_align {
        VTextAlign::Top => Rect { bottom: (rect.bottom - (window_height - client_height)) as i32, ..rect },
        VTextAlign::Center => {
            let center = half_toward_zero(window_height - client_height) - 1;
            Rect { top: (rect.top + center) as i32, bottom: (rect.bottom - center) as i32, ..rect }
        },
        VTextAlign::Bottom => Rect { top: (rect.top + (window_height - client_height)) as i32, ..rect },
    }
}

/// The value fits in an `i32`
pub open spec fn fits_i32(x: int) -> bool {
    i32::MIN <= x <= i32::MAX
}

/// The number of lines of a label text read into `buffer`: one more than its '\n'.
pub fn label_line_count(buffer: &[u16]) -> (r: i32)
    requires
        buffer@.len() < i32::MAX,
    ensures
        r == 1 + count_newlines(buffer@),
{
    let mut count: i32 = 1;
    let mut i: usize = 0;
    while i < buffer.len()
        invariant
            0 <= i <= buffer@.len(),
            buffer@.len() < i32::MAX,
            count == 1 + count_newlines(buffer@.subrange(0, i as int)),
            count_newlines(buffer@.subrange(0, i as int)) <= i,
        decreases buffer@.len() - i,
    {
        let ghost prev = buffer@.subrange(0, i as int);
        assert(buffer@.subrange(0, i as int + 1).drop_last() =~= prev);
        if buffer[i] == 10 {
            count = count + 1;
        }
        i = i + 1;
    }
    assert(buffer@.subrange(0, buffer@.len() as int) =~= buffer@);
    count
}

/// The height of the text of a label: the height of one line times the number of lines.
pub fn label_client_height(line_height: i32, line_count: i32) -> (r: i32)
    requires
        fits_i32(line_height * line_count),
    ensures
        r == line_height * line_count,
{
    line_height * line_count
}

/// The client rectangle of a label whose proposed rectangle is `rect`, whose window is
/// `window_height` high and whose text is `client_height` high.
pub fn label_nc_rect(rect: Rect, window_height: i32, client_height: i32, v_align: VTextAlign) -> (r: Rect)
    requires
        fits_i32(window_height - client_height),
        match v_align {
            VTextAlign::Top => fits_i32(rect.bottom - (window_height - client_height)),
            VTextAlign::Center => {
                let center = half_toward_zero(window_height - client_height) - 1;
                fits_i32(rect.top + center) && fits_i32(rect.bottom - center)
            },
            VTextAlign::Bottom => fits_i32(rect.top + (window_height - client_height)),
        },
    ensures
        r == nc_rect_spec(rect, window_height as int, client_height as int, v_align),
{
    let diff = window_height - client_height;
    match v_align {
        VTextAlign::Top => Rect { bottom: rect.bottom - diff, ..rect },
        VTextAlign::Center => {
            let center = (diff / 2) - 1;
            Rect { top: rect.top + center, bottom: rect.bottom - center, ..rect }
        },
        VTextAlign::Bottom => Rect { top: rect.top + diff, ..rect },
    }
}

/// The two strips of a label's window outside its client area, in client coordinates:
/// from the window top (`window_top`) to the client top, and from the client bottom to
/// the window bottom (`window_bottom`), both as wide as the client area.
pub fn label_nc_paint_rects(window_top: i32, window_bottom: i32, client: Rect) -> (r: (Rect, Rect))
    ensures
        r.0 == (Rect { left: 0, top: window_top, right: client.right, bottom: client.top }),
        r.1 == (Rect { left: 0, top: client.bottom, right: client.right, bottom: window_bottom }),
{
    let top = Rect { left: 0, top: window_top, right: client.right, bottom: client.top };
    let bottom = Rect { left: 0, top: client.bottom, right: client.right, bottom: window_bottom };
    (top, bottom)
}

/// The background brush of a label: a solid brush of the background color, or the
/// window color.
pub fn label_background(bg: Option<[u8; 3]>) -> (r: LabelBackground)
    ensures
        r == (match bg {
            Some(c) => LabelBackground::Solid(rgb_spec(c[0], c[1], c[2])),
            None => LabelBackground::System(COLOR_WINDOW),
        }),
{
    match bg {
        Some(c) => LabelBackground::Solid(crate::color::color_to_rgb(c)),
        None => LabelBackground::System(COLOR_WINDOW),
    }
}

/// The message that asks a window the size of its client area
pub const WM_NCCALCSIZE: u32 = 0x0083;
/// The message that asks a window to paint the area around its client area
pub const WM_NCPAINT: u32 = 0x0085;
/// The message that tells a window its size changed
pub const WM_SIZE: u32 = 0x0005;

/// What a label (or a text input) does with a message it receives
#[derive(Copy, Clone, Debug, PartialEq, Eq, Structural)]
pub enum NonClientAction {
    /// Nothing: the parameters of the message are left as they are and the control
    /// handles it
    Ignore,
    /// Shrink the proposed client area around the text
    CalcSize,
    /// Paint the strips around the client area with the background brush
    Paint,
    /// Ask the system to compute the client area again
    Refresh,
}

/// The action taken for the message `msg` whose first parameter is `w`: the size of the
/// client area is only computed when the system asks for a proposal (`w` not 0)
pub open spec fn non_client_action_spec(msg: u32, w: usize) -> NonClientAction {
    if msg == WM_NCCALCSIZE {
        if w == 0 { NonClientAction::Ignore } else { NonClientAction::CalcSize }
    } else if msg == WM_NCPAINT {
        NonClientAction::Paint
    } else if msg == WM_SIZE {
        NonClientAction::Refresh
    } else {
        NonClientAction::Ignore
    }
}

/// The action taken for the message `msg` whose first parameter is `w`, and the reply the
/// hook gives the system: none for every message, so that the system goes on with its
/// own processing of the message after the action
pub fn non_client_action(msg: u32, w: usize) -> (r: (NonClientAction, Option<isize>))
    ensures
        r.0 == non_client_action_spec(msg, w),
        r.1 == None::<isize>,
{
    let action = if msg == WM_NCCALCSIZE {
        if w == 0 { NonClientAction::Ignore } else { NonClientAction::CalcSize }
    } else if msg == WM_NCPAINT {
        NonClientAction::Paint
    } else if msg == WM_SIZE {
        NonClientAction::Refresh
    } else {
        NonClientAction::Ignore
    };
    (action, None)
}

/// The text measured for the height of one line when there is no text: "Ky"
pub open spec fn sample_text() -> Seq<u16> {
    seq![75u16, 121u16]
}

/// What a label measures to find the height of one of its lines, and its number of
/// lines. `text_length` is the length of its text, `buffer` the buffer (one unit longer)
/// the text was read into, and `read` the count the read reported. Without a text, or
/// when it could not be read, "Ky" is measured on one line; otherwise the first two units
/// of the buffer are measured, and the lines are counted in the whole buffer.
pub fn label_measure(text_length: usize, buffer: &[u16], read: i32) -> (r: (Vec<u16>, i32))
    requires
        buffer@.len() == text_length + 1,
        buffer@.len() < i32::MAX,
    ensures
        (text_length == 0 || read == 0) ==> r.0@ == sample_text() && r.1 == 1,
        !(text_length == 0 || read == 0) ==> r.0@ == buffer@.subrange(0, 2) && r.1 == 1 + count_newlines(buffer@),
{
    if text_length == 0 || read == 0 {
        let mut sample: Vec<u16> = Vec::new();
        sample.push(75);
        sample.push(121);
        proof {
            assert(sample@ =~= sample_text());
        }
        (sample, 1)
    } else {
        let mut first: Vec<u16> = Vec::new();
        first.push(buffer[0]);
        first.push(buffer[1]);
        proof {
            assert(first@ =~= buffer@.subrange(0, 2));
        }
        (first, label_line_count(buffer))
    }
}

/// The style bits of a horizontal alignment
pub open spec fn h_align_style(a: HTextAlign) -> u32 {
    match a {
        HTextAlign::Left => SS_LEFT,
        HTextAlign::Right => SS_RIGHT,
        HTextAlign::Center => SS_CENTER,
    }
}

/// A static text label
pub struct Label {
    pub handle: ControlHandle,
}

/// What building a label sets up: the window to create, then the font (the one given, or the
/// default font when `None`), and the brush and the vertical alignment with which it lays out
/// its text.
#[derive(Debug)]
pub struct LabelSetup {
    pub window: HwndBuilder,
    pub font: Option<usize>,
    pub background: LabelBackground,
    pub v_align: VTextAlign,
    /// What to release of the control that `out` held before: building resets it to an
    /// empty control
    pub release: DestroyRequest,
}

/// Builder of a `Label`
pub struct LabelBuilder<'a> {
    pub text: &'a str,
    pub size: (i32, i32),
    pub position: (i32, i32),
    pub background_color: Option<[u8; 3]>,
    pub flags: Option<LabelFlags>,
    pub ex_flags: u32,
    pub font: Option<usize>,
    pub h_align: HTextAlign,
    pub v_align: VTextAlign,
    pub parent: Option<ControlHandle>,
}

impl Default for Label {
    fn default() -> (r: Label)
        ensures
            r.handle == ControlHandle::NoHandle,
    {
        Label { handle: ControlHandle::NoHandle }
    }
}

impl PartialEq for Label {
    fn eq(&self, other: &Self) -> (r: bool) {
        self.handle == other.handle
    }
}

impl vstd::std_specs::cmp::PartialEqSpecImpl for Label {
    open spec fn obeys_eq_spec() -> bool {
        true
    }

    open spec fn eq_spec(&self, other: &Label) -> bool {
        handle_eq(self.handle, other.handle)
    }
}

impl Label {
    pub fn builder<'a>() -> (b: LabelBuilder<'a>)
        ensures
            b.text@ == "A label"@,
            b.size == (130i32, 25i32),
            b.position == (0i32, 0i32),
            b.flags is None,
            b.ex_flags == 0,
            b.font is None,
            b.parent is None,
            b.h_align == HTextAlign::Left,
            b.v_align == VTextAlign::Center,
            b.background_color is None,
    {
        LabelBuilder {
            text: "A label",
            size: (130, 25),
            position: (0, 0),
            flags: None,
            ex_flags: 0,
            font: None,
            parent: None,
            h_align: HTextAlign::Left,
            v_align: VTextAlign::Center,
            background_color: None,
        }
    }

    /// Winapi class name used during control creation
    pub fn class_name(&self) -> (r: &'static str)
        ensures
            r@ == "STATIC"@,
    {
        "STATIC"
    }

    /// Winapi base flags used during window creation
    pub fn flags(&self) -> (r: u32)
        ensures
            r == WS_VISIBLE | SS_NOPREFIX | SS_LEFT,
    {
        WS_VISIBLE | SS_NOPREFIX | SS_LEFT
    }

    /// Winapi flags required by the control
    pub fn forced_flags(&self) -> (r: u32)
        ensures
            r == WS_CHILD | SS_NOTIFY,
    {
        WS_CHILD | SS_NOTIFY
    }
}

impl<'a> LabelBuilder<'a> {
    pub fn flags(self, flags: LabelFlags) -> (b: LabelBuilder<'a>)
        ensures
            b == (LabelBuilder { flags: Some(flags), ..self }),
    {
        LabelBuilder { flags: Some(flags), ..self }
    }

    pub fn ex_flags(self, flags: u32) -> (b: LabelBuilder<'a>)
        ensures
            b == (LabelBuilder { ex_flags: flags, ..self }),
    {
        LabelBuilder { ex_flags: flags, ..self }
    }

    pub fn text(self, text: &'a str) -> (b: LabelBuilder<'a>)
        ensures
            b == (LabelBuilder { text, ..self }),
    {
        LabelBuilder { text, ..self }
    }

    pub fn size(self, size: (i32, i32)) -> (b: LabelBuilder<'a>)
        ensures
            b == (LabelBuilder { size, ..self }),
    {
        LabelBuilder { size, ..self }
    }

    pub fn position(self, pos: (i32, i32)) -> (b: LabelBuilder<'a>)
        ensures
            b == (LabelBuilder { position: pos, ..self }),
    {
        LabelBuilder { position: pos, ..self }
    }

    pub fn font(self, font: Option<usize>) -> (b: LabelBuilder<'a>)
        ensures
            b == (LabelBuilder { font, ..self }),
    {
        LabelBuilder { font, ..self }
    }

    pub fn background_color(self, color: Option<[u8; 3]>) -> (b: LabelBuilder<'a>)
        ensures
            b == (LabelBuilder { background_color: color, ..self }),
    {
        LabelBuilder { background_color: color, ..self }
    }

    pub fn h_align(self, align: HTextAlign) -> (b: LabelBuilder<'a>)
        ensures
            b == (LabelBuilder { h_align: align, ..self }),
    {
        LabelBuilder { h_align: align, ..self }
    }

    pub fn v_align(self, align: VTextAlign) -> (b: LabelBuilder<'a>)
        ensures
            b == (LabelBuilder { v_align: align, ..self }),
    {
        LabelBuilder { v_align: align, ..self }
    }

    pub fn parent(self, p: ControlHandle) -> (b: LabelBuilder<'a>)
        ensures
            b == (LabelBuilder { parent: Some(p), ..self }),
    {
        LabelBuilder { parent: Some(p), ..self }
    }

    /// The window to create for the label: the chosen flags (or the default ones) with
    /// the horizontal alignment added; fails without a parent.
    pub fn build(&self, out: &mut Label) -> (r: Result<LabelSetup, NwgError>)
        ensures
            r is Ok ==> final(out).handle == ControlHandle::NoHandle
                && r->Ok_0.release == destroy_request_of(old(out).handle),
            r is Err ==> *final(out) == *old(out),
            self.parent is None <==> r is Err,
            self.parent is None ==> (r matches Err(NwgError::NoParent(s)) && s@ == "Label"@),
            r matches Ok(s) ==> {
                &&& opt_str_view(s.window.class_name) == Some("STATIC"@)
                &&& s.window.forced_flags == WS_CHILD | SS_NOTIFY
                &&& s.window.flags == Some((match self.flags {
                    Some(f) => f,
                    None => WS_VISIBLE | SS_NOPREFIX | SS_LEFT,
                }) | h_align_style(self.h_align))
                &&& s.window.ex_flags == Some(self.ex_flags)
                &&& s.window.size == Some(self.size)
                &&& s.window.pos == Some(self.position)
                &&& opt_str_view(s.window.text) == Some(self.text@)
                &&& s.window.parent == (match self.parent.unwrap() { ControlHandle::Hwnd(h) => Some(h), _ => None::<usize> })
                &&& s.font == self.font
                &&& s.background == (match self.background_color { Some(c) => LabelBackground::Solid(rgb_spec(c[0], c[1], c[2])), None => LabelBackground::System(COLOR_WINDOW) })
                &&& s.v_align == self.v_align
            },
    {
        let mut flags = resolve_flags(self.flags, out.flags());
        match self.h_align {
            HTextAlign::Left => { flags = flags | SS_LEFT; },
            HTextAlign::Right => { flags = flags | SS_RIGHT; },
            HTextAlign::Center => { flags = flags | SS_CENTER; },
        }
        let parent = match require_parent(self.parent, "Label") {
            Ok(p) => p,
            Err(e) => { return Err(e); },
        };
        let release = out.handle.destroy();
        Ok(LabelSetup {
            release,
            window: hwnd_params(out.class_name(), out.forced_flags(), flags, self.ex_flags, self.size, self.position, Some(self.text), parent),
            font: self.font,
            background: label_background(self.background_color),
            v_align: self.v_align,
        })
    }
}

/// The number of line breaks of a text is the number of its '\n' units (10): any other
/// unit, a '\r' (13) among them, adds none.
pub proof fn lemma_newlines_are_line_feeds(s: Seq<u16>)
    ensures
        count_newlines(s) == s.filter(|c: u16| c == 10u16).len(),
        !s.contains(10u16) ==> count_newlines(s) == 0,
    decreases s.len(),
{
    let p = |c: u16| c == 10u16;
    if s.len() > 0 {
        lemma_newlines_are_line_feeds(s.drop_last());
        reveal(Seq::filter);
        assert(s.filter(p) == if p(s.last()) { s.drop_last().filter(p).push(s.last()) } else { s.drop_last().filter(p) });
        if !s.contains(10u16) {
            assert forall|i: int| 0 <= i < s.drop_last().len() implies s.drop_last()[i] != 10u16 by {
                assert(s[i] == s.drop_last()[i]);
            }
            assert(s[s.len() - 1] != 10u16);
        }
    }
}

/// Where a label puts its text: aligned to the top, the client area keeps its top and
/// loses at the bottom the height the window has beyond the text; aligned to the bottom,
/// it loses that height at the top; centered, it loses as much at the top as at the
/// bottom, half that height (rounded toward zero) less 1. The sides never move.
pub proof fn lemma_label_alignment(rect: Rect, window_height: i32, client_height: i32)
    requires
        fits_i32(window_height - client_height),
        fits_i32(rect.bottom - (window_height - client_height)),
        fits_i32(rect.top + (window_height - client_height)),
        fits_i32(rect.top + half_toward_zero(window_height - client_height) - 1),
        fits_i32(rect.bottom - (half_toward_zero(window_height - client_height) - 1)),
    ensures
        ({
            let spare = window_height - client_height;
            let top = nc_rect_spec(rect, window_height as int, client_height as int, VTextAlign::Top);
            let bottom = nc_rect_spec(rect, window_height as int, client_height as int, VTextAlign::Bottom);
            let center = nc_rect_spec(rect, window_height as int, client_height as int, VTextAlign::Center);
            let cut = center.top - rect.top;
            &&& top.top == rect.top && top.bottom == rect.bottom - spare
            &&& bottom.top == rect.top + spare && bottom.bottom == rect.bottom
            &&& rect.bottom - center.bottom == cut
            &&& spare >= 0 ==> 2 * (cut + 1) <= spare < 2 * (cut + 1) + 2
            &&& spare < 0 ==> 2 * (cut + 1) - 2 < spare <= 2 * (cut + 1)
            &&& top.left == rect.left && top.right == rect.right
            &&& bottom.left == rect.left && bottom.right == rect.right
            &&& center.left == rect.left && center.right == rect.right
        }),
{
}

/// The text of a centered label sits in the middle of its window: the space taken out
/// of the top and out of the bottom are equal.
pub proof fn lemma_center_is_symmetric(rect: Rect, window_height: int, client_height: int)
    requires
        fits_i32(rect.top + half_toward_zero(window_height - client_height) - 1),
        fits_i32(rect.bottom - (half_toward_zero(window_height - client_height) - 1)),
    ensures
        ({
            let r = nc_rect_spec(rect, window_height, client_height, VTextAlign::Center);
            &&& r.top - rect.top == rect.bottom - r.bottom
            &&& r.left == rect.left
            &&& r.right == rect.right
        }),
{
}

/// Top and bottom alignment both leave a client area as high as the text, when the
/// proposed rectangle is as high as the window.
pub proof fn lemma_top_bottom_client_height(rect: Rect, window_height: int, client_height: int)
    requires
        rect.bottom - rect.top == window_height,
        fits_i32(rect.bottom - (window_height - client_height)),
        fits_i32(rect.top + (window_height - client_height)),
    ensures
        nc_rect_spec(rect, window_height, client_height, VTextAlign::Top).bottom
            - nc_rect_spec(rect, window_height, client_height, VTextAlign::Top).top == client_height,
        nc_rect_spec(rect, window_height, client_height, VTextAlign::Bottom).bottom
            - nc_rect_spec(rect, window_height, client_height, VTextAlign::Bottom).top == client_height,
{
}

/// The handle of a control
impl<'a> From<&'a Label> for ControlHandle {
    fn from(control: &'a Label) -> (r: ControlHandle) {
        control.handle
    }
}

impl<'a> vstd::std_specs::convert::FromSpecImpl<&'a Label> for ControlHandle {
    open spec fn obeys_from_spec() -> bool {
        true
    }

    open spec fn from_spec(control: &'a Label) -> ControlHandle {
        control.handle
    }
}

} // verus!
